//! What can go wrong in a supervisor operation, and the message each failure carries.

use crate::status::{status_line, HttpStatus};
use vstd::prelude::*;
use vstd::string::*;

verus! {

/// A failure of a supervisor operation.
#[derive(Debug, Clone)]
pub enum SidecarError {
    /// `start` was called while a process handle was held.
    AlreadyRunning,
    /// The child could not be launched; holds the launcher's reason.
    SpawnFailed(String),
    /// The lock around the supervisor could not be taken; holds the lock's reason.
    LockUnavailable(String),
    /// No health probe succeeded within the attempt budget.
    NotReady,
    /// The health probe got no response; holds the transport's reason.
    Unreachable(String),
    /// The health probe was answered with a status outside the success class.
    HealthCheckFailed(HttpStatus),
    /// A remote call got no response; holds the transport's reason.
    RequestFailed(String),
    /// A remote call was answered with a body that does not decode.
    DecodeFailed(String),
}

/// The mathematical content of a [`SidecarError`].
pub enum ErrorView {
    AlreadyRunning,
    SpawnFailed(Seq<char>),
    LockUnavailable(Seq<char>),
    NotReady,
    Unreachable(Seq<char>),
    HealthCheckFailed(u16),
    RequestFailed(Seq<char>),
    DecodeFailed(Seq<char>),
}

impl ErrorView {
    /// The message that a caller is shown for this failure.
    pub open spec fn message(self) -> Seq<char> {
        match self {
            ErrorView::AlreadyRunning => "Server already running"@,
            ErrorView::SpawnFailed(reason) => "Failed to spawn Python server: "@ + reason,
            ErrorView::LockUnavailable(reason) => reason,
            ErrorView::NotReady => "Server failed to start"@,
            ErrorView::Unreachable(reason) => "Health check failed: "@ + reason,
            ErrorView::HealthCheckFailed(code) => "Health check returned "@ + status_line(code),
            ErrorView::RequestFailed(reason) => "Request failed: "@ + reason,
            ErrorView::DecodeFailed(reason) => "Failed to parse response: "@ + reason,
        }
    }
}

impl View for SidecarError {
    type V = ErrorView;

    open spec fn view(&self) -> ErrorView {
        match self {
            SidecarError::AlreadyRunning => ErrorView::AlreadyRunning,
            SidecarError::SpawnFailed(reason) => ErrorView::SpawnFailed(reason@),
            SidecarError::LockUnavailable(reason) => ErrorView::LockUnavailable(reason@),
            SidecarError::NotReady => ErrorView::NotReady,
            SidecarError::Unreachable(reason) => ErrorView::Unreachable(reason@),
            SidecarError::HealthCheckFailed(status) => ErrorView::HealthCheckFailed(status@),
            SidecarError::RequestFailed(reason) => ErrorView::RequestFailed(reason@),
            SidecarError::DecodeFailed(reason) => ErrorView::DecodeFailed(reason@),
        }
    }
}

/// A heading followed by a detail, as one string.
fn headed(heading: &str, detail: &str) -> (text: String)
    ensures
        text@ == heading@ + detail@,
{
    String::from_str(heading).concat(detail)
}

impl SidecarError {
    /// The message that a caller is shown for this failure.
    pub fn message(&self) -> (text: String)
        ensures
            text@ == self@.message(),
    {
        match self {
            SidecarError::AlreadyRunning => String::from_str("Server already running"),
            SidecarError::SpawnFailed(reason) => headed(
                "Failed to spawn Python server: ",
                reason.as_str(),
            ),
            SidecarError::LockUnavailable(reason) => reason.clone(),
            SidecarError::NotReady => String::from_str("Server failed to start"),
            SidecarError::Unreachable(reason) => headed("Health check failed: ", reason.as_str()),
            SidecarError::HealthCheckFailed(status) => {
                let line = status.describe();
                headed("Health check returned ", line.as_str())
            },
            SidecarError::RequestFailed(reason) => headed("Request failed: ", reason.as_str()),
            SidecarError::DecodeFailed(reason) => headed(
                "Failed to parse response: ",
                reason.as_str(),
            ),
        }
    }
}

} // verus!
