//! Replies of the sidecar's HTTP API, and what each operation makes of them.

use crate::error::SidecarError;
use crate::status::{in_success_class, HttpStatus};
use vstd::prelude::*;
use vstd::string::*;

verus! {

/// Whether the sidecar holds a live session, and whether it has credentials on file.
#[derive(Debug, Clone, Copy, PartialEq, Eq, Structural)]
pub struct AuthStatus {
    pub authenticated: bool,
    pub has_stored_credentials: bool,
}

/// What the sidecar answers to a login.
#[derive(Debug, Clone)]
pub struct LoginResponse {
    pub success: bool,
    pub error: Option<String>,
}

/// What the sidecar answers to a logout.
#[derive(Debug, Clone)]
pub struct LogoutResponse {
    pub success: bool,
    pub error: Option<String>,
}

/// The mathematical content of a login or logout answer.
pub struct VerdictView {
    pub success: bool,
    pub error: Option<Seq<char>>,
}

/// The characters of an optional text.
pub open spec fn text_view(text: Option<String>) -> Option<Seq<char>> {
    match text {
        Some(t) => Some(t@),
        None => None,
    }
}

impl View for LoginResponse {
    type V = VerdictView;

    open spec fn view(&self) -> VerdictView {
        VerdictView { success: self.success, error: text_view(self.error) }
    }
}

impl View for LogoutResponse {
    type V = VerdictView;

    open spec fn view(&self) -> VerdictView {
        VerdictView { success: self.success, error: text_view(self.error) }
    }
}

/// How a call that expects a JSON answer ended, before the supervisor has
/// looked at it.
#[derive(Debug, Clone)]
pub enum CallOutcome<T> {
    /// No response arrived; holds the transport's reason.
    TransportFailed(String),
    /// A response arrived and its body does not decode; holds the decoder's reason.
    Undecodable(String),
    /// A response arrived and its body decodes to this value.
    Decoded(T),
}

/// What a health probe amounts to: success exactly for a response in the
/// success class.
pub open spec fn health_verdict(probe: Result<HttpStatus, String>) -> Result<(), SidecarError> {
    match probe {
        Ok(status) => if in_success_class(status@) {
            Ok(())
        } else {
            Err(SidecarError::HealthCheckFailed(status))
        },
        Err(reason) => Err(SidecarError::Unreachable(reason)),
    }
}

/// What a call with a JSON answer amounts to: the decoded value, or the
/// failure of the stage that failed.
pub open spec fn call_verdict<T>(outcome: CallOutcome<T>) -> Result<T, SidecarError> {
    match outcome {
        CallOutcome::TransportFailed(reason) => Err(SidecarError::RequestFailed(reason)),
        CallOutcome::Undecodable(reason) => Err(SidecarError::DecodeFailed(reason)),
        CallOutcome::Decoded(value) => Ok(value),
    }
}

/// The token that answers a ping.
pub open spec fn pong() -> Seq<char> {
    "pong"@
}

/// Judges a health probe. `probe` is the status of the response, or the
/// transport's reason where none arrived.
pub fn judge_health(probe: Result<HttpStatus, String>) -> (verdict: Result<(), SidecarError>)
    ensures
        verdict == health_verdict(probe),
{
    match probe {
        Ok(status) => {
            if status.is_success() {
                Ok(())
            } else {
                Err(SidecarError::HealthCheckFailed(status))
            }
        },
        Err(reason) => Err(SidecarError::Unreachable(reason)),
    }
}

/// Judges a call with a JSON answer. The status of the response plays no part.
pub fn judge_call<T>(outcome: CallOutcome<T>) -> (verdict: Result<T, SidecarError>)
    ensures
        verdict == call_verdict(outcome),
{
    match outcome {
        CallOutcome::TransportFailed(reason) => Err(SidecarError::RequestFailed(reason)),
        CallOutcome::Undecodable(reason) => Err(SidecarError::DecodeFailed(reason)),
        CallOutcome::Decoded(value) => Ok(value),
    }
}

/// Answers a ping: the token `pong` for a healthy probe, the probe's failure
/// otherwise.
pub fn judge_ping(probe: Result<HttpStatus, String>) -> (verdict: Result<String, SidecarError>)
    ensures
        match health_verdict(probe) {
            Ok(_) => verdict is Ok && verdict.unwrap()@ == pong(),
            Err(e) => verdict == Err::<String, SidecarError>(e),
        },
{
    match judge_health(probe) {
        Ok(_) => Ok(String::from_str("pong")),
        Err(e) => Err(e),
    }
}

/// A response that does not decode is a `DecodeFailed` with the decoder's
/// reason, whatever the endpoint and whatever type was expected.
pub proof fn lemma_undecodable_is_decode_failed<T>(reason: String)
    ensures
        call_verdict(CallOutcome::<T>::Undecodable(reason)) == Err::<T, SidecarError>(
            SidecarError::DecodeFailed(reason),
        ),
        SidecarError::DecodeFailed(reason)@.message() == "Failed to parse response: "@ + reason@,
{
}

/// A decoded answer is passed on as it is, and a call without a response is a
/// `RequestFailed` with the transport's reason.
pub proof fn lemma_call_passes_through<T>(outcome: CallOutcome<T>)
    ensures
        outcome matches CallOutcome::Decoded(value) ==> call_verdict(outcome) == Ok::<
            T,
            SidecarError,
        >(value),
        outcome matches CallOutcome::TransportFailed(reason) ==> call_verdict(outcome) == Err::<
            T,
            SidecarError,
        >(SidecarError::RequestFailed(reason)),
        call_verdict(outcome) is Ok <==> outcome is Decoded,
{
}

} // verus!
