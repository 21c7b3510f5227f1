//! HTTP status codes as the supervisor reads them.

use vstd::prelude::*;

verus! {

/// The lowest status code that HTTP defines.
pub const MIN_STATUS: u16 = 100;

/// The highest three-digit status code.
pub const MAX_STATUS: u16 = 999;

/// The text that `reqwest::StatusCode` displays for a status code: the number,
/// a space, and the registered reason phrase or a placeholder.
pub uninterp spec fn status_line(code: u16) -> Seq<char>;

/// Whether a number is a status code at all.
pub open spec fn is_status_code(code: u16) -> bool {
    MIN_STATUS <= code <= MAX_STATUS
}

/// Whether a status code belongs to the success class.
pub open spec fn in_success_class(code: u16) -> bool {
    200 <= code <= 299
}

/// Asks `reqwest::StatusCode::is_success` about a status code. The contract
/// claims what its documentation says: true exactly for 200 to 299.
#[verifier::external_body]
fn status_is_success(code: u16) -> (success: bool)
    requires
        is_status_code(code),
    ensures
        success == in_success_class(code),
{
    match reqwest::StatusCode::from_u16(code) {
        Ok(status) => status.is_success(),
        Err(_) => false,
    }
}

/// Renders a status code through the `Display` impl of `reqwest::StatusCode`.
/// The contract names the text and claims nothing of what it holds.
#[verifier::external_body]
fn status_to_string(code: u16) -> (text: String)
    requires
        is_status_code(code),
    ensures
        text@ == status_line(code),
{
    match reqwest::StatusCode::from_u16(code) {
        Ok(status) => status.to_string(),
        Err(_) => String::new(),
    }
}

/// A status code that a response carried. Always within 100 to 999.
#[derive(Debug, Clone, Copy)]
pub struct HttpStatus {
    code: u16,
}

impl View for HttpStatus {
    type V = u16;

    closed spec fn view(&self) -> u16 {
        self.code
    }
}

impl HttpStatus {
    #[verifier::type_invariant]
    spec fn in_range(self) -> bool {
        is_status_code(self.code)
    }

    /// Accepts the codes from 100 to 999 and refuses every other number.
    pub fn from_u16(code: u16) -> (status: Option<HttpStatus>)
        ensures
            status is Some <==> is_status_code(code),
            status is Some ==> status.unwrap()@ == code,
    {
        if MIN_STATUS <= code && code <= MAX_STATUS {
            Some(HttpStatus { code })
        } else {
            None
        }
    }

    /// The numeric code.
    pub fn as_u16(&self) -> (code: u16)
        ensures
            code == self@,
            is_status_code(code),
    {
        proof {
            use_type_invariant(self);
        }
        self.code
    }

    /// Whether the code is in the success class, 200 to 299.
    pub fn is_success(&self) -> (success: bool)
        ensures
            success == in_success_class(self@),
    {
        proof {
            use_type_invariant(self);
        }
        status_is_success(self.code)
    }

    /// The status as it appears in messages, such as `404 Not Found`.
    pub fn describe(&self) -> (text: String)
        ensures
            text@ == status_line(self@),
    {
        proof {
            use_type_invariant(self);
        }
        status_to_string(self.code)
    }
}

} // verus!
