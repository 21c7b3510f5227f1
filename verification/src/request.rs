//! The HTTP requests that the supervisor sends to the sidecar.

use vstd::prelude::*;
use vstd::string::*;

verus! {

/// Seconds allowed for a health probe.
pub const HEALTH_TIMEOUT_SECS: u64 = 2;

/// Seconds allowed for a query of the authentication status.
pub const AUTH_STATUS_TIMEOUT_SECS: u64 = 5;

/// Seconds allowed for a login.
pub const LOGIN_TIMEOUT_SECS: u64 = 30;

/// Seconds allowed for a logout.
pub const LOGOUT_TIMEOUT_SECS: u64 = 5;

/// The JSON string literal that `serde_json` writes for a text: the text in
/// double quotes, with the characters escaped that JSON wants escaped.
pub uninterp spec fn json_string(text: Seq<char>) -> Seq<char>;

/// Writes a text as a JSON string literal, by the `Display` impl of
/// `serde_json::Value` on a string value. The contract names the literal and
/// claims nothing of what it holds.
#[verifier::external_body]
fn quote_json(text: &str) -> (literal: String)
    ensures
        literal@ == json_string(text@),
{
    serde_json::Value::from(text).to_string()
}

/// The JSON literal of a truth value.
pub open spec fn json_bool(value: bool) -> Seq<char> {
    if value {
        "true"@
    } else {
        "false"@
    }
}

/// The body of a login request: one JSON object with the members
/// `client_secret`, `refresh_token` and `remember_me`, in this order, without
/// white space.
pub open spec fn login_body(
    client_secret: Seq<char>,
    refresh_token: Seq<char>,
    remember_me: bool,
) -> Seq<char> {
    "{\"client_secret\":"@ + json_string(client_secret) + ",\"refresh_token\":"@ + json_string(
        refresh_token,
    ) + ",\"remember_me\":"@ + json_bool(remember_me) + "}"@
}

/// The body of a logout request: one JSON object with the member
/// `clear_credentials`, without white space.
pub open spec fn logout_body(clear_credentials: bool) -> Seq<char> {
    "{\"clear_credentials\":"@ + json_bool(clear_credentials) + "}"@
}

/// The two methods that the sidecar's API uses.
#[derive(Debug, Clone, Copy, PartialEq, Eq, Structural)]
pub enum HttpMethod {
    Get,
    Post,
}

/// One request, ready to be sent: where it goes, what it carries, and how long
/// the sender may wait for the response.
#[derive(Debug, Clone)]
pub struct HttpRequest {
    pub method: HttpMethod,
    pub url: String,
    /// The body, to be sent as `application/json`; `None` for no body.
    pub json_body: Option<String>,
    pub timeout_secs: u64,
}

/// The mathematical content of an [`HttpRequest`].
pub struct RequestView {
    pub method: HttpMethod,
    pub url: Seq<char>,
    pub json_body: Option<Seq<char>>,
    pub timeout_secs: u64,
}

impl View for HttpRequest {
    type V = RequestView;

    open spec fn view(&self) -> RequestView {
        RequestView {
            method: self.method,
            url: self.url@,
            json_body: match self.json_body {
                Some(body) => Some(body@),
                None => None,
            },
            timeout_secs: self.timeout_secs,
        }
    }
}

/// The health probe against a base URL.
pub open spec fn health_request_for(base_url: Seq<char>) -> RequestView {
    RequestView {
        method: HttpMethod::Get,
        url: base_url + "/api/health"@,
        json_body: None,
        timeout_secs: HEALTH_TIMEOUT_SECS,
    }
}

/// The query of the authentication status against a base URL.
pub open spec fn auth_status_request_for(base_url: Seq<char>) -> RequestView {
    RequestView {
        method: HttpMethod::Get,
        url: base_url + "/api/auth-status"@,
        json_body: None,
        timeout_secs: AUTH_STATUS_TIMEOUT_SECS,
    }
}

/// The login against a base URL.
pub open spec fn login_request_for(
    base_url: Seq<char>,
    client_secret: Seq<char>,
    refresh_token: Seq<char>,
    remember_me: bool,
) -> RequestView {
    RequestView {
        method: HttpMethod::Post,
        url: base_url + "/api/login"@,
        json_body: Some(login_body(client_secret, refresh_token, remember_me)),
        timeout_secs: LOGIN_TIMEOUT_SECS,
    }
}

/// The logout against a base URL.
pub open spec fn logout_request_for(base_url: Seq<char>, clear_credentials: bool) -> RequestView {
    RequestView {
        method: HttpMethod::Post,
        url: base_url + "/api/logout"@,
        json_body: Some(logout_body(clear_credentials)),
        timeout_secs: LOGOUT_TIMEOUT_SECS,
    }
}

/// The address of an endpoint under a base URL.
fn endpoint(base_url: &str, path: &str) -> (url: String)
    ensures
        url@ == base_url@ + path@,
{
    String::from_str(base_url).concat(path)
}

/// Writes a truth value as JSON.
fn write_json_bool(value: bool) -> (literal: &'static str)
    ensures
        literal@ == json_bool(value),
{
    if value {
        "true"
    } else {
        "false"
    }
}

/// Builds the health probe: a GET of `/api/health`, two seconds.
pub fn health_request(base_url: &str) -> (request: HttpRequest)
    ensures
        request@ == health_request_for(base_url@),
{
    HttpRequest {
        method: HttpMethod::Get,
        url: endpoint(base_url, "/api/health"),
        json_body: None,
        timeout_secs: HEALTH_TIMEOUT_SECS,
    }
}

/// Builds the query of the authentication status: a GET of
/// `/api/auth-status`, five seconds.
pub fn auth_status_request(base_url: &str) -> (request: HttpRequest)
    ensures
        request@ == auth_status_request_for(base_url@),
{
    HttpRequest {
        method: HttpMethod::Get,
        url: endpoint(base_url, "/api/auth-status"),
        json_body: None,
        timeout_secs: AUTH_STATUS_TIMEOUT_SECS,
    }
}

/// Builds the login: a POST of the credentials to `/api/login`, thirty seconds.
pub fn login_request(
    base_url: &str,
    client_secret: &str,
    refresh_token: &str,
    remember_me: bool,
) -> (request: HttpRequest)
    ensures
        request@ == login_request_for(base_url@, client_secret@, refresh_token@, remember_me),
{
    let secret = quote_json(client_secret);
    let token = quote_json(refresh_token);
    let mut body = String::from_str("{\"client_secret\":");
    body.append(secret.as_str());
    body.append(",\"refresh_token\":");
    body.append(token.as_str());
    body.append(",\"remember_me\":");
    body.append(write_json_bool(remember_me));
    body.append("}");
    HttpRequest {
        method: HttpMethod::Post,
        url: endpoint(base_url, "/api/login"),
        json_body: Some(body),
        timeout_secs: LOGIN_TIMEOUT_SECS,
    }
}

/// Builds the logout: a POST to `/api/logout`, five seconds.
pub fn logout_request(base_url: &str, clear_credentials: bool) -> (request: HttpRequest)
    ensures
        request@ == logout_request_for(base_url@, clear_credentials),
{
    let mut body = String::from_str("{\"clear_credentials\":");
    body.append(write_json_bool(clear_credentials));
    body.append("}");
    HttpRequest {
        method: HttpMethod::Post,
        url: endpoint(base_url, "/api/logout"),
        json_body: Some(body),
        timeout_secs: LOGOUT_TIMEOUT_SECS,
    }
}

} // verus!
