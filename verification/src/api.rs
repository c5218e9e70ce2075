//! The program API: which request each call makes, and how an answer is
//! turned into a result or an [`ApiError`].
//!
//! Sending the request and decoding a JSON body into the response types is
//! left to the caller; this module decides everything else.
use vstd::prelude::*;

use crate::models::LoginRequest;
use crate::text::{chars_of, decimal, push_decimal, push_str, trim, trim_chars};

verus! {

/// A failed call: the HTTP status when the server answered, and a message.
#[derive(Debug)]
pub struct ApiError {
    pub status: Option<u16>,
    pub message: String,
}

impl Clone for ApiError {
    fn clone(&self) -> (r: Self)
        ensures
            r == *self,
    {
        ApiError { status: self.status, message: self.message.clone() }
    }
}

/// The HTTP method of a call.
#[derive(Debug, Clone, Copy, PartialEq, Eq)]
pub enum HttpMethod {
    Get,
    Post,
}

/// A call to make: method, URL, the bearer token to send, and the login
/// credentials to send as the JSON body.
#[derive(Debug, Clone)]
pub struct ApiRequest {
    pub method: HttpMethod,
    pub url: String,
    pub bearer_token: Option<String>,
    pub login_body: Option<LoginRequest>,
}

pub const MESSAGE_UNAUTHORIZED: &'static str = "Username, password, or token is invalid.";

pub const MESSAGE_FORBIDDEN: &'static str = "Account is banned or this HWID is not allowed.";

pub const MESSAGE_TOO_MANY: &'static str = "Too many login attempts. Please wait and try again.";

pub const REQUEST_FAILED_PREFIX: &'static str = "Request failed with status ";

pub const INVALID_JSON_PREFIX: &'static str = "Invalid JSON: ";

pub const MESSAGE_KEY: &'static str = "message";

pub const ERROR_KEY: &'static str = "error";

// ---------------------------------------------------------------------------
// The JSON body of an error answer
// ---------------------------------------------------------------------------

/// What `serde_json` reads for the member `key` of the JSON text `body`:
/// `None` when `body` is not JSON, is not an object, or has no member `key`;
/// `Some(Some(text))` when the member is a JSON string; `Some(None)` when it
/// is any other JSON value.
pub uninterp spec fn json_field(body: Seq<char>, key: Seq<char>) -> Option<Option<Seq<char>>>;

/// The view of an optional, optionally textual field.
pub open spec fn field_view(f: Option<Option<String>>) -> Option<Option<Seq<char>>> {
    match f {
        Some(Some(t)) => Some(Some(t@)),
        Some(None) => Some(None),
        None => None,
    }
}

/// Reads the member `key` of the JSON text `body` with
/// `serde_json::from_str::<serde_json::Value>` and `serde_json::Value::get`,
/// and tells a string member (what `Value::as_str` accepts) from any other.
/// The contract claims only that the result is the named `json_field` of
/// the two arguments: what serde_json accepts as JSON is not restated here.
#[verifier::external_body]
fn read_json_field(body: &str, key: &str) -> (r: Option<Option<String>>)
    ensures
        field_view(r) == json_field(body@, key@),
{
    match serde_json::from_str::<serde_json::Value>(body) {
        Ok(value) => match value.get(key) {
            Some(serde_json::Value::String(text)) => Some(Some(text.clone())),
            Some(_) => Some(None),
            None => None,
        },
        Err(_) => None,
    }
}

/// The text that an error body offers: the member `message` when the body
/// has one, else the member `error`; kept only when it is a JSON string that
/// is not blank.
pub open spec fn offered_text(
    message_field: Option<Option<Seq<char>>>,
    error_field: Option<Option<Seq<char>>>,
) -> Option<Seq<char>> {
    let chosen = match message_field {
        Some(f) => Some(f),
        None => error_field,
    };
    match chosen {
        Some(Some(t)) => if trim(t).len() > 0 {
            Some(t)
        } else {
            None
        },
        _ => None,
    }
}

/// The message for a failed answer whose body offers no text.
pub open spec fn fallback_message(status: u16, body: Seq<char>) -> Seq<char> {
    if status == 401 {
        MESSAGE_UNAUTHORIZED@
    } else if status == 403 {
        MESSAGE_FORBIDDEN@
    } else if status == 429 {
        MESSAGE_TOO_MANY@
    } else if trim(body).len() == 0 {
        REQUEST_FAILED_PREFIX@ + decimal(status as nat) + seq!['.']
    } else {
        body
    }
}

/// The message of a failed answer, given what its body offers.
pub open spec fn message_for(
    status: u16,
    body: Seq<char>,
    message_field: Option<Option<Seq<char>>>,
    error_field: Option<Option<Seq<char>>>,
) -> Seq<char> {
    match offered_text(message_field, error_field) {
        Some(t) => t,
        None => fallback_message(status, body),
    }
}

/// The message of a failed answer with status `status` and body `body`.
pub open spec fn response_message(status: u16, body: Seq<char>) -> Seq<char> {
    message_for(status, body, json_field(body, MESSAGE_KEY@), json_field(body, ERROR_KEY@))
}

/// The error for a failed answer.
pub open spec fn response_error(status: u16, body: Seq<char>) -> (Option<u16>, Seq<char>) {
    (Some(status), response_message(status, body))
}

/// The error as a pair of status and message text.
pub open spec fn error_view(e: ApiError) -> (Option<u16>, Seq<char>) {
    (e.status, e.message@)
}

/// A status in the 2xx range (`StatusCode::is_success`).
pub open spec fn is_success_spec(status: u16) -> bool {
    200 <= status <= 299
}

impl ApiError {
    /// An error without status.
    pub fn new(message: String) -> (r: Self)
        ensures
            r.status is None,
            r.message@ == message@,
    {
        ApiError { status: None, message }
    }

    /// The error for an answer whose body could not be decoded.
    pub fn invalid_json(detail: &str) -> (r: Self)
        ensures
            r.status is None,
            r.message@ == INVALID_JSON_PREFIX@ + detail@,
    {
        let mut message = String::new();
        push_str(&mut message, INVALID_JSON_PREFIX);
        push_str(&mut message, detail);
        ApiError { status: None, message }
    }

    /// The error for a failed answer with status `status` and body `body`:
    /// the body's `message` (or else `error`) text when it is a non-blank
    /// JSON string, else a message chosen by the status.
    pub fn from_response(status: u16, body: String) -> (r: Self)
        ensures
            error_view(r) == response_error(status, body@),
    {
        let message_field = read_json_field(body.as_str(), MESSAGE_KEY);
        let error_field = if message_field.is_some() {
            None
        } else {
            read_json_field(body.as_str(), ERROR_KEY)
        };
        let message = error_message(status, body, message_field, error_field);
        ApiError { status: Some(status), message }
    }
}

/// The message of a failed answer, given the `message` and `error` members
/// that its body holds (as read by serde_json).
pub fn error_message(
    status: u16,
    body: String,
    message_field: Option<Option<String>>,
    error_field: Option<Option<String>>,
) -> (r: String)
    ensures
        r@ == message_for(status, body@, field_view(message_field), field_view(error_field)),
{
    let chosen = match message_field {
        Some(f) => Some(f),
        None => error_field,
    };
    if let Some(Some(text)) = chosen {
        let chars = chars_of(text.as_str());
        let trimmed = trim_chars(&chars);
        if trimmed.len() > 0 {
            return text;
        }
    }
    if status == 401 {
        MESSAGE_UNAUTHORIZED.to_owned()
    } else if status == 403 {
        MESSAGE_FORBIDDEN.to_owned()
    } else if status == 429 {
        MESSAGE_TOO_MANY.to_owned()
    } else {
        let chars = chars_of(body.as_str());
        let trimmed = trim_chars(&chars);
        if trimmed.len() == 0 {
            let mut m = String::new();
            push_str(&mut m, REQUEST_FAILED_PREFIX);
            push_decimal(&mut m, status as u64);
            m.push('.');
            m
        } else {
            body
        }
    }
}

/// Whether `status` is in the 2xx range.
pub fn is_success(status: u16) -> (r: bool)
    ensures
        r == is_success_spec(status),
{
    200 <= status && status <= 299
}

// ---------------------------------------------------------------------------
// The calls
// ---------------------------------------------------------------------------

/// `base_url` followed by `path`.
pub open spec fn endpoint(base_url: Seq<char>, path: Seq<char>) -> Seq<char> {
    base_url + path
}

pub const LOGIN_PATH: &'static str = "/login";

pub const ME_PATH: &'static str = "/me";

pub const RENTALS_PATH: &'static str = "/rentals";

pub const LOGOUT_PATH: &'static str = "/logout";

fn endpoint_url(base_url: &str, path: &str) -> (r: String)
    ensures
        r@ == endpoint(base_url@, path@),
{
    let mut url = String::new();
    push_str(&mut url, base_url);
    push_str(&mut url, path);
    url
}

/// The login call: `POST {base_url}/login` with the credentials as JSON body.
pub fn login(base_url: &str, request: LoginRequest) -> (r: ApiRequest)
    ensures
        r.method == HttpMethod::Post,
        r.url@ == endpoint(base_url@, LOGIN_PATH@),
        r.bearer_token is None,
        r.login_body == Some(request),
{
    ApiRequest {
        method: HttpMethod::Post,
        url: endpoint_url(base_url, LOGIN_PATH),
        bearer_token: None,
        login_body: Some(request),
    }
}

/// The account call: `GET {base_url}/me` with `token` as bearer token.
pub fn me(base_url: &str, token: &str) -> (r: ApiRequest)
    ensures
        r.method == HttpMethod::Get,
        r.url@ == endpoint(base_url@, ME_PATH@),
        r.bearer_token matches Some(t) && t@ == token@,
        r.login_body is None,
{
    ApiRequest {
        method: HttpMethod::Get,
        url: endpoint_url(base_url, ME_PATH),
        bearer_token: Some(token.to_owned()),
        login_body: None,
    }
}

/// The program list call: `GET {base_url}/rentals` with `token` as bearer
/// token.
pub fn rentals(base_url: &str, token: &str) -> (r: ApiRequest)
    ensures
        r.method == HttpMethod::Get,
        r.url@ == endpoint(base_url@, RENTALS_PATH@),
        r.bearer_token matches Some(t) && t@ == token@,
        r.login_body is None,
{
    ApiRequest {
        method: HttpMethod::Get,
        url: endpoint_url(base_url, RENTALS_PATH),
        bearer_token: Some(token.to_owned()),
        login_body: None,
    }
}

/// The logout call: `POST {base_url}/logout` with `token` as bearer token.
pub fn logout(base_url: &str, token: &str) -> (r: ApiRequest)
    ensures
        r.method == HttpMethod::Post,
        r.url@ == endpoint(base_url@, LOGOUT_PATH@),
        r.bearer_token matches Some(t) && t@ == token@,
        r.login_body is None,
{
    ApiRequest {
        method: HttpMethod::Post,
        url: endpoint_url(base_url, LOGOUT_PATH),
        bearer_token: Some(token.to_owned()),
        login_body: None,
    }
}

// ---------------------------------------------------------------------------
// Answers
// ---------------------------------------------------------------------------

/// The body to decode as JSON, for an answer with status `status` whose
/// body was read as `body` (or failed to be read, with that error's text):
/// a read failure is an error without status; a status outside 2xx is the
/// error that [`ApiError::from_response`] gives; otherwise the body.
pub fn parse_json_response(status: u16, body: Result<String, String>) -> (r: Result<
    String,
    ApiError,
>)
    ensures
        match body {
            Err(e) => r matches Err(err) && err.status is None && err.message@ == e@,
            Ok(b) => if is_success_spec(status) {
                r matches Ok(s) && s@ == b@
            } else {
                r matches Err(err) && error_view(err) == response_error(status, b@)
            },
        },
{
    match body {
        Err(e) => Err(ApiError::new(e)),
        Ok(b) => {
            if !is_success(status) {
                Err(ApiError::from_response(status, b))
            } else {
                Ok(b)
            }
        },
    }
}

/// The result of an answer that carries no data: success for a 2xx status,
/// else the error that [`ApiError::from_response`] gives for the body (an
/// unreadable body counts as empty).
pub fn parse_empty_response(status: u16, body: Option<String>) -> (r: Result<(), ApiError>)
    ensures
        is_success_spec(status) ==> r is Ok,
        !is_success_spec(status) ==> (r matches Err(err) && error_view(err) == response_error(
            status,
            match body {
                Some(b) => b@,
                None => Seq::<char>::empty(),
            },
        )),
{
    let b = match body {
        Some(b) => b,
        None => String::new(),
    };
    if is_success(status) {
        Ok(())
    } else {
        Err(ApiError::from_response(status, b))
    }
}

} // verus!
