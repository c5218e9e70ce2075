use nova_loader::api::{
    is_success, login, logout, me, parse_empty_response, parse_json_response, rentals, ApiError,
    HttpMethod,
};
use nova_loader::models::LoginRequest;

#[test]
fn error_message_from_json_message() {
    let e = ApiError::from_response(400, r#"{"message":"Bad input"}"#.to_owned());
    assert_eq!(e.status, Some(400));
    assert_eq!(e.message, "Bad input");
}

#[test]
fn error_message_from_json_error_field() {
    let e = ApiError::from_response(500, r#"{"error":"Server down"}"#.to_owned());
    assert_eq!(e.message, "Server down");
}

#[test]
fn message_member_that_is_not_text_hides_error_member() {
    let body = r#"{"message":42,"error":"ignored"}"#.to_owned();
    let e = ApiError::from_response(500, body.clone());
    assert_eq!(e.message, body);
}

#[test]
fn blank_message_falls_back_to_status() {
    let e = ApiError::from_response(401, r#"{"message":"   "}"#.to_owned());
    assert_eq!(e.message, "Username, password, or token is invalid.");
    let e = ApiError::from_response(403, String::new());
    assert_eq!(e.message, "Account is banned or this HWID is not allowed.");
    let e = ApiError::from_response(429, "oops".to_owned());
    assert_eq!(e.message, "Too many login attempts. Please wait and try again.");
}

#[test]
fn empty_body_names_status() {
    let e = ApiError::from_response(502, "  \n".to_owned());
    assert_eq!(e.message, "Request failed with status 502.");
}

#[test]
fn plain_body_is_message() {
    let e = ApiError::from_response(500, "Internal failure".to_owned());
    assert_eq!(e.message, "Internal failure");
}

#[test]
fn new_and_invalid_json_have_no_status() {
    let e = ApiError::new("timeout".to_owned());
    assert_eq!(e.status, None);
    assert_eq!(e.message, "timeout");
    let e = ApiError::invalid_json("expected value");
    assert_eq!(e.status, None);
    assert_eq!(e.message, "Invalid JSON: expected value");
}

#[test]
fn success_range() {
    assert!(is_success(200));
    assert!(is_success(204));
    assert!(is_success(299));
    assert!(!is_success(199));
    assert!(!is_success(300));
    assert!(!is_success(404));
}

#[test]
fn json_response_outcomes() {
    assert_eq!(parse_json_response(200, Ok("{}".to_owned())).unwrap(), "{}");
    let e = parse_json_response(200, Err("reset".to_owned())).unwrap_err();
    assert_eq!((e.status, e.message.as_str()), (None, "reset"));
    let e = parse_json_response(404, Ok(r#"{"message":"Not here"}"#.to_owned())).unwrap_err();
    assert_eq!((e.status, e.message.as_str()), (Some(404), "Not here"));
}

#[test]
fn empty_response_outcomes() {
    assert!(parse_empty_response(204, None).is_ok());
    let e = parse_empty_response(500, None).unwrap_err();
    assert_eq!(e.status, Some(500));
    assert_eq!(e.message, "Request failed with status 500.");
}

#[test]
fn calls_are_built_from_base_url() {
    let req = LoginRequest { user: "u".to_owned(), password: "p".to_owned(), hwid: "h".to_owned() };
    let call = login("http://x/api/programs", req);
    assert_eq!(call.method, HttpMethod::Post);
    assert_eq!(call.url, "http://x/api/programs/login");
    assert!(call.bearer_token.is_none());
    assert_eq!(call.login_body.unwrap().user, "u");

    let call = me("http://x", "tok");
    assert_eq!((call.method, call.url.as_str()), (HttpMethod::Get, "http://x/me"));
    assert_eq!(call.bearer_token.as_deref(), Some("tok"));

    let call = rentals("http://x", "tok");
    assert_eq!((call.method, call.url.as_str()), (HttpMethod::Get, "http://x/rentals"));

    let call = logout("http://x", "tok");
    assert_eq!((call.method, call.url.as_str()), (HttpMethod::Post, "http://x/logout"));
    assert!(call.login_body.is_none());
}
