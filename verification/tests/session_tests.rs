use nova_loader::api::{ApiError, HttpMethod};
use nova_loader::config::AppConfig;
use nova_loader::models::{
    LoginResponse, MeResponse, Rental, RentalsResponse, SessionInfo, UserInfo,
};
use nova_loader::session::{
    is_launchable, remaining_text, status_kind_for_rental, toast_display_order, toast_label,
    AppMessage, Call, Session, StatusKind,
};

fn rental(id: &str, status: &str, product_status: &str) -> Rental {
    Rental {
        product_id: id.to_owned(),
        product_name: format!("Product {id}"),
        product_status: product_status.to_owned(),
        product_status_label: "Ready".to_owned(),
        rental_status: status.to_owned(),
        is_permanent: false,
        started_at: "2024-01-01T00:00:00Z".to_owned(),
        updated_at: "2024-01-01T00:00:00Z".to_owned(),
        expires_at: None,
        remaining_seconds: Some(3600),
    }
}

fn session() -> Session {
    Session::new(AppConfig { host: "localhost:3000".to_owned() }, "hw".to_owned())
}

fn user() -> UserInfo {
    UserInfo {
        id: "1".to_owned(),
        name: "Ann".to_owned(),
        email: "a@x".to_owned(),
        role: "user".to_owned(),
    }
}

#[test]
fn launchable_needs_active_and_available() {
    assert!(is_launchable(&rental("a", "ACTIVE", "AVAILABLE")));
    assert!(is_launchable(&rental("a", "PERMANENT", "AVAILABLE")));
    assert!(!is_launchable(&rental("a", "ACTIVE", "MAINTENANCE")));
    assert!(!is_launchable(&rental("a", "EXPIRED", "AVAILABLE")));
}

#[test]
fn rental_status_kinds() {
    assert_eq!(status_kind_for_rental(&rental("a", "ACTIVE", "X")), StatusKind::Success);
    assert_eq!(status_kind_for_rental(&rental("a", "PERMANENT", "X")), StatusKind::Success);
    assert_eq!(status_kind_for_rental(&rental("a", "EXPIRED", "X")), StatusKind::Error);
    assert_eq!(status_kind_for_rental(&rental("a", "PENDING", "X")), StatusKind::Warning);
}

#[test]
fn remaining_text_units() {
    assert_eq!(remaining_text(0), "Expired");
    assert_eq!(remaining_text(-5), "Expired");
    assert_eq!(remaining_text(59), "0m left");
    assert_eq!(remaining_text(3660), "1h 1m left");
    assert_eq!(remaining_text(90061), "1d 1h left");
    assert_eq!(remaining_text(86400), "1d 0h left");
}

#[test]
fn toast_labels() {
    assert_eq!(toast_label(StatusKind::Info), "INFO");
    assert_eq!(toast_label(StatusKind::Success), "OK");
    assert_eq!(toast_label(StatusKind::Warning), "WARN");
    assert_eq!(toast_label(StatusKind::Error), "ERR");
}

#[test]
fn login_needs_credentials() {
    let mut s = session();
    assert!(s.start_login_request(0).is_none());
    assert_eq!(s.status.text, "Enter username and password.");
    assert_eq!(s.status.kind, StatusKind::Warning);
    assert_eq!(s.toasts.len(), 1);
    s.username = "  ".to_owned();
    s.password = "pw".to_owned();
    assert!(s.start_login_request(0).is_none());
}

#[test]
fn full_sign_in_flow() {
    let mut s = session();
    s.username = "  ann ".to_owned();
    s.password = "pw".to_owned();
    let call = s.start_login_request(1).unwrap();
    assert_eq!(call.call, Call::Login);
    assert_eq!(call.request.method, HttpMethod::Post);
    assert_eq!(call.request.url, "http://localhost:3000/api/programs/login");
    let body = call.request.login_body.unwrap();
    assert_eq!((body.user.as_str(), body.password.as_str(), body.hwid.as_str()), ("ann", "pw", "hw"));
    assert_eq!(s.busy_label.as_deref(), Some("Logging in..."));
    assert!(!s.can_submit_login());

    let next = s.handle_message(AppMessage::Login(Ok(LoginResponse { token: "t1".to_owned() })), 2).unwrap();
    assert_eq!(next.call, Call::Me);
    assert_eq!(next.request.bearer_token.as_deref(), Some("t1"));
    assert_eq!(next.request.url, "http://localhost:3000/api/programs/me");
    assert_eq!(s.password, "");
    assert_eq!(s.status.text, "Calling /me...");
    assert_eq!(s.toasts.last().unwrap().text, "Login success.");

    let me = MeResponse {
        user: user(),
        session: SessionInfo { expires_at: "2030-01-01".to_owned(), hwid_locked: true },
    };
    let next = s.handle_message(AppMessage::Me(Ok(me)), 3).unwrap();
    assert_eq!(next.call, Call::Rentals);
    assert_eq!(s.hwid_locked, Some(true));
    assert_eq!(s.busy_label.as_deref(), Some("Loading programs..."));

    let list = RentalsResponse {
        rentals: vec![rental("a", "EXPIRED", "AVAILABLE"), rental("b", "ACTIVE", "AVAILABLE")],
    };
    assert!(s.handle_message(AppMessage::Rentals(Ok(list)), 4).is_none());
    assert_eq!(s.selected_product_id.as_deref(), Some("b"));
    assert_eq!(s.status.text, "Loaded 2 program(s).");
    assert!(s.busy_label.is_none());

    s.launch_selected_program(5);
    assert_eq!(s.status.text, "Access verified: Product b");
    assert_eq!(s.status.kind, StatusKind::Success);
}

#[test]
fn kept_selection_and_denied_launch() {
    let mut s = session();
    s.token = Some("t".to_owned());
    s.selected_product_id = Some("a".to_owned());
    let list = RentalsResponse {
        rentals: vec![rental("a", "EXPIRED", "AVAILABLE"), rental("b", "ACTIVE", "AVAILABLE")],
    };
    s.handle_message(AppMessage::Rentals(Ok(list)), 0);
    assert_eq!(s.selected_product_id.as_deref(), Some("a"));
    s.launch_selected_program(1);
    assert_eq!(s.status.text, "Access denied: Product a");
    assert_eq!(s.status.kind, StatusKind::Warning);
}

#[test]
fn no_launchable_selects_first() {
    let mut s = session();
    s.rentals = vec![rental("x", "EXPIRED", "AVAILABLE"), rental("y", "PENDING", "AVAILABLE")];
    s.ensure_selected_program();
    assert_eq!(s.selected_product_id.as_deref(), Some("x"));
    s.rentals.clear();
    s.selected_product_id = None;
    s.ensure_selected_program();
    assert_eq!(s.selected_product_id, None);
    s.launch_selected_program(0);
    assert_eq!(s.status.text, "Select a program first.");
}

#[test]
fn errors_are_shown_with_status() {
    let mut s = session();
    s.token = Some("t".to_owned());
    let err = ApiError { status: Some(500), message: "boom".to_owned() };
    s.handle_message(AppMessage::Rentals(Err(err)), 0);
    assert_eq!(s.status.text, "Program loading failed (500): boom");
    assert_eq!(s.status.kind, StatusKind::Error);
    assert_eq!(s.token.as_deref(), Some("t"));

    let err = ApiError { status: Some(401), message: "expired".to_owned() };
    s.handle_message(AppMessage::Rentals(Err(err)), 0);
    assert_eq!(s.token, None);

    let err = ApiError::new("no network".to_owned());
    s.handle_message(AppMessage::Login(Err(err)), 0);
    assert_eq!(s.status.text, "Login failed: no network");
}

#[test]
fn logout_always_forgets_account() {
    let mut s = session();
    s.token = Some("t".to_owned());
    s.user = Some(user());
    let call = s.start_logout_request().unwrap();
    assert_eq!(call.call, Call::Logout);
    assert_eq!(call.request.method, HttpMethod::Post);
    let err = ApiError { status: Some(503), message: "down".to_owned() };
    s.handle_message(AppMessage::Logout(Err(err)), 0);
    assert!(s.token.is_none() && s.user.is_none());
    assert_eq!(s.status.text, "Logged out locally. Server logout failed (503): down");
    assert_eq!(s.status.kind, StatusKind::Warning);

    s.token = Some("t".to_owned());
    s.handle_message(AppMessage::Logout(Ok(())), 0);
    assert!(s.token.is_none());
    assert_eq!(s.status.text, "Logged out.");

    assert!(s.start_logout_request().is_none());
    assert_eq!(s.status.text, "Logged out.");
}

#[test]
fn requests_without_token_warn() {
    let mut s = session();
    assert!(s.start_me_request().is_none());
    assert_eq!(s.status.text, "Please login first.");
    assert!(s.start_rentals_request().is_none());
    assert_eq!(s.status.kind, StatusKind::Warning);
}

#[test]
fn toasts_keep_five_newest_and_expire() {
    let mut s = session();
    for i in 0..8u64 {
        s.push_toast(format!("t{i}"), StatusKind::Info, i * 1000);
    }
    assert_eq!(s.toasts.len(), 5);
    assert_eq!(s.toasts[0].text, "t3");
    assert_eq!(s.toasts[4].text, "t7");
    s.expire_toasts(8000);
    let left: Vec<&str> = s.toasts.iter().map(|t| t.text.as_str()).collect();
    assert_eq!(left, vec!["t5", "t6", "t7"]);
}

#[test]
fn toasts_show_newest_first() {
    assert_eq!(toast_display_order(6, 4), vec![5, 4, 3, 2]);
    assert_eq!(toast_display_order(2, 4), vec![1, 0]);
    assert_eq!(toast_display_order(3, 3), vec![2, 1, 0]);
    assert!(toast_display_order(0, 4).is_empty());
}
