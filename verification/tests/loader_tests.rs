use nova_loader::api::ApiError;
use nova_loader::config::AppConfig;
use nova_loader::loader::{
    home_rows, launch_error, launch_outcome, page_rank, HomeRow, LaunchPlan, LoaderSession, Page,
};
use nova_loader::loader_text::{
    compact_label_text, compact_toast_text, detail_rows, hash_text, notice_title, palette_seed,
    rental_subtitle, short_datetime, step_lines, toast_lines,
};
use nova_loader::models::{LoginResponse, Rental, RentalsResponse};
use nova_loader::program_profiles::{default_profile, profile_for, LaunchStep};
use nova_loader::session::{AppMessage, Call, StatusKind};

fn rental(name: &str, status: &str) -> Rental {
    Rental {
        product_id: "p".to_owned(),
        product_name: name.to_owned(),
        product_status: "AVAILABLE".to_owned(),
        product_status_label: "Online".to_owned(),
        rental_status: status.to_owned(),
        is_permanent: false,
        started_at: String::new(),
        updated_at: String::new(),
        expires_at: None,
        remaining_seconds: None,
    }
}

fn loader() -> LoaderSession {
    LoaderSession::new(AppConfig { host: "h".to_owned() }, "hw".to_owned(), 0)
}

#[test]
fn compact_texts() {
    assert_eq!(compact_label_text("  hello\nworld  ", 20), "hello world");
    assert_eq!(compact_label_text("abcdefgh", 5), "abcde...");
    assert_eq!(compact_toast_text("abc", 3), "abc");
    assert_eq!(compact_toast_text("", 3), "");
}

#[test]
fn short_datetimes() {
    assert_eq!(short_datetime("2024-01-02T03:04:05.123Z"), "2024-01-02 03:04...");
    assert_eq!(short_datetime("2024-01-02T03:04Z"), "2024-01-02 03:04");
    assert_eq!(short_datetime("  "), "-");
    assert_eq!(short_datetime(" - "), "-");
}

#[test]
fn toast_line_split() {
    assert_eq!(toast_lines("short", 10, 10), vec!["short".to_owned()]);
    assert_eq!(
        toast_lines("abcdefghij klmnop", 10, 4),
        vec!["abcdefghij".to_owned(), "klmn...".to_owned()]
    );
    assert_eq!(toast_lines("abcdefghij   ", 10, 4), vec!["abcdefghij".to_owned()]);
}

#[test]
fn subtitles() {
    let mut r = rental("Unknown", "ACTIVE");
    assert_eq!(rental_subtitle(&r, &profile_for("Warface")), "Tactical loader profile");
    assert_eq!(rental_subtitle(&r, &default_profile()), "Online");
    r.remaining_seconds = Some(7200);
    assert_eq!(rental_subtitle(&r, &default_profile()), "2h 0m left");
    r.rental_status = "PERMANENT".to_owned();
    assert_eq!(rental_subtitle(&r, &default_profile()), "Permanent access");
    let mut r = rental("Unknown", "ACTIVE");
    r.product_status_label = String::new();
    assert_eq!(rental_subtitle(&r, &default_profile()), "Program access");
}

#[test]
fn fnv_hash_values() {
    assert_eq!(hash_text(""), 2166136261);
    assert_eq!(hash_text("a"), 0xe40c292c);
    assert_eq!(hash_text("foobar"), 0xbf9cf968);
    assert!(palette_seed(3, "Game") < 6);
    assert_eq!(palette_seed(0, "a"), 0xe40c292c % 6);
}

#[test]
fn titles_and_ranks() {
    assert_eq!(notice_title(StatusKind::Success), "Success");
    assert_eq!(notice_title(StatusKind::Info), "Info");
    assert_eq!(page_rank(Page::Home), 0);
    assert_eq!(page_rank(Page::Account), 2);
    assert_eq!(launch_error("Run tool", "not found"), "Run tool (not found)");
}

#[test]
fn page_changes_record_direction() {
    let mut l = loader();
    l.set_page(Page::Account, 10);
    assert!(l.page_forward);
    assert_eq!(l.page_changed_at_ms, 10);
    l.set_page(Page::Detail, 20);
    assert!(!l.page_forward);
    l.set_page(Page::Detail, 30);
    assert_eq!(l.page_changed_at_ms, 20);
}

#[test]
fn loader_flow_and_launch() {
    let mut l = loader();
    l.username = "u".to_owned();
    l.password = "p".to_owned();
    let call = l.start_login(1).unwrap();
    assert_eq!(call.call, Call::Login);
    let next = l.handle_message(AppMessage::Login(Ok(LoginResponse { token: "t".to_owned() })), 2).unwrap();
    assert_eq!(next.call, Call::Me);
    assert_eq!(l.busy_label.as_deref(), Some("Syncing account..."));

    let list = RentalsResponse { rentals: vec![rental("Warface", "ACTIVE"), rental("Other", "EXPIRED")] };
    assert!(l.handle_message(AppMessage::Rentals(Ok(list)), 3).is_none());
    assert_eq!(l.selected, Some(0));
    assert_eq!(l.status, "Games loaded.");

    let plan = l.begin_launch(4).unwrap();
    assert_eq!(plan.product_name, "Warface");
    assert_eq!(plan.steps.len(), 2);
    l.finish_launch(&plan.product_name, Ok(2), 5);
    assert_eq!(l.status, "Launched 2 step(s): Warface");
    l.finish_launch("X", Err("Run (boom)".to_owned()), 6);
    assert_eq!(l.status, "Launch failed: Run (boom)");
    assert_eq!(l.status_kind, StatusKind::Error);

    l.selected = Some(1);
    assert!(l.begin_launch(7).is_none());
    assert_eq!(l.status, "Access denied.");
    l.selected = Some(9);
    assert!(l.begin_launch(8).is_none());
    assert_eq!(l.toasts.last().unwrap().text, "Select a game first.");
}

#[test]
fn loader_logout_error_is_local() {
    let mut l = loader();
    l.token = Some("t".to_owned());
    l.set_page(Page::Account, 1);
    assert_eq!(l.start_logout(2).unwrap().call, Call::Logout);
    l.handle_message(AppMessage::Logout(Err(ApiError::new("gone".to_owned()))), 3);
    assert!(l.token.is_none());
    assert_eq!(l.page, Page::Home);
    assert_eq!(l.status, "Logged out locally: gone");
    assert_eq!(l.toasts.last().unwrap().text, "Logged out locally.");
}

#[test]
fn home_rows_pair_then_wide() {
    assert!(home_rows(0).is_empty());
    assert_eq!(home_rows(1), vec![HomeRow::Wide(0)]);
    assert_eq!(home_rows(2), vec![HomeRow::Pair(0)]);
    assert_eq!(home_rows(4), vec![HomeRow::Pair(0), HomeRow::Wide(2), HomeRow::Wide(3)]);
    assert_eq!(home_rows(5), vec![HomeRow::Pair(0), HomeRow::Wide(2), HomeRow::Pair(3)]);
    assert_eq!(
        home_rows(7),
        vec![HomeRow::Pair(0), HomeRow::Wide(2), HomeRow::Pair(3), HomeRow::Wide(5), HomeRow::Wide(6)]
    );
}

#[test]
fn opening_a_card_selects_it_and_shows_detail() {
    let mut s = loader();
    s.rentals = vec![rental("A", "ACTIVE"), rental("B", "ACTIVE")];
    s.open_card(1, 500);
    assert_eq!(s.selected, Some(1));
    assert_eq!(s.page, Page::Detail);
    assert!(s.page_forward);
    assert_eq!(s.page_changed_at_ms, 500);
}

fn plan() -> LaunchPlan {
    LaunchPlan {
        product_name: "Warface".to_owned(),
        steps: vec![
            LaunchStep { label: "Run game loader", command: "a.exe", args: vec![] },
            LaunchStep { label: "Start companion", command: "b.exe", args: vec!["--silent"] },
        ],
    }
}

#[test]
fn launch_outcomes() {
    assert_eq!(launch_outcome(&plan(), None), Ok(2));
    assert_eq!(
        launch_outcome(&plan(), Some((1, "not found".to_owned()))),
        Err("Start companion (not found)".to_owned())
    );
}

#[test]
fn detail_rows_of_a_rental() {
    let mut r = rental("Warface", "ACTIVE");
    r.started_at = "2024-01-02T03:04Z".to_owned();
    r.updated_at = " ".to_owned();
    let rows: Vec<(&str, String)> = detail_rows(&r).into_iter().map(|d| (d.key, d.value)).collect();
    assert_eq!(
        rows,
        vec![
            ("Product", "Online".to_owned()),
            ("Status", "AVAILABLE".to_owned()),
            ("Started", "2024-01-02 03:04".to_owned()),
            ("Updated", "-".to_owned()),
            ("Expires", "-".to_owned()),
        ]
    );
    r.is_permanent = true;
    r.remaining_seconds = Some(3_660);
    let rows = detail_rows(&r);
    assert_eq!(rows.len(), 6);
    assert_eq!(rows[4].value, "Permanent");
    assert_eq!(rows[5].key, "Remaining");
    assert_eq!(rows[5].value, short_remaining(3_660));
}

fn short_remaining(seconds: i64) -> String {
    nova_loader::session::remaining_text(seconds)
}

#[test]
fn step_lines_list_labels_or_a_notice() {
    assert_eq!(step_lines(&default_profile()), vec!["No command configured"]);
    assert_eq!(step_lines(&profile_for("Warface")), vec!["Run game loader", "Start companion"]);
}
