//! The state of the login window: credentials, the session behind a token,
//! the program list and its selection, the status line and the toasts.
//!
//! Each user action and each answer of the API is a transition of
//! [`Session`]; a transition that needs the API returns the call to make,
//! and the caller hands the answer back as an [`AppMessage`].
use vstd::prelude::*;

use crate::api::{endpoint, ApiError, ApiRequest, HttpMethod, LOGIN_PATH, LOGOUT_PATH, ME_PATH, RENTALS_PATH};
use crate::config::{api_base_url_for, AppConfig};
use crate::models::{LoginRequest, LoginResponse, MeResponse, Rental, RentalsResponse, UserInfo};
use crate::text::{
    chars_of, decimal, push_decimal, push_str, str_equal, trim, trim_chars, trim_str,
};

verus! {

// ---------------------------------------------------------------------------
// Rentals
// ---------------------------------------------------------------------------

/// The kind of a status message or toast.
#[derive(Debug, Clone, Copy, PartialEq, Eq, Structural)]
pub enum StatusKind {
    Info,
    Success,
    Warning,
    Error,
}

pub const RENTAL_ACTIVE: &'static str = "ACTIVE";

pub const RENTAL_PERMANENT: &'static str = "PERMANENT";

pub const RENTAL_EXPIRED: &'static str = "EXPIRED";

pub const PRODUCT_AVAILABLE: &'static str = "AVAILABLE";

/// The rental may be launched: it is active or permanent, and its product is
/// available.
pub open spec fn launchable(r: Rental) -> bool {
    (r.rental_status@ == RENTAL_ACTIVE@ || r.rental_status@ == RENTAL_PERMANENT@)
        && r.product_status@ == PRODUCT_AVAILABLE@
}

/// The kind shown for a rental's status.
pub open spec fn rental_status_kind(r: Rental) -> StatusKind {
    if r.rental_status@ == RENTAL_ACTIVE@ || r.rental_status@ == RENTAL_PERMANENT@ {
        StatusKind::Success
    } else if r.rental_status@ == RENTAL_EXPIRED@ {
        StatusKind::Error
    } else {
        StatusKind::Warning
    }
}

/// Whether the rental may be launched.
pub fn is_launchable(rental: &Rental) -> (r: bool)
    ensures
        r == launchable(*rental),
{
    (str_equal(rental.rental_status.as_str(), RENTAL_ACTIVE) || str_equal(
        rental.rental_status.as_str(),
        RENTAL_PERMANENT,
    )) && str_equal(rental.product_status.as_str(), PRODUCT_AVAILABLE)
}

/// The kind shown for the rental's status: success when active or
/// permanent, error when expired, warning otherwise.
pub fn status_kind_for_rental(rental: &Rental) -> (r: StatusKind)
    ensures
        r == rental_status_kind(*rental),
{
    let s = rental.rental_status.as_str();
    if str_equal(s, RENTAL_ACTIVE) || str_equal(s, RENTAL_PERMANENT) {
        StatusKind::Success
    } else if str_equal(s, RENTAL_EXPIRED) {
        StatusKind::Error
    } else {
        StatusKind::Warning
    }
}

pub const EXPIRED_TEXT: &'static str = "Expired";

/// The time left on a rental, in days and hours, hours and minutes, or
/// minutes, rounded down; "Expired" when none is left.
pub open spec fn remaining_text_spec(seconds: int) -> Seq<char> {
    if seconds <= 0 {
        EXPIRED_TEXT@
    } else {
        let days = seconds / 86400;
        let hours = (seconds % 86400) / 3600;
        let minutes = (seconds % 3600) / 60;
        if days > 0 {
            decimal(days as nat) + seq!['d', ' '] + decimal(hours as nat) + seq![
                'h',
                ' ',
                'l',
                'e',
                'f',
                't',
            ]
        } else if hours > 0 {
            decimal(hours as nat) + seq!['h', ' '] + decimal(minutes as nat) + seq![
                'm',
                ' ',
                'l',
                'e',
                'f',
                't',
            ]
        } else {
            decimal(minutes as nat) + seq!['m', ' ', 'l', 'e', 'f', 't']
        }
    }
}

/// The time left on a rental with `seconds` remaining.
pub fn remaining_text(seconds: i64) -> (r: String)
    ensures
        r@ == remaining_text_spec(seconds as int),
{
    if seconds <= 0 {
        return EXPIRED_TEXT.to_owned();
    }
    let days = seconds / 86_400;
    let hours = (seconds % 86_400) / 3_600;
    let minutes = (seconds % 3_600) / 60;
    let mut r = String::new();
    if days > 0 {
        push_decimal(&mut r, days as u64);
        push_str(&mut r, "d ");
        push_decimal(&mut r, hours as u64);
        push_str(&mut r, "h left");
        proof {
            reveal_strlit("d ");
            reveal_strlit("h left");
        }
    } else if hours > 0 {
        push_decimal(&mut r, hours as u64);
        push_str(&mut r, "h ");
        push_decimal(&mut r, minutes as u64);
        push_str(&mut r, "m left");
        proof {
            reveal_strlit("h ");
            reveal_strlit("m left");
        }
    } else {
        push_decimal(&mut r, minutes as u64);
        push_str(&mut r, "m left");
        proof {
            reveal_strlit("m left");
        }
    }
    r
}

/// The order in which `count` toasts are shown, at most `limit` of them:
/// their positions, newest first.
pub open spec fn toast_display_order_spec(count: nat, limit: nat) -> Seq<int> {
    Seq::new(
        if count < limit {
            count
        } else {
            limit
        },
        |k: int| count - 1 - k,
    )
}

/// The positions of the toasts to show, newest first, at most `limit` of
/// them, out of `count`.
pub fn toast_display_order(count: usize, limit: usize) -> (r: Vec<usize>)
    ensures
        r@.map_values(|i: usize| i as int) == toast_display_order_spec(count as nat, limit as nat),
{
    let n: usize = if count < limit {
        count
    } else {
        limit
    };
    let mut r: Vec<usize> = Vec::new();
    let mut k: usize = 0;
    while k < n
        invariant
            k <= n <= count,
            n == (if count < limit { count } else { limit }),
            r@.len() == k,
            forall|j: int| 0 <= j < k ==> #[trigger] r@[j] == count - 1 - j,
        decreases n - k,
    {
        r.push(count - 1 - k);
        k += 1;
    }
    assert(r@.map_values(|i: usize| i as int) =~= toast_display_order_spec(
        count as nat,
        limit as nat,
    ));
    r
}

/// The label of a toast of kind `kind`.
pub open spec fn toast_label_spec(kind: StatusKind) -> Seq<char> {
    match kind {
        StatusKind::Info => "INFO"@,
        StatusKind::Success => "OK"@,
        StatusKind::Warning => "WARN"@,
        StatusKind::Error => "ERR"@,
    }
}

/// The label of a toast of kind `kind`.
pub fn toast_label(kind: StatusKind) -> (r: &'static str)
    ensures
        r@ == toast_label_spec(kind),
{
    match kind {
        StatusKind::Info => "INFO",
        StatusKind::Success => "OK",
        StatusKind::Warning => "WARN",
        StatusKind::Error => "ERR",
    }
}

// ---------------------------------------------------------------------------
// Selection
// ---------------------------------------------------------------------------

/// The position of the first rental of the product `id`.
pub open spec fn find_product(rentals: Seq<Rental>, id: Seq<char>) -> Option<int>
    decreases rentals.len(),
{
    if rentals.len() == 0 {
        None
    } else if rentals[0].product_id@ == id {
        Some(0)
    } else {
        match find_product(rentals.drop_first(), id) {
            Some(i) => Some(i + 1),
            None => None,
        }
    }
}

/// The position of the first launchable rental.
pub open spec fn first_launchable(rentals: Seq<Rental>) -> Option<int>
    decreases rentals.len(),
{
    if rentals.len() == 0 {
        None
    } else if launchable(rentals[0]) {
        Some(0)
    } else {
        match first_launchable(rentals.drop_first()) {
            Some(i) => Some(i + 1),
            None => None,
        }
    }
}

/// The selected product after the program list is `rentals`: the current
/// selection while a rental of it is listed, else the first launchable
/// rental, else the first rental, else nothing.
pub open spec fn selection_for(rentals: Seq<Rental>, selected: Option<Seq<char>>) -> Option<
    Seq<char>,
> {
    if selected matches Some(id) && find_product(rentals, id) is Some {
        selected
    } else {
        match first_launchable(rentals) {
            Some(i) => Some(rentals[i].product_id@),
            None => if rentals.len() > 0 {
                Some(rentals[0].product_id@)
            } else {
                None
            },
        }
    }
}

proof fn lemma_find_product_range(rentals: Seq<Rental>, id: Seq<char>)
    ensures
        find_product(rentals, id) matches Some(i) ==> 0 <= i < rentals.len()
            && rentals[i].product_id@ == id && forall|k: int|
            0 <= k < i ==> #[trigger] rentals[k].product_id@ != id,
        find_product(rentals, id) is None ==> forall|k: int|
            0 <= k < rentals.len() ==> #[trigger] rentals[k].product_id@ != id,
    decreases rentals.len(),
{
    if rentals.len() > 0 {
        lemma_find_product_range(rentals.drop_first(), id);
        assert forall|k: int| 1 <= k < rentals.len() implies rentals[k] == rentals.drop_first()[k
            - 1] by {}
    }
}

proof fn lemma_first_launchable_range(rentals: Seq<Rental>)
    ensures
        first_launchable(rentals) matches Some(i) ==> 0 <= i < rentals.len() && launchable(
            rentals[i],
        ) && forall|k: int| 0 <= k < i ==> !launchable(#[trigger] rentals[k]),
        first_launchable(rentals) is None ==> forall|k: int|
            0 <= k < rentals.len() ==> !launchable(#[trigger] rentals[k]),
    decreases rentals.len(),
{
    if rentals.len() > 0 {
        lemma_first_launchable_range(rentals.drop_first());
        assert forall|k: int| 1 <= k < rentals.len() implies rentals[k] == rentals.drop_first()[k
            - 1] by {}
    }
}

fn find_product_exec(rentals: &Vec<Rental>, id: &str) -> (r: Option<usize>)
    ensures
        r matches Some(i) ==> find_product(rentals@, id@) == Some(i as int) && i < rentals@.len(),
        r is None ==> find_product(rentals@, id@) is None,
{
    let mut i: usize = 0;
    assert(rentals@.subrange(0, rentals@.len() as int) =~= rentals@);
    while i < rentals.len()
        invariant
            0 <= i <= rentals.len(),
            forall|k: int| 0 <= k < i ==> #[trigger] rentals@[k].product_id@ != id@,
        decreases rentals.len() - i,
    {
        if str_equal(rentals[i].product_id.as_str(), id) {
            proof {
                lemma_find_product_range(rentals@, id@);
                assert(find_product(rentals@, id@) == Some(i as int));
            }
            return Some(i);
        }
        i += 1;
    }
    proof {
        lemma_find_product_range(rentals@, id@);
    }
    None
}

fn first_launchable_exec(rentals: &Vec<Rental>) -> (r: Option<usize>)
    ensures
        r matches Some(i) ==> first_launchable(rentals@) == Some(i as int) && i < rentals@.len(),
        r is None ==> first_launchable(rentals@) is None,
{
    let mut i: usize = 0;
    while i < rentals.len()
        invariant
            0 <= i <= rentals.len(),
            forall|k: int| 0 <= k < i ==> !launchable(#[trigger] rentals@[k]),
        decreases rentals.len() - i,
    {
        if is_launchable(&rentals[i]) {
            proof {
                lemma_first_launchable_range(rentals@);
                assert(first_launchable(rentals@) == Some(i as int));
            }
            return Some(i);
        }
        i += 1;
    }
    proof {
        lemma_first_launchable_range(rentals@);
    }
    None
}

// ---------------------------------------------------------------------------
// Session state
// ---------------------------------------------------------------------------

/// How long a toast is shown, in milliseconds.
pub const TOAST_TTL_MS: u64 = 4000;

/// The most toasts kept at once.
pub const MAX_TOASTS: usize = 5;

/// A status line.
#[derive(Debug)]
pub struct StatusMessage {
    pub text: String,
    pub kind: StatusKind,
}

/// A notification shown for a while, stamped with the clock (in
/// milliseconds) at which it was made.
#[derive(Debug)]
pub struct Toast {
    pub text: String,
    pub kind: StatusKind,
    pub created_at_ms: u64,
    pub ttl_ms: u64,
}

/// A toast as text.
pub struct ToastView {
    pub text: Seq<char>,
    pub kind: StatusKind,
    pub created_at_ms: u64,
    pub ttl_ms: u64,
}

impl View for Toast {
    type V = ToastView;

    open spec fn view(&self) -> ToastView {
        ToastView {
            text: self.text@,
            kind: self.kind,
            created_at_ms: self.created_at_ms,
            ttl_ms: self.ttl_ms,
        }
    }
}

/// The state of the login window.
#[derive(Debug)]
pub struct Session {
    pub config: AppConfig,
    pub username: String,
    pub password: String,
    pub hwid: String,
    pub token: Option<String>,
    pub user: Option<UserInfo>,
    pub expires_at: Option<String>,
    pub hwid_locked: Option<bool>,
    pub rentals: Vec<Rental>,
    pub selected_product_id: Option<String>,
    pub busy_label: Option<String>,
    pub status: StatusMessage,
    pub toasts: Vec<Toast>,
}

/// The session as text and values.
pub struct SessionView {
    pub host: Seq<char>,
    pub username: Seq<char>,
    pub password: Seq<char>,
    pub hwid: Seq<char>,
    pub token: Option<Seq<char>>,
    pub user: Option<UserInfo>,
    pub expires_at: Option<Seq<char>>,
    pub hwid_locked: Option<bool>,
    pub rentals: Seq<Rental>,
    pub selected_product_id: Option<Seq<char>>,
    pub busy_label: Option<Seq<char>>,
    pub status_text: Seq<char>,
    pub status_kind: StatusKind,
    pub toasts: Seq<ToastView>,
}

/// The view of an optional string.
pub open spec fn opt_text(o: Option<String>) -> Option<Seq<char>> {
    match o {
        Some(s) => Some(s@),
        None => None,
    }
}

impl View for Session {
    type V = SessionView;

    open spec fn view(&self) -> SessionView {
        SessionView {
            host: self.config.host@,
            username: self.username@,
            password: self.password@,
            hwid: self.hwid@,
            token: opt_text(self.token),
            user: self.user,
            expires_at: opt_text(self.expires_at),
            hwid_locked: self.hwid_locked,
            rentals: self.rentals@,
            selected_product_id: opt_text(self.selected_product_id),
            busy_label: opt_text(self.busy_label),
            status_text: self.status.text@,
            status_kind: self.status.kind,
            toasts: self.toasts@.map_values(|t: Toast| t@),
        }
    }
}

/// The answer of one call to the API.
#[derive(Debug)]
pub enum AppMessage {
    Login(Result<LoginResponse, ApiError>),
    Me(Result<MeResponse, ApiError>),
    Rentals(Result<RentalsResponse, ApiError>),
    Logout(Result<(), ApiError>),
}

/// Which API call a request is.
#[derive(Debug, Clone, Copy, PartialEq, Eq, Structural)]
pub enum Call {
    Login,
    Me,
    Rentals,
    Logout,
}

/// A call the caller must make, whose answer comes back as the
/// [`AppMessage`] variant of the same name.
#[derive(Debug)]
pub struct PendingCall {
    pub call: Call,
    pub request: ApiRequest,
}

// --- texts -----------------------------------------------------------------

pub const READY: &'static str = "Ready.";

pub const LOGIN_SUCCESS_STATUS: &'static str = "Login success. Syncing account...";

pub const LOGIN_SUCCESS_TOAST: &'static str = "Login success.";

pub const ACCOUNT_SYNCED: &'static str = "Account synced.";

pub const PROGRAM_LIST_UPDATED: &'static str = "Program list updated.";

pub const LOGGED_OUT: &'static str = "Logged out.";

pub const LOGIN_FAILED: &'static str = "Login failed";

pub const ACCOUNT_CHECK_FAILED: &'static str = "Account check failed";

pub const PROGRAM_LOADING_FAILED: &'static str = "Program loading failed";

pub const SERVER_LOGOUT_FAILED: &'static str = "Logged out locally. Server logout failed";

pub const ENTER_CREDENTIALS: &'static str = "Enter username and password.";

pub const LOGGING_IN: &'static str = "Logging in...";

pub const SENDING_LOGIN: &'static str = "Sending login request...";

pub const PLEASE_LOGIN: &'static str = "Please login first.";

pub const SYNCING_ACCOUNT: &'static str = "Syncing account...";

pub const CALLING_ME: &'static str = "Calling /me...";

pub const LOADING_PROGRAMS: &'static str = "Loading programs...";

pub const CALLING_RENTALS: &'static str = "Calling /rentals...";

pub const LOGGING_OUT: &'static str = "Logging out...";

pub const REVOKING_TOKEN: &'static str = "Revoking token...";

pub const SELECT_PROGRAM_FIRST: &'static str = "Select a program first.";

pub const ACCESS_VERIFIED: &'static str = "Access verified: ";

pub const ACCESS_DENIED: &'static str = "Access denied: ";

pub const LOADED_PREFIX: &'static str = "Loaded ";

pub const LOADED_SUFFIX: &'static str = " program(s).";

/// ` (status)` when the error has a status, else nothing.
pub open spec fn status_suffix(status: Option<u16>) -> Seq<char> {
    match status {
        Some(s) => seq![' ', '('] + decimal(s as nat) + seq![')'],
        None => Seq::empty(),
    }
}

/// The text shown for an API error: the prefix, the status in parentheses
/// when there is one, a colon and the error's message.
pub open spec fn error_text(prefix: Seq<char>, status: Option<u16>, message: Seq<char>) -> Seq<
    char,
> {
    prefix + status_suffix(status) + seq![':', ' '] + message
}

/// The text for a program list of `count` entries.
pub open spec fn loaded_text(count: nat) -> Seq<char> {
    LOADED_PREFIX@ + decimal(count) + LOADED_SUFFIX@
}

// --- transitions -----------------------------------------------------------

/// `toasts` with `t` added, dropping the oldest beyond [`MAX_TOASTS`].
pub open spec fn pushed_toasts(toasts: Seq<ToastView>, t: ToastView) -> Seq<ToastView> {
    let p = toasts.push(t);
    if p.len() > MAX_TOASTS {
        p.subrange(1, p.len() as int)
    } else {
        p
    }
}

/// The account forgotten: no token, user, session, programs, selection or
/// pending work.
pub open spec fn cleared(s: SessionView) -> SessionView {
    SessionView {
        token: None,
        user: None,
        expires_at: None,
        hwid_locked: None,
        rentals: Seq::empty(),
        selected_product_id: None,
        busy_label: None,
        ..s
    }
}

/// The status line set.
pub open spec fn with_status(s: SessionView, text: Seq<char>, kind: StatusKind) -> SessionView {
    SessionView { status_text: text, status_kind: kind, ..s }
}

/// A toast added at time `now`.
pub open spec fn with_toast(s: SessionView, text: Seq<char>, kind: StatusKind, now: u64) -> SessionView {
    SessionView {
        toasts: pushed_toasts(
            s.toasts,
            ToastView { text, kind, created_at_ms: now, ttl_ms: TOAST_TTL_MS },
        ),
        ..s
    }
}

/// The status line set and the same text shown as a toast.
pub open spec fn notify(s: SessionView, text: Seq<char>, kind: StatusKind, now: u64) -> SessionView {
    with_toast(with_status(s, text, kind), text, kind, now)
}

/// Work under way, with a label.
pub open spec fn with_busy(s: SessionView, label: Seq<char>) -> SessionView {
    SessionView { busy_label: Some(label), ..s }
}

/// The login form may be sent: nothing is under way, the user name is not
/// blank and the password is not empty.
pub open spec fn can_submit(s: SessionView) -> bool {
    s.busy_label is None && trim(s.username).len() > 0 && s.password.len() > 0
}

/// The session after the user asks to log in.
pub open spec fn after_start_login(s: SessionView, now: u64) -> SessionView {
    if can_submit(s) {
        with_status(with_busy(cleared(s), LOGGING_IN@), SENDING_LOGIN@, StatusKind::Info)
    } else {
        notify(s, ENTER_CREDENTIALS@, StatusKind::Warning, now)
    }
}

/// The session after the account is asked for.
pub open spec fn after_start_me(s: SessionView) -> SessionView {
    match s.token {
        None => with_status(s, PLEASE_LOGIN@, StatusKind::Warning),
        Some(_) => with_status(with_busy(s, SYNCING_ACCOUNT@), CALLING_ME@, StatusKind::Info),
    }
}

/// The session after the program list is asked for.
pub open spec fn after_start_rentals(s: SessionView) -> SessionView {
    match s.token {
        None => with_status(s, PLEASE_LOGIN@, StatusKind::Warning),
        Some(_) => with_status(
            with_busy(s, LOADING_PROGRAMS@),
            CALLING_RENTALS@,
            StatusKind::Info,
        ),
    }
}

/// The session after the user asks to log out.
pub open spec fn after_start_logout(s: SessionView) -> SessionView {
    match s.token {
        None => with_status(cleared(s), LOGGED_OUT@, StatusKind::Info),
        Some(_) => with_status(with_busy(s, LOGGING_OUT@), REVOKING_TOKEN@, StatusKind::Info),
    }
}

/// The selection brought in line with the program list.
pub open spec fn with_selection(s: SessionView) -> SessionView {
    SessionView { selected_product_id: selection_for(s.rentals, s.selected_product_id), ..s }
}

/// The session after the answer `m` arrives at time `now`.
pub open spec fn after_message(s: SessionView, m: AppMessage, now: u64) -> SessionView {
    let s0 = SessionView { busy_label: None, ..s };
    match m {
        AppMessage::Login(Ok(resp)) => after_start_me(
            with_toast(
                with_status(
                    SessionView { token: Some(resp.token@), password: Seq::empty(), ..s0 },
                    LOGIN_SUCCESS_STATUS@,
                    StatusKind::Success,
                ),
                LOGIN_SUCCESS_TOAST@,
                StatusKind::Success,
                now,
            ),
        ),
        AppMessage::Login(Err(e)) => notify(
            cleared(s0),
            error_text(LOGIN_FAILED@, e.status, e.message@),
            StatusKind::Error,
            now,
        ),
        AppMessage::Me(Ok(resp)) => after_start_rentals(
            with_status(
                SessionView {
                    user: Some(resp.user),
                    expires_at: Some(resp.session.expires_at@),
                    hwid_locked: Some(resp.session.hwid_locked),
                    ..s0
                },
                ACCOUNT_SYNCED@,
                StatusKind::Success,
            ),
        ),
        AppMessage::Me(Err(e)) => notify(
            cleared(s0),
            error_text(ACCOUNT_CHECK_FAILED@, e.status, e.message@),
            StatusKind::Error,
            now,
        ),
        AppMessage::Rentals(Ok(resp)) => with_toast(
            with_status(
                with_selection(SessionView { rentals: resp.rentals@, ..s0 }),
                loaded_text(resp.rentals@.len()),
                StatusKind::Success,
            ),
            PROGRAM_LIST_UPDATED@,
            StatusKind::Success,
            now,
        ),
        AppMessage::Rentals(Err(e)) => notify(
            if e.status == Some(401u16) {
                cleared(s0)
            } else {
                s0
            },
            error_text(PROGRAM_LOADING_FAILED@, e.status, e.message@),
            StatusKind::Error,
            now,
        ),
        AppMessage::Logout(Ok(())) => notify(cleared(s0), LOGGED_OUT@, StatusKind::Info, now),
        AppMessage::Logout(Err(e)) => notify(
            cleared(s0),
            error_text(SERVER_LOGOUT_FAILED@, e.status, e.message@),
            StatusKind::Warning,
            now,
        ),
    }
}

/// The rental of the selected product, if it is listed.
pub open spec fn selected_rental_spec(s: SessionView) -> Option<Rental> {
    match s.selected_product_id {
        None => None,
        Some(id) => match find_product(s.rentals, id) {
            Some(i) => Some(s.rentals[i]),
            None => None,
        },
    }
}

/// The session after the user asks to launch the selected program.
pub open spec fn after_launch(s: SessionView, now: u64) -> SessionView {
    match selected_rental_spec(s) {
        None => notify(s, SELECT_PROGRAM_FIRST@, StatusKind::Warning, now),
        Some(r) => if launchable(r) {
            notify(s, ACCESS_VERIFIED@ + r.product_name@, StatusKind::Success, now)
        } else {
            notify(s, ACCESS_DENIED@ + r.product_name@, StatusKind::Warning, now)
        },
    }
}

/// The toast is still shown at time `now`.
pub open spec fn toast_alive(t: ToastView, now: u64) -> bool {
    (if now >= t.created_at_ms {
        now - t.created_at_ms
    } else {
        0
    }) < t.ttl_ms
}

/// The toasts still shown at time `now`, in order.
pub open spec fn alive_toasts(toasts: Seq<ToastView>, now: u64) -> Seq<ToastView>
    decreases toasts.len(),
{
    if toasts.len() == 0 {
        Seq::empty()
    } else {
        let rest = alive_toasts(toasts.drop_last(), now);
        if toast_alive(toasts.last(), now) {
            rest.push(toasts.last())
        } else {
            rest
        }
    }
}

/// The request a call makes from the session `s`.
pub open spec fn request_of(p: PendingCall, s: SessionView) -> bool {
    let base = api_base_url_for(s.host);
    match p.call {
        Call::Login => {
            &&& p.request.method == HttpMethod::Post
            &&& p.request.url@ == endpoint(base, LOGIN_PATH@)
            &&& p.request.bearer_token is None
            &&& p.request.login_body matches Some(b) && b.user@ == trim(s.username) && b.password@
                == s.password && b.hwid@ == s.hwid
        },
        _ => {
            &&& p.request.method == (if p.call == Call::Me || p.call == Call::Rentals {
                HttpMethod::Get
            } else {
                HttpMethod::Post
            })
            &&& p.request.url@ == endpoint(
                base,
                if p.call == Call::Me {
                    ME_PATH@
                } else if p.call == Call::Rentals {
                    RENTALS_PATH@
                } else {
                    LOGOUT_PATH@
                },
            )
            &&& p.request.login_body is None
            &&& p.request.bearer_token matches Some(t) && s.token == Some(t@)
        },
    }
}

/// The call that follows the answer `m`: the account after a login, the
/// program list after the account, nothing otherwise.
pub open spec fn follow_up(m: AppMessage) -> Option<Call> {
    match m {
        AppMessage::Login(Ok(_)) => Some(Call::Me),
        AppMessage::Me(Ok(_)) => Some(Call::Rentals),
        _ => None,
    }
}

impl Session {
    /// At most [`MAX_TOASTS`] toasts are kept.
    pub open spec fn wf(&self) -> bool {
        self.toasts@.len() <= MAX_TOASTS
    }

    /// A fresh window for `config` on the machine `hwid`: no credentials, no
    /// account, status "Ready.".
    pub fn new(config: AppConfig, hwid: String) -> (r: Self)
        ensures
            r.wf(),
            r@.host == config.host@,
            r@.hwid == hwid@,
            r@.username.len() == 0,
            r@.password.len() == 0,
            r@.token is None,
            r@.user is None,
            r@.expires_at is None,
            r@.hwid_locked is None,
            r@.rentals.len() == 0,
            r@.selected_product_id is None,
            r@.busy_label is None,
            r@.status_text == READY@,
            r@.status_kind == StatusKind::Info,
            r@.toasts.len() == 0,
    {
        let r = Session {
            config,
            username: String::new(),
            password: String::new(),
            hwid,
            token: None,
            user: None,
            expires_at: None,
            hwid_locked: None,
            rentals: Vec::new(),
            selected_product_id: None,
            busy_label: None,
            status: StatusMessage { text: READY.to_owned(), kind: StatusKind::Info },
            toasts: Vec::new(),
        };
        assert(r@.toasts =~= Seq::<ToastView>::empty());
        r
    }

    /// Whether work is under way.
    pub fn is_busy(&self) -> (r: bool)
        ensures
            r == self@.busy_label is Some,
    {
        self.busy_label.is_some()
    }

    /// Sets the status line.
    pub fn set_status(&mut self, text: String, kind: StatusKind)
        requires
            old(self).wf(),
        ensures
            final(self).wf(),
            final(self)@ == with_status(old(self)@, text@, kind),
    {
        self.status = StatusMessage { text, kind };
    }

    /// Adds a toast made at time `now`, dropping the oldest beyond
    /// [`MAX_TOASTS`].
    pub fn push_toast(&mut self, text: String, kind: StatusKind, now: u64)
        requires
            old(self).wf(),
        ensures
            final(self).wf(),
            final(self)@ == with_toast(old(self)@, text@, kind, now),
    {
        let ghost before = self.toasts@;
        self.toasts.push(Toast { text, kind, created_at_ms: now, ttl_ms: TOAST_TTL_MS });
        let ghost pushed = self.toasts@;
        assert(pushed.map_values(|t: Toast| t@) =~= before.map_values(|t: Toast| t@).push(
            pushed.last()@,
        ));
        if self.toasts.len() > MAX_TOASTS {
            self.toasts.remove(0);
            assert(self.toasts@.map_values(|t: Toast| t@) =~= pushed.map_values(|t: Toast| t@).subrange(
                1,
                pushed.len() as int,
            ));
        }
    }

    fn notify(&mut self, text: String, kind: StatusKind, now: u64)
        requires
            old(self).wf(),
        ensures
            final(self).wf(),
            final(self)@ == notify(old(self)@, text@, kind, now),
    {
        let copy = text.clone();
        self.set_status(text, kind);
        self.push_toast(copy, kind, now);
    }

    /// Forgets the account: token, user, session, programs, selection and
    /// pending work.
    pub fn clear_account(&mut self)
        requires
            old(self).wf(),
        ensures
            final(self).wf(),
            final(self)@ == cleared(old(self)@),
    {
        self.token = None;
        self.user = None;
        self.expires_at = None;
        self.hwid_locked = None;
        self.rentals.clear();
        self.selected_product_id = None;
        self.busy_label = None;
    }

    /// Whether the login form may be sent.
    pub fn can_submit_login(&self) -> (r: bool)
        ensures
            r == can_submit(self@),
    {
        let user = chars_of(self.username.as_str());
        let trimmed = trim_chars(&user);
        !self.is_busy() && trimmed.len() > 0 && !self.password.as_str().is_empty()
    }

    /// Shows an API error on the status line and as a toast.
    pub fn set_api_error(&mut self, prefix: &str, error: ApiError, now: u64)
        requires
            old(self).wf(),
        ensures
            final(self).wf(),
            final(self)@ == notify(
                old(self)@,
                error_text(prefix@, error.status, error.message@),
                StatusKind::Error,
                now,
            ),
    {
        let text = error_text_exec(prefix, &error);
        self.notify(text, StatusKind::Error, now);
    }

    /// Shows that the server refused to log out, though the account is
    /// forgotten here.
    pub fn set_logout_warning(&mut self, error: ApiError, now: u64)
        requires
            old(self).wf(),
        ensures
            final(self).wf(),
            final(self)@ == notify(
                old(self)@,
                error_text(SERVER_LOGOUT_FAILED@, error.status, error.message@),
                StatusKind::Warning,
                now,
            ),
    {
        let text = error_text_exec(SERVER_LOGOUT_FAILED, &error);
        self.notify(text, StatusKind::Warning, now);
    }

    fn pending(&self, call: Call) -> (r: PendingCall)
        requires
            call != Call::Login ==> self.token is Some,
        ensures
            r.call == call,
            request_of(r, self@),
    {
        let base = self.config.api_base_url();
        let request = match call {
            Call::Login => {
                let user = trim_str(self.username.as_str());
                crate::api::login(
                    base.as_str(),
                    LoginRequest { user, password: self.password.clone(), hwid: self.hwid.clone() },
                )
            },
            Call::Me => crate::api::me(base.as_str(), self.token.as_ref().unwrap().as_str()),
            Call::Rentals => crate::api::rentals(
                base.as_str(),
                self.token.as_ref().unwrap().as_str(),
            ),
            Call::Logout => crate::api::logout(
                base.as_str(),
                self.token.as_ref().unwrap().as_str(),
            ),
        };
        PendingCall { call, request }
    }

    /// The user asks to log in at time `now`: the login call when the form
    /// may be sent, else a warning.
    pub fn start_login_request(&mut self, now: u64) -> (r: Option<PendingCall>)
        requires
            old(self).wf(),
        ensures
            final(self).wf(),
            final(self)@ == after_start_login(old(self)@, now),
            r is Some == can_submit(old(self)@),
            r matches Some(p) ==> p.call == Call::Login && request_of(p, old(self)@),
    {
        if !self.can_submit_login() {
            self.notify(ENTER_CREDENTIALS.to_owned(), StatusKind::Warning, now);
            return None;
        }
        let call = self.pending(Call::Login);
        self.clear_account();
        self.busy_label = Some(LOGGING_IN.to_owned());
        self.set_status(SENDING_LOGIN.to_owned(), StatusKind::Info);
        Some(call)
    }

    /// The account is asked for: the account call when there is a token,
    /// else a warning.
    pub fn start_me_request(&mut self) -> (r: Option<PendingCall>)
        requires
            old(self).wf(),
        ensures
            final(self).wf(),
            final(self)@ == after_start_me(old(self)@),
            r is Some == old(self)@.token is Some,
            r matches Some(p) ==> p.call == Call::Me && request_of(p, old(self)@),
    {
        if self.token.is_none() {
            self.set_status(PLEASE_LOGIN.to_owned(), StatusKind::Warning);
            return None;
        }
        let call = self.pending(Call::Me);
        self.busy_label = Some(SYNCING_ACCOUNT.to_owned());
        self.set_status(CALLING_ME.to_owned(), StatusKind::Info);
        Some(call)
    }

    /// The program list is asked for: the list call when there is a token,
    /// else a warning.
    pub fn start_rentals_request(&mut self) -> (r: Option<PendingCall>)
        requires
            old(self).wf(),
        ensures
            final(self).wf(),
            final(self)@ == after_start_rentals(old(self)@),
            r is Some == old(self)@.token is Some,
            r matches Some(p) ==> p.call == Call::Rentals && request_of(p, old(self)@),
    {
        if self.token.is_none() {
            self.set_status(PLEASE_LOGIN.to_owned(), StatusKind::Warning);
            return None;
        }
        let call = self.pending(Call::Rentals);
        self.busy_label = Some(LOADING_PROGRAMS.to_owned());
        self.set_status(CALLING_RENTALS.to_owned(), StatusKind::Info);
        Some(call)
    }

    /// The user asks to log out: the logout call when there is a token, else
    /// the account is forgotten at once.
    pub fn start_logout_request(&mut self) -> (r: Option<PendingCall>)
        requires
            old(self).wf(),
        ensures
            final(self).wf(),
            final(self)@ == after_start_logout(old(self)@),
            r is Some == old(self)@.token is Some,
            r matches Some(p) ==> p.call == Call::Logout && request_of(p, old(self)@),
    {
        if self.token.is_none() {
            self.clear_account();
            self.set_status(LOGGED_OUT.to_owned(), StatusKind::Info);
            return None;
        }
        let call = self.pending(Call::Logout);
        self.busy_label = Some(LOGGING_OUT.to_owned());
        self.set_status(REVOKING_TOKEN.to_owned(), StatusKind::Info);
        Some(call)
    }

    /// Keeps the selection while its product is listed; otherwise selects
    /// the first launchable rental, else the first rental.
    pub fn ensure_selected_program(&mut self)
        requires
            old(self).wf(),
        ensures
            final(self).wf(),
            final(self)@ == with_selection(old(self)@),
    {
        let exists = match &self.selected_product_id {
            Some(id) => find_product_exec(&self.rentals, id.as_str()).is_some(),
            None => false,
        };
        if exists {
            return;
        }
        let chosen = match first_launchable_exec(&self.rentals) {
            Some(i) => Some(self.rentals[i].product_id.clone()),
            None => if self.rentals.len() > 0 {
                Some(self.rentals[0].product_id.clone())
            } else {
                None
            },
        };
        self.selected_product_id = chosen;
    }

    /// The rental of the selected product, if it is listed.
    pub fn selected_rental(&self) -> (r: Option<Rental>)
        ensures
            r == selected_rental_spec(self@),
    {
        match &self.selected_product_id {
            None => None,
            Some(id) => match find_product_exec(&self.rentals, id.as_str()) {
                Some(i) => Some(self.rentals[i].clone()),
                None => None,
            },
        }
    }

    /// The user asks to launch the selected program at time `now`: access is
    /// confirmed when its rental may be launched, denied otherwise.
    pub fn launch_selected_program(&mut self, now: u64)
        requires
            old(self).wf(),
        ensures
            final(self).wf(),
            final(self)@ == after_launch(old(self)@, now),
    {
        let selected = self.selected_rental();
        match selected {
            None => {
                self.notify(SELECT_PROGRAM_FIRST.to_owned(), StatusKind::Warning, now);
            },
            Some(rental) => {
                if is_launchable(&rental) {
                    let mut text = ACCESS_VERIFIED.to_owned();
                    push_str(&mut text, rental.product_name.as_str());
                    self.notify(text, StatusKind::Success, now);
                } else {
                    let mut text = ACCESS_DENIED.to_owned();
                    push_str(&mut text, rental.product_name.as_str());
                    self.notify(text, StatusKind::Warning, now);
                }
            },
        }
    }

    /// Drops the toasts whose time is up at time `now`.
    pub fn expire_toasts(&mut self, now: u64)
        requires
            old(self).wf(),
        ensures
            final(self).wf(),
            final(self)@ == (SessionView { toasts: alive_toasts(old(self)@.toasts, now), ..old(self)@ }),
    {
        let ghost views = self.toasts@.map_values(|t: Toast| t@);
        let mut old_toasts: Vec<Toast> = Vec::new();
        std::mem::swap(&mut old_toasts, &mut self.toasts);
        let mut kept: Vec<Toast> = Vec::new();
        for t in it: old_toasts
            invariant
                views == it.seq().map_values(|t: Toast| t@),
                kept@.map_values(|t: Toast| t@) == alive_toasts(views.take(it.index() as int), now),
                kept@.len() <= it.index(),
                it.seq().len() <= MAX_TOASTS,
        {
            let ghost k = it.index();
            assert(views.take(k + 1).drop_last() =~= views.take(k as int));
            let ghost before = kept@;
            let elapsed = if now >= t.created_at_ms {
                now - t.created_at_ms
            } else {
                0
            };
            if elapsed < t.ttl_ms {
                kept.push(t);
                assert(kept@.map_values(|t: Toast| t@) =~= before.map_values(|t: Toast| t@).push(
                    kept@.last()@,
                ));
            }
        }
        assert(views.take(views.len() as int) =~= views);
        self.toasts = kept;
    }

    /// Handles the answer `m` that arrived at time `now`, and returns the
    /// call that follows it, if any.
    pub fn handle_message(&mut self, m: AppMessage, now: u64) -> (r: Option<PendingCall>)
        requires
            old(self).wf(),
        ensures
            final(self).wf(),
            final(self)@ == after_message(old(self)@, m, now),
            follow_up(m) is None ==> r is None,
            m matches AppMessage::Login(Ok(resp)) ==> (r matches Some(p) && p.call == Call::Me
                && request_of(p, SessionView { token: Some(resp.token@), ..old(self)@ })),
            m matches AppMessage::Me(Ok(_)) ==> (r is Some) == (old(self)@.token is Some),
            m matches AppMessage::Me(Ok(_)) ==> (r matches Some(p) ==> p.call == Call::Rentals
                && request_of(p, old(self)@)),
    {
        self.busy_label = None;
        match m {
            AppMessage::Login(result) => match result {
                Ok(response) => {
                    self.token = Some(response.token);
                    self.password = String::new();
                    self.set_status(LOGIN_SUCCESS_STATUS.to_owned(), StatusKind::Success);
                    self.push_toast(LOGIN_SUCCESS_TOAST.to_owned(), StatusKind::Success, now);
                    self.start_me_request()
                },
                Err(error) => {
                    self.clear_account();
                    self.set_api_error(LOGIN_FAILED, error, now);
                    None
                },
            },
            AppMessage::Me(result) => match result {
                Ok(response) => {
                    self.user = Some(response.user);
                    self.expires_at = Some(response.session.expires_at);
                    self.hwid_locked = Some(response.session.hwid_locked);
                    self.set_status(ACCOUNT_SYNCED.to_owned(), StatusKind::Success);
                    self.start_rentals_request()
                },
                Err(error) => {
                    self.clear_account();
                    self.set_api_error(ACCOUNT_CHECK_FAILED, error, now);
                    None
                },
            },
            AppMessage::Rentals(result) => match result {
                Ok(response) => {
                    let count = response.rentals.len();
                    self.rentals = response.rentals;
                    self.ensure_selected_program();
                    let mut text = LOADED_PREFIX.to_owned();
                    push_decimal(&mut text, count as u64);
                    push_str(&mut text, LOADED_SUFFIX);
                    self.set_status(text, StatusKind::Success);
                    self.push_toast(PROGRAM_LIST_UPDATED.to_owned(), StatusKind::Success, now);
                    None
                },
                Err(error) => {
                    if error.status == Some(401u16) {
                        self.clear_account();
                    }
                    self.set_api_error(PROGRAM_LOADING_FAILED, error, now);
                    None
                },
            },
            AppMessage::Logout(result) => match result {
                Ok(()) => {
                    self.clear_account();
                    self.notify(LOGGED_OUT.to_owned(), StatusKind::Info, now);
                    None
                },
                Err(error) => {
                    self.clear_account();
                    self.set_logout_warning(error, now);
                    None
                },
            },
        }
    }
}

/// The text shown for `error` after `prefix`.
pub fn error_text_exec(prefix: &str, error: &ApiError) -> (r: String)
    ensures
        r@ == error_text(prefix@, error.status, error.message@),
{
    let mut text = String::new();
    push_str(&mut text, prefix);
    if let Some(status) = error.status {
        text.push(' ');
        text.push('(');
        push_decimal(&mut text, status as u64);
        text.push(')');
    }
    text.push(':');
    text.push(' ');
    push_str(&mut text, error.message.as_str());
    proof {
        assert(text@ =~= error_text(prefix@, error.status, error.message@));
    }
    text
}

// ---------------------------------------------------------------------------
// Laws
// ---------------------------------------------------------------------------

/// An answer to logout, whether the server agreed or not, always forgets
/// the account here.
pub proof fn law_logout_forgets_account(s: SessionView, result: Result<(), ApiError>, now: u64)
    ensures
        ({
            let t = after_message(s, AppMessage::Logout(result), now);
            &&& t.token is None
            &&& t.user is None
            &&& t.rentals.len() == 0
            &&& t.selected_product_id is None
            &&& t.busy_label is None
        }),
{
}

/// A failed login or account check forgets the account.
pub proof fn law_failed_sign_in_forgets_account(s: SessionView, e: ApiError, now: u64)
    ensures
        after_message(s, AppMessage::Login(Err(e)), now).token is None,
        after_message(s, AppMessage::Me(Err(e)), now).token is None,
        after_message(s, AppMessage::Me(Err(e)), now).user is None,
{
}

/// A failed program load forgets the account only when the server answers
/// 401; otherwise the token, account and program list stay.
pub proof fn law_failed_load_keeps_account_unless_unauthorized(
    s: SessionView,
    e: ApiError,
    now: u64,
)
    ensures
        ({
            let t = after_message(s, AppMessage::Rentals(Err(e)), now);
            if e.status == Some(401u16) {
                t.token is None && t.user is None && t.rentals.len() == 0
            } else {
                t.token == s.token && t.user == s.user && t.rentals == s.rentals
                    && t.selected_product_id == s.selected_product_id
            }
        }),
{
}

/// After a program list arrives, something is selected exactly when the
/// list is not empty, and the selection names a listed product; a listed
/// selection is kept, and otherwise the first launchable program is
/// selected when there is one.
pub proof fn law_selection_names_a_listed_program(
    s: SessionView,
    resp: RentalsResponse,
    now: u64,
)
    ensures
        after_message(s, AppMessage::Rentals(Ok(resp)), now).rentals == resp.rentals@,
        after_message(s, AppMessage::Rentals(Ok(resp)), now).selected_product_id is Some
            <==> resp.rentals@.len() > 0,
        after_message(s, AppMessage::Rentals(Ok(resp)), now).selected_product_id matches Some(id)
            ==> find_product(resp.rentals@, id) is Some,
        s.selected_product_id matches Some(id) && find_product(resp.rentals@, id) is Some
            ==> after_message(s, AppMessage::Rentals(Ok(resp)), now).selected_product_id
            == s.selected_product_id,
        !(s.selected_product_id matches Some(old_id) && find_product(resp.rentals@, old_id)
            is Some) ==> (first_launchable(resp.rentals@) matches Some(i) ==> launchable(
            resp.rentals@[i],
        ) && after_message(s, AppMessage::Rentals(Ok(resp)), now).selected_product_id == Some(
            resp.rentals@[i].product_id@,
        )),
{
    let rs = resp.rentals@;
    let t = after_message(s, AppMessage::Rentals(Ok(resp)), now);
    assert(t.rentals == rs);
    assert(t.selected_product_id == selection_for(rs, s.selected_product_id));
    lemma_first_launchable_range(rs);
    if let Some(id) = s.selected_product_id {
        lemma_find_product_range(rs, id);
    }
    let sel = selection_for(rs, s.selected_product_id);
    if rs.len() > 0 {
        assert(sel is Some);
    }
    if let Some(id) = sel {
        lemma_find_product_range(rs, id);
        if !(s.selected_product_id matches Some(old_id) && find_product(rs, old_id) is Some) {
            if let Some(i) = first_launchable(rs) {
                assert(rs[i].product_id@ == id);
                assert(find_product(rs, id) is Some);
            } else {
                assert(rs.len() > 0);
                assert(rs[0].product_id@ == id);
                assert(find_product(rs, id) is Some);
            }
        } else {
            assert(find_product(rs, id) is Some);
        }
    }
}

/// Once an answer is handled, no work is under way unless the answer
/// started the next call: the account after a login, the program list after
/// the account.
pub proof fn law_answer_ends_work(s: SessionView, m: AppMessage, now: u64)
    ensures
        after_message(s, m, now).busy_label is Some ==> (m is Login && follow_up(m) is Some) || (
        m is Me && follow_up(m) is Some && s.token is Some),
{
}

/// A refused login request changes nothing but the status line and the
/// toasts.
pub proof fn law_refused_login_changes_only_notices(s: SessionView, now: u64)
    requires
        !can_submit(s),
    ensures
        ({
            let t = after_start_login(s, now);
            SessionView { status_text: s.status_text, status_kind: s.status_kind, toasts: s.toasts, ..t }
                == s
        }),
{
}

/// Adding a toast keeps at most [`MAX_TOASTS`], and the new one is the
/// newest.
pub proof fn law_toasts_bounded(toasts: Seq<ToastView>, t: ToastView)
    requires
        toasts.len() <= MAX_TOASTS,
    ensures
        pushed_toasts(toasts, t).len() <= MAX_TOASTS,
        pushed_toasts(toasts, t).last() == t,
{
}


/// The login form is never sent with an empty password: the request is
/// refused, nothing is put under way and the account is left as it was.
pub proof fn law_no_login_with_empty_password(s: SessionView, now: u64)
    requires
        s.password.len() == 0,
    ensures
        !can_submit(s),
        after_start_login(s, now).busy_label == s.busy_label,
        after_start_login(s, now).token == s.token,
        after_start_login(s, now).user == s.user,
        after_start_login(s, now).password == s.password,
{
}

/// A successful account answer puts its user, session end and device lock
/// into the session, and the program list is asked for next.
pub proof fn law_account_answer_holds_its_user(
    s: SessionView,
    resp: crate::models::MeResponse,
    now: u64,
)
    ensures
        after_message(s, AppMessage::Me(Ok(resp)), now).user == Some(resp.user),
        after_message(s, AppMessage::Me(Ok(resp)), now).expires_at == Some(
            resp.session.expires_at@,
        ),
        after_message(s, AppMessage::Me(Ok(resp)), now).hwid_locked == Some(
            resp.session.hwid_locked,
        ),
        after_message(s, AppMessage::Me(Ok(resp)), now).token == s.token,
{
}

/// With a day or more left, the text gives the whole days and then the
/// whole hours left after them, always fewer than 24: the time left lies in
/// the hour that the text names.
pub proof fn law_remaining_text_days_then_hours(seconds: int)
    requires
        seconds >= 86400,
    ensures
        ({
            let d = seconds / 86400;
            let h = (seconds % 86400) / 3600;
            &&& remaining_text_spec(seconds) == decimal(d as nat) + "d "@ + decimal(h as nat)
                + "h left"@
            &&& 0 <= h < 24
            &&& d >= 1
            &&& d * 86400 + h * 3600 <= seconds < d * 86400 + (h + 1) * 3600
        }),
{
    reveal_strlit("d ");
    reveal_strlit("h left");
    let d = seconds / 86400;
    let h = (seconds % 86400) / 3600;
    assert(d * 86400 + seconds % 86400 == seconds) by (nonlinear_arith)
        requires
            d == seconds / 86400,
    ;
    assert(h * 3600 <= seconds % 86400 < (h + 1) * 3600) by (nonlinear_arith)
        requires
            h == (seconds % 86400) / 3600,
            0 <= seconds % 86400,
    ;
    assert(d >= 1) by (nonlinear_arith)
        requires
            d == seconds / 86400,
            seconds >= 86400,
    ;
}

/// With less than a day but at least an hour left, the text gives the whole
/// hours and then the whole minutes left after them, always fewer than 60.
pub proof fn law_remaining_text_hours_then_minutes(seconds: int)
    requires
        3600 <= seconds < 86400,
    ensures
        ({
            let h = seconds / 3600;
            let m = (seconds % 3600) / 60;
            &&& remaining_text_spec(seconds) == decimal(h as nat) + "h "@ + decimal(m as nat)
                + "m left"@
            &&& 1 <= h < 24
            &&& 0 <= m < 60
            &&& h * 3600 + m * 60 <= seconds < h * 3600 + (m + 1) * 60
        }),
{
    reveal_strlit("h ");
    reveal_strlit("m left");
    let h = seconds / 3600;
    let m = (seconds % 3600) / 60;
    assert(h * 3600 + seconds % 3600 == seconds) by (nonlinear_arith)
        requires
            h == seconds / 3600,
    ;
    assert(m * 60 <= seconds % 3600 < (m + 1) * 60) by (nonlinear_arith)
        requires
            m == (seconds % 3600) / 60,
            0 <= seconds % 3600,
    ;
    assert(1 <= h < 24) by (nonlinear_arith)
        requires
            h == seconds / 3600,
            3600 <= seconds < 86400,
    ;
}

} // verus!
