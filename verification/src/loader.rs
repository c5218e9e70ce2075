//! The state of the game-library window: the same login flow as
//! [`crate::session`], with pages, a selection by position, and launching a
//! program's commands.
//!
//! Running the launch commands is left to the caller: [`LoaderSession::begin_launch`]
//! says which commands to run, and [`LoaderSession::finish_launch`] takes what
//! running them gave.
use vstd::prelude::*;

use crate::api::ApiError;
use crate::config::AppConfig;
use crate::models::{LoginRequest, Rental, UserInfo};
use crate::program_profiles::{profile_for, profile_table, select_profile, LaunchStep, LaunchStepView};
use crate::session::{
    is_launchable, launchable, opt_text, pushed_toasts, request_of, AppMessage, Call,
    PendingCall, StatusKind, Toast, ToastView, LOGGED_OUT, LOGGING_IN, LOGGING_OUT,
    LOGIN_SUCCESS_STATUS, LOGIN_SUCCESS_TOAST, ACCOUNT_SYNCED, ENTER_CREDENTIALS,
    SENDING_LOGIN, SYNCING_ACCOUNT,
};
use crate::text::{chars_of, decimal, push_decimal, push_str, trim, trim_chars, trim_str};

verus! {

/// A page of the window.
#[derive(Debug, Clone, Copy, PartialEq, Eq, Structural)]
pub enum Page {
    Home,
    Detail,
    Account,
}

/// The order of pages, for the direction of a page change.
pub open spec fn page_rank_spec(page: Page) -> int {
    match page {
        Page::Home => 0,
        Page::Detail => 1,
        Page::Account => 2,
    }
}

/// The position of `page` in the order of pages.
pub fn page_rank(page: Page) -> (r: i32)
    ensures
        r == page_rank_spec(page),
{
    match page {
        Page::Home => 0,
        Page::Detail => 1,
        Page::Account => 2,
    }
}

/// How long a toast is shown here, in milliseconds.
pub const LOADER_TOAST_TTL_MS: u64 = 3800;

pub const LOADING_GAMES: &'static str = "Loading games...";

pub const GAMES_LOADED: &'static str = "Games loaded.";

pub const GAME_LIBRARY_UPDATED: &'static str = "Game library updated.";

pub const LOGIN_FAILED_PREFIX: &'static str = "Login failed";

pub const ACCOUNT_SYNC_FAILED: &'static str = "Account sync failed";

pub const GAME_LOADING_FAILED: &'static str = "Game loading failed";

pub const LOGGED_OUT_LOCALLY_PREFIX: &'static str = "Logged out locally: ";

pub const LOGGED_OUT_LOCALLY: &'static str = "Logged out locally.";

pub const SELECT_GAME_FIRST: &'static str = "Select a game first.";

pub const ACCESS_DENIED_SHORT: &'static str = "Access denied.";

pub const NOT_LAUNCHABLE: &'static str = "Rental is not launchable.";

pub const NOTHING_TO_RUN_PREFIX: &'static str = "ยังไม่ได้ตั้งค่าไฟล์ที่จะรันสำหรับ ";

pub const NOTHING_TO_RUN_TOAST: &'static str = "ยังไม่ได้ตั้งค่าไฟล์เปิดโปรแกรมนี้";

pub const LAUNCHED_PREFIX: &'static str = "Launched ";

pub const LAUNCHED_MIDDLE: &'static str = " step(s): ";

pub const LAUNCH_STARTED: &'static str = "Launch commands started.";

pub const LAUNCH_FAILED_PREFIX: &'static str = "Launch failed: ";

pub const LAUNCH_FAILED: &'static str = "Launch failed.";

/// The state of the game-library window.
#[derive(Debug)]
pub struct LoaderSession {
    pub config: AppConfig,
    pub username: String,
    pub password: String,
    pub hwid: String,
    pub token: Option<String>,
    pub user: Option<UserInfo>,
    pub expires_at: Option<String>,
    pub hwid_locked: Option<bool>,
    pub rentals: Vec<Rental>,
    pub selected: Option<usize>,
    pub page: Page,
    pub page_forward: bool,
    pub page_changed_at_ms: u64,
    pub busy_label: Option<String>,
    pub status: String,
    pub status_kind: StatusKind,
    pub toasts: Vec<Toast>,
}

/// The window as text and values.
pub struct LoaderView {
    pub host: Seq<char>,
    pub username: Seq<char>,
    pub password: Seq<char>,
    pub hwid: Seq<char>,
    pub token: Option<Seq<char>>,
    pub user: Option<UserInfo>,
    pub expires_at: Option<Seq<char>>,
    pub hwid_locked: Option<bool>,
    pub rentals: Seq<Rental>,
    pub selected: Option<usize>,
    pub page: Page,
    pub page_forward: bool,
    pub page_changed_at_ms: u64,
    pub busy_label: Option<Seq<char>>,
    pub status_text: Seq<char>,
    pub status_kind: StatusKind,
    pub toasts: Seq<ToastView>,
}

impl View for LoaderSession {
    type V = LoaderView;

    open spec fn view(&self) -> LoaderView {
        LoaderView {
            host: self.config.host@,
            username: self.username@,
            password: self.password@,
            hwid: self.hwid@,
            token: opt_text(self.token),
            user: self.user,
            expires_at: opt_text(self.expires_at),
            hwid_locked: self.hwid_locked,
            rentals: self.rentals@,
            selected: self.selected,
            page: self.page,
            page_forward: self.page_forward,
            page_changed_at_ms: self.page_changed_at_ms,
            busy_label: opt_text(self.busy_label),
            status_text: self.status@,
            status_kind: self.status_kind,
            toasts: self.toasts@.map_values(|t: Toast| t@),
        }
    }
}

// --- transitions -----------------------------------------------------------

/// The page changed to `page` at time `now`, moving forward when it does not
/// come before the current page; nothing changes when it is the current
/// page.
pub open spec fn with_page(s: LoaderView, page: Page, now: u64) -> LoaderView {
    if s.page == page {
        s
    } else {
        LoaderView {
            page_forward: page_rank_spec(page) >= page_rank_spec(s.page),
            page,
            page_changed_at_ms: now,
            ..s
        }
    }
}

/// The account forgotten and the home page shown.
pub open spec fn session_cleared(s: LoaderView, now: u64) -> LoaderView {
    LoaderView {
        busy_label: None,
        ..with_page(
            LoaderView {
                token: None,
                user: None,
                expires_at: None,
                hwid_locked: None,
                rentals: Seq::empty(),
                selected: None,
                ..s
            },
            Page::Home,
            now,
        )
    }
}

/// The status line set.
pub open spec fn status_set(s: LoaderView, text: Seq<char>, kind: StatusKind) -> LoaderView {
    LoaderView { status_text: text, status_kind: kind, ..s }
}

/// A toast added at time `now`.
pub open spec fn toast_added(s: LoaderView, text: Seq<char>, kind: StatusKind, now: u64) -> LoaderView {
    LoaderView {
        toasts: pushed_toasts(
            s.toasts,
            ToastView { text, kind, created_at_ms: now, ttl_ms: LOADER_TOAST_TTL_MS },
        ),
        ..s
    }
}

/// An API error shown as `prefix: message` on the status line and as a
/// toast.
pub open spec fn api_error_shown(s: LoaderView, prefix: Seq<char>, message: Seq<char>, now: u64) -> LoaderView {
    let text = prefix + seq![':', ' '] + message;
    toast_added(status_set(s, text, StatusKind::Error), text, StatusKind::Error, now)
}

/// Work under way, with a label, when there is a token.
pub open spec fn started_with_token(s: LoaderView, label: Seq<char>) -> LoaderView {
    if s.token is Some {
        LoaderView { busy_label: Some(label), ..s }
    } else {
        s
    }
}

/// The login form may be sent.
pub open spec fn loader_can_submit(s: LoaderView) -> bool {
    s.busy_label is None && trim(s.username).len() > 0 && s.password.len() > 0
}

/// The window after the user asks to log in.
pub open spec fn after_loader_login(s: LoaderView, now: u64) -> LoaderView {
    if loader_can_submit(s) {
        status_set(
            LoaderView { busy_label: Some(LOGGING_IN@), ..session_cleared(s, now) },
            SENDING_LOGIN@,
            StatusKind::Info,
        )
    } else {
        toast_added(
            status_set(s, ENTER_CREDENTIALS@, StatusKind::Warning),
            ENTER_CREDENTIALS@,
            StatusKind::Warning,
            now,
        )
    }
}

/// The window after the user asks to log out.
pub open spec fn after_loader_logout(s: LoaderView, now: u64) -> LoaderView {
    if s.token is Some {
        LoaderView { busy_label: Some(LOGGING_OUT@), ..s }
    } else {
        session_cleared(s, now)
    }
}

/// The window after the answer `m` arrives at time `now`.
pub open spec fn after_loader_message(s: LoaderView, m: AppMessage, now: u64) -> LoaderView {
    let s0 = LoaderView { busy_label: None, ..s };
    match m {
        AppMessage::Login(Ok(resp)) => started_with_token(
            toast_added(
                status_set(
                    LoaderView { token: Some(resp.token@), password: Seq::empty(), ..s0 },
                    LOGIN_SUCCESS_STATUS@,
                    StatusKind::Success,
                ),
                LOGIN_SUCCESS_TOAST@,
                StatusKind::Success,
                now,
            ),
            SYNCING_ACCOUNT@,
        ),
        AppMessage::Login(Err(e)) => api_error_shown(
            session_cleared(s0, now),
            LOGIN_FAILED_PREFIX@,
            e.message@,
            now,
        ),
        AppMessage::Me(Ok(resp)) => started_with_token(
            status_set(
                with_page(
                    LoaderView {
                        user: Some(resp.user),
                        expires_at: Some(resp.session.expires_at@),
                        hwid_locked: Some(resp.session.hwid_locked),
                        ..s0
                    },
                    Page::Home,
                    now,
                ),
                ACCOUNT_SYNCED@,
                StatusKind::Success,
            ),
            LOADING_GAMES@,
        ),
        AppMessage::Me(Err(e)) => api_error_shown(
            session_cleared(s0, now),
            ACCOUNT_SYNC_FAILED@,
            e.message@,
            now,
        ),
        AppMessage::Rentals(Ok(resp)) => toast_added(
            status_set(
                LoaderView {
                    rentals: resp.rentals@,
                    selected: if resp.rentals@.len() == 0 {
                        None
                    } else {
                        Some(0usize)
                    },
                    ..s0
                },
                GAMES_LOADED@,
                StatusKind::Success,
            ),
            GAME_LIBRARY_UPDATED@,
            StatusKind::Success,
            now,
        ),
        AppMessage::Rentals(Err(e)) => api_error_shown(
            if e.status == Some(401u16) {
                session_cleared(s0, now)
            } else {
                s0
            },
            GAME_LOADING_FAILED@,
            e.message@,
            now,
        ),
        AppMessage::Logout(Ok(())) => toast_added(
            status_set(session_cleared(s0, now), LOGGED_OUT@, StatusKind::Info),
            LOGGED_OUT@,
            StatusKind::Info,
            now,
        ),
        AppMessage::Logout(Err(e)) => toast_added(
            status_set(
                session_cleared(s0, now),
                LOGGED_OUT_LOCALLY_PREFIX@ + e.message@,
                StatusKind::Warning,
            ),
            LOGGED_OUT_LOCALLY@,
            StatusKind::Warning,
            now,
        ),
    }
}

/// The rental at the selected position, if there is one.
pub open spec fn loader_selected_rental(s: LoaderView) -> Option<Rental> {
    match s.selected {
        Some(i) => if i < s.rentals.len() {
            Some(s.rentals[i as int])
        } else {
            None
        },
        None => None,
    }
}

/// A toast is still shown at time `now`: its time is not yet over.
pub open spec fn loader_toast_alive(t: ToastView, now: u64) -> bool {
    (if now >= t.created_at_ms {
        now - t.created_at_ms
    } else {
        0
    }) <= t.ttl_ms
}

/// The toasts still shown at time `now`, in order.
pub open spec fn loader_alive_toasts(toasts: Seq<ToastView>, now: u64) -> Seq<ToastView>
    decreases toasts.len(),
{
    if toasts.len() == 0 {
        Seq::empty()
    } else {
        let rest = loader_alive_toasts(toasts.drop_last(), now);
        if loader_toast_alive(toasts.last(), now) {
            rest.push(toasts.last())
        } else {
            rest
        }
    }
}

/// A command is run only when it is not blank.
pub open spec fn runnable_steps(steps: Seq<LaunchStepView>) -> Seq<LaunchStepView> {
    steps.filter(|st: LaunchStepView| trim(st.command).len() > 0)
}

/// What launching the selection runs: the name of the program and the
/// commands of its profile that are not blank.
pub struct LaunchPlan {
    pub product_name: String,
    pub steps: Vec<LaunchStep>,
}

/// The window after the user asks to launch the selection, before any
/// command runs.
pub open spec fn after_begin_launch(s: LoaderView, now: u64) -> LoaderView {
    match loader_selected_rental(s) {
        None => toast_added(s, SELECT_GAME_FIRST@, StatusKind::Warning, now),
        Some(r) => if launchable(r) {
            s
        } else {
            toast_added(
                status_set(s, ACCESS_DENIED_SHORT@, StatusKind::Warning),
                NOT_LAUNCHABLE@,
                StatusKind::Warning,
                now,
            )
        },
    }
}

/// The window after running the commands of `product_name` gave `outcome`:
/// the number of commands started, or the text of the failure.
pub open spec fn after_finish_launch(
    s: LoaderView,
    product_name: Seq<char>,
    outcome: Result<usize, Seq<char>>,
    now: u64,
) -> LoaderView {
    match outcome {
        Ok(count) => if count == 0 {
            toast_added(
                status_set(s, NOTHING_TO_RUN_PREFIX@ + product_name, StatusKind::Warning),
                NOTHING_TO_RUN_TOAST@,
                StatusKind::Warning,
                now,
            )
        } else {
            toast_added(
                status_set(
                    s,
                    LAUNCHED_PREFIX@ + decimal(count as nat) + LAUNCHED_MIDDLE@ + product_name,
                    StatusKind::Success,
                ),
                LAUNCH_STARTED@,
                StatusKind::Success,
                now,
            )
        },
        Err(e) => toast_added(
            status_set(s, LAUNCH_FAILED_PREFIX@ + e, StatusKind::Error),
            LAUNCH_FAILED@,
            StatusKind::Error,
            now,
        ),
    }
}

/// The text of a launch command that failed to start: its label and the
/// error in parentheses.
pub open spec fn launch_error_spec(label: Seq<char>, error: Seq<char>) -> Seq<char> {
    label + seq![' ', '('] + error + seq![')']
}

/// The text of a launch command that failed to start.
pub fn launch_error(label: &str, error: &str) -> (r: String)
    ensures
        r@ == launch_error_spec(label@, error@),
{
    let mut r = String::new();
    push_str(&mut r, label);
    r.push(' ');
    r.push('(');
    push_str(&mut r, error);
    r.push(')');
    proof {
        assert(r@ =~= launch_error_spec(label@, error@));
    }
    r
}

/// The card at `index` opened: it becomes the selection and the detail page
/// is shown from time `now`.
pub open spec fn card_opened(s: LoaderView, index: usize, now: u64) -> LoaderView {
    with_page(LoaderView { selected: Some(index), ..s }, Page::Detail, now)
}

/// What running a launch plan gave: the number of commands started when all
/// started, else the failure of the first command that could not start.
pub open spec fn launch_outcome_spec(
    steps: Seq<LaunchStepView>,
    failure: Option<(int, Seq<char>)>,
) -> Result<nat, Seq<char>> {
    match failure {
        None => Ok(steps.len()),
        Some((i, error)) => Err(launch_error_spec(steps[i].label, error)),
    }
}

/// What running `plan` gave, from the position and error text of the first
/// command that could not start, if any.
pub fn launch_outcome(plan: &LaunchPlan, failure: Option<(usize, String)>) -> (r: Result<
    usize,
    String,
>)
    requires
        failure matches Some((i, _)) ==> i < plan.steps.len(),
    ensures
        match (r, failure) {
            (Ok(n), None) => launch_outcome_spec(
                plan.steps@.map_values(|st: LaunchStep| st@),
                None,
            ) == Ok::<nat, Seq<char>>(n as nat),
            (Err(m), Some((i, e))) => launch_outcome_spec(
                plan.steps@.map_values(|st: LaunchStep| st@),
                Some((i as int, e@)),
            ) == Err::<nat, Seq<char>>(m@),
            _ => false,
        },
{
    match failure {
        None => Ok(plan.steps.len()),
        Some((i, error)) => {
            let step: &LaunchStep = &plan.steps[i];
            Err(launch_error(step.label, error.as_str()))
        },
    }
}

/// A row of the home page: two half-width cards side by side, starting at a
/// position, or one full-width card.
#[derive(Debug, Clone, Copy, PartialEq, Eq, Structural)]
pub enum HomeRow {
    Pair(usize),
    Wide(usize),
}

/// The rows of the home page for the cards from position `i` of `n`: a pair,
/// then a wide card, in turn; a card left over alone is wide.
pub open spec fn home_rows_from(i: nat, n: nat) -> Seq<HomeRow>
    decreases n - i,
{
    if i >= n {
        Seq::empty()
    } else if i + 1 < n {
        if i + 2 < n {
            seq![HomeRow::Pair(i as usize), HomeRow::Wide((i + 2) as usize)] + home_rows_from(
                i + 3,
                n,
            )
        } else {
            seq![HomeRow::Pair(i as usize)]
        }
    } else {
        seq![HomeRow::Wide(i as usize)]
    }
}

/// The positions of the cards that `rows` show, in order.
pub open spec fn cards_of(rows: Seq<HomeRow>) -> Seq<int>
    decreases rows.len(),
{
    if rows.len() == 0 {
        Seq::empty()
    } else {
        let head = match rows[0] {
            HomeRow::Pair(i) => seq![i as int, i + 1],
            HomeRow::Wide(i) => seq![i as int],
        };
        head + cards_of(rows.drop_first())
    }
}

/// The rows of the home page for `count` cards.
pub fn home_rows(count: usize) -> (r: Vec<HomeRow>)
    ensures
        r@ == home_rows_from(0, count as nat),
{
    let mut r: Vec<HomeRow> = Vec::new();
    let mut i: usize = 0;
    while i < count
        invariant
            i <= count,
            r@ + home_rows_from(i as nat, count as nat) == home_rows_from(0, count as nat),
        decreases count - i,
    {
        let ghost before = r@;
        if i + 1 < count {
            r.push(HomeRow::Pair(i));
            if i + 2 < count {
                r.push(HomeRow::Wide(i + 2));
                assert(r@ + home_rows_from((i + 3) as nat, count as nat) =~= before
                    + home_rows_from(i as nat, count as nat));
                i += 3;
            } else {
                assert(home_rows_from((i + 2) as nat, count as nat) =~= Seq::<HomeRow>::empty());
                assert(r@ + home_rows_from((i + 2) as nat, count as nat) =~= before
                    + home_rows_from(i as nat, count as nat));
                i += 2;
            }
        } else {
            r.push(HomeRow::Wide(i));
            assert(home_rows_from((i + 1) as nat, count as nat) =~= Seq::<HomeRow>::empty());
            assert(r@ + home_rows_from((i + 1) as nat, count as nat) =~= before
                + home_rows_from(i as nat, count as nat));
            i += 1;
        }
    }
    assert(home_rows_from(i as nat, count as nat) =~= Seq::<HomeRow>::empty());
    assert(r@ + Seq::<HomeRow>::empty() =~= r@);
    r
}

/// The request that a call makes from the window `s`.
pub open spec fn loader_request_of(p: PendingCall, s: LoaderView) -> bool {
    request_of(
        p,
        crate::session::SessionView {
            host: s.host,
            username: s.username,
            password: s.password,
            hwid: s.hwid,
            token: s.token,
            user: s.user,
            expires_at: s.expires_at,
            hwid_locked: s.hwid_locked,
            rentals: s.rentals,
            selected_product_id: None,
            busy_label: s.busy_label,
            status_text: s.status_text,
            status_kind: s.status_kind,
            toasts: s.toasts,
        },
    )
}

impl LoaderSession {
    /// At most five toasts are kept.
    pub open spec fn wf(&self) -> bool {
        self.toasts@.len() <= crate::session::MAX_TOASTS
    }

    /// A fresh window for `config` on the machine `hwid`, on the home page
    /// since `now`.
    pub fn new(config: AppConfig, hwid: String, now: u64) -> (r: Self)
        ensures
            r.wf(),
            r@.host == config.host@,
            r@.hwid == hwid@,
            r@.username.len() == 0,
            r@.password.len() == 0,
            r@.token is None,
            r@.user is None,
            r@.rentals.len() == 0,
            r@.selected is None,
            r@.page == Page::Home,
            r@.page_forward,
            r@.page_changed_at_ms == now,
            r@.busy_label is None,
            r@.status_text == crate::session::READY@,
            r@.status_kind == StatusKind::Info,
            r@.toasts.len() == 0,
    {
        LoaderSession {
            config,
            username: String::new(),
            password: String::new(),
            hwid,
            token: None,
            user: None,
            expires_at: None,
            hwid_locked: None,
            rentals: Vec::new(),
            selected: None,
            page: Page::Home,
            page_forward: true,
            page_changed_at_ms: now,
            busy_label: None,
            status: crate::session::READY.to_owned(),
            status_kind: StatusKind::Info,
            toasts: Vec::new(),
        }
    }

    /// Whether someone is logged in.
    pub fn logged_in(&self) -> (r: bool)
        ensures
            r == self@.user is Some,
    {
        self.user.is_some()
    }

    /// Whether work is under way.
    pub fn is_busy(&self) -> (r: bool)
        ensures
            r == self@.busy_label is Some,
    {
        self.busy_label.is_some()
    }

    /// Shows `page` from time `now`.
    pub fn set_page(&mut self, page: Page, now: u64)
        requires
            old(self).wf(),
        ensures
            final(self).wf(),
            final(self)@ == with_page(old(self)@, page, now),
    {
        if self.page == page {
            return;
        }
        self.page_forward = page_rank(page) >= page_rank(self.page);
        self.page = page;
        self.page_changed_at_ms = now;
    }

    /// The user opens the card at `index` at time `now`.
    pub fn open_card(&mut self, index: usize, now: u64)
        requires
            old(self).wf(),
            index < old(self).rentals.len(),
        ensures
            final(self).wf(),
            final(self)@ == card_opened(old(self)@, index, now),
    {
        self.selected = Some(index);
        self.set_page(Page::Detail, now);
    }

    /// Sets the status line.
    pub fn set_status(&mut self, text: String, kind: StatusKind)
        requires
            old(self).wf(),
        ensures
            final(self).wf(),
            final(self)@ == status_set(old(self)@, text@, kind),
    {
        self.status = text;
        self.status_kind = kind;
    }

    /// Adds a toast made at time `now`, dropping the oldest beyond five.
    pub fn push_toast(&mut self, text: String, kind: StatusKind, now: u64)
        requires
            old(self).wf(),
        ensures
            final(self).wf(),
            final(self)@ == toast_added(old(self)@, text@, kind, now),
    {
        let ghost before = self.toasts@;
        self.toasts.push(Toast { text, kind, created_at_ms: now, ttl_ms: LOADER_TOAST_TTL_MS });
        let ghost pushed = self.toasts@;
        assert(pushed.map_values(|t: Toast| t@) =~= before.map_values(|t: Toast| t@).push(
            pushed.last()@,
        ));
        if self.toasts.len() > crate::session::MAX_TOASTS {
            self.toasts.remove(0);
            assert(self.toasts@.map_values(|t: Toast| t@) =~= pushed.map_values(|t: Toast| t@).subrange(
                1,
                pushed.len() as int,
            ));
        }
    }

    /// Shows an API error as `prefix: message`.
    pub fn set_api_error(&mut self, prefix: &str, error: ApiError, now: u64)
        requires
            old(self).wf(),
        ensures
            final(self).wf(),
            final(self)@ == api_error_shown(old(self)@, prefix@, error.message@, now),
    {
        let mut text = String::new();
        push_str(&mut text, prefix);
        text.push(':');
        text.push(' ');
        push_str(&mut text, error.message.as_str());
        assert(text@ =~= prefix@ + seq![':', ' '] + error.message@);
        let copy = text.clone();
        self.set_status(text, StatusKind::Error);
        self.push_toast(copy, StatusKind::Error, now);
    }

    /// Forgets the account and shows the home page.
    pub fn clear_session(&mut self, now: u64)
        requires
            old(self).wf(),
        ensures
            final(self).wf(),
            final(self)@ == session_cleared(old(self)@, now),
    {
        self.token = None;
        self.user = None;
        self.expires_at = None;
        self.hwid_locked = None;
        self.rentals.clear();
        self.selected = None;
        self.set_page(Page::Home, now);
        self.busy_label = None;
    }

    fn pending(&self, call: Call) -> (r: PendingCall)
        requires
            call != Call::Login ==> self.token is Some,
        ensures
            r.call == call,
            loader_request_of(r, self@),
    {
        let base = self.config.api_base_url();
        let request = match call {
            Call::Login => {
                let user = trim_str(self.username.as_str());
                crate::api::login(
                    base.as_str(),
                    LoginRequest { user, password: self.password.clone(), hwid: self.hwid.clone() },
                )
            },
            Call::Me => crate::api::me(base.as_str(), self.token.as_ref().unwrap().as_str()),
            Call::Rentals => crate::api::rentals(
                base.as_str(),
                self.token.as_ref().unwrap().as_str(),
            ),
            Call::Logout => crate::api::logout(
                base.as_str(),
                self.token.as_ref().unwrap().as_str(),
            ),
        };
        PendingCall { call, request }
    }

    /// The user asks to log in at time `now`.
    pub fn start_login(&mut self, now: u64) -> (r: Option<PendingCall>)
        requires
            old(self).wf(),
        ensures
            final(self).wf(),
            final(self)@ == after_loader_login(old(self)@, now),
            r is Some == loader_can_submit(old(self)@),
            r matches Some(p) ==> p.call == Call::Login && loader_request_of(p, old(self)@),
    {
        let user = chars_of(self.username.as_str());
        let trimmed = trim_chars(&user);
        if self.is_busy() || trimmed.len() == 0 || self.password.as_str().is_empty() {
            self.set_status(ENTER_CREDENTIALS.to_owned(), StatusKind::Warning);
            self.push_toast(ENTER_CREDENTIALS.to_owned(), StatusKind::Warning, now);
            return None;
        }
        let call = self.pending(Call::Login);
        self.clear_session(now);
        self.busy_label = Some(LOGGING_IN.to_owned());
        self.set_status(SENDING_LOGIN.to_owned(), StatusKind::Info);
        Some(call)
    }

    /// The account is asked for, when there is a token.
    pub fn start_me(&mut self) -> (r: Option<PendingCall>)
        requires
            old(self).wf(),
        ensures
            final(self).wf(),
            final(self)@ == started_with_token(old(self)@, SYNCING_ACCOUNT@),
            r is Some == old(self)@.token is Some,
            r matches Some(p) ==> p.call == Call::Me && loader_request_of(p, old(self)@),
    {
        if self.token.is_none() {
            return None;
        }
        let call = self.pending(Call::Me);
        self.busy_label = Some(SYNCING_ACCOUNT.to_owned());
        Some(call)
    }

    /// The game list is asked for, when there is a token.
    pub fn start_rentals(&mut self) -> (r: Option<PendingCall>)
        requires
            old(self).wf(),
        ensures
            final(self).wf(),
            final(self)@ == started_with_token(old(self)@, LOADING_GAMES@),
            r is Some == old(self)@.token is Some,
            r matches Some(p) ==> p.call == Call::Rentals && loader_request_of(p, old(self)@),
    {
        if self.token.is_none() {
            return None;
        }
        let call = self.pending(Call::Rentals);
        self.busy_label = Some(LOADING_GAMES.to_owned());
        Some(call)
    }

    /// The user asks to log out at time `now`: the logout call when there is
    /// a token, else the account is forgotten at once.
    pub fn start_logout(&mut self, now: u64) -> (r: Option<PendingCall>)
        requires
            old(self).wf(),
        ensures
            final(self).wf(),
            final(self)@ == after_loader_logout(old(self)@, now),
            r is Some == old(self)@.token is Some,
            r matches Some(p) ==> p.call == Call::Logout && loader_request_of(p, old(self)@),
    {
        if self.token.is_none() {
            self.clear_session(now);
            return None;
        }
        let call = self.pending(Call::Logout);
        self.busy_label = Some(LOGGING_OUT.to_owned());
        Some(call)
    }

    /// The rental at the selected position.
    pub fn selected_rental(&self) -> (r: Option<&Rental>)
        ensures
            match r {
                Some(x) => loader_selected_rental(self@) == Some(*x),
                None => loader_selected_rental(self@) is None,
            },
    {
        match self.selected {
            Some(i) => if i < self.rentals.len() {
                Some(&self.rentals[i])
            } else {
                None
            },
            None => None,
        }
    }

    /// The user asks to launch the selection at time `now`: the commands to
    /// run when its rental may be launched, else a warning.
    pub fn begin_launch(&mut self, now: u64) -> (r: Option<LaunchPlan>)
        requires
            old(self).wf(),
        ensures
            final(self).wf(),
            final(self)@ == after_begin_launch(old(self)@, now),
            r is Some == (loader_selected_rental(old(self)@) matches Some(x) && launchable(x)),
            r matches Some(plan) ==> loader_selected_rental(old(self)@) matches Some(x)
                && plan.product_name@ == x.product_name@ && plan.steps@.map_values(
                |st: LaunchStep| st@,
            ) == runnable_steps(select_profile(profile_table(), x.product_name@).launch_steps),
    {
        let rental = match self.selected_rental() {
            None => {
                self.push_toast(SELECT_GAME_FIRST.to_owned(), StatusKind::Warning, now);
                return None;
            },
            Some(r) => r.clone(),
        };
        if !is_launchable(&rental) {
            self.set_status(ACCESS_DENIED_SHORT.to_owned(), StatusKind::Warning);
            self.push_toast(NOT_LAUNCHABLE.to_owned(), StatusKind::Warning, now);
            return None;
        }
        let profile = profile_for(rental.product_name.as_str());
        let steps = runnable(&profile.launch_steps);
        Some(LaunchPlan { product_name: rental.product_name.clone(), steps })
    }

    /// Records what running the launch commands of `product_name` gave at
    /// time `now`: the number started, or the text of the failure.
    pub fn finish_launch(&mut self, product_name: &str, outcome: Result<usize, String>, now: u64)
        requires
            old(self).wf(),
        ensures
            final(self).wf(),
            final(self)@ == after_finish_launch(
                old(self)@,
                product_name@,
                match outcome {
                    Ok(n) => Ok(n),
                    Err(e) => Err(e@),
                },
                now,
            ),
    {
        match outcome {
            Ok(count) => {
                if count == 0 {
                    let mut text = NOTHING_TO_RUN_PREFIX.to_owned();
                    push_str(&mut text, product_name);
                    self.set_status(text, StatusKind::Warning);
                    self.push_toast(NOTHING_TO_RUN_TOAST.to_owned(), StatusKind::Warning, now);
                } else {
                    let mut text = LAUNCHED_PREFIX.to_owned();
                    push_decimal(&mut text, count as u64);
                    push_str(&mut text, LAUNCHED_MIDDLE);
                    push_str(&mut text, product_name);
                    self.set_status(text, StatusKind::Success);
                    self.push_toast(LAUNCH_STARTED.to_owned(), StatusKind::Success, now);
                }
            },
            Err(error) => {
                let mut text = LAUNCH_FAILED_PREFIX.to_owned();
                push_str(&mut text, error.as_str());
                self.set_status(text, StatusKind::Error);
                self.push_toast(LAUNCH_FAILED.to_owned(), StatusKind::Error, now);
            },
        }
    }

    /// Drops the toasts whose time is over at time `now`.
    pub fn expire_toasts(&mut self, now: u64)
        requires
            old(self).wf(),
        ensures
            final(self).wf(),
            final(self)@ == (LoaderView {
                toasts: loader_alive_toasts(old(self)@.toasts, now),
                ..old(self)@
            }),
    {
        let ghost views = self.toasts@.map_values(|t: Toast| t@);
        let mut old_toasts: Vec<Toast> = Vec::new();
        std::mem::swap(&mut old_toasts, &mut self.toasts);
        let mut kept: Vec<Toast> = Vec::new();
        for t in it: old_toasts
            invariant
                views == it.seq().map_values(|t: Toast| t@),
                kept@.map_values(|t: Toast| t@) == loader_alive_toasts(
                    views.take(it.index() as int),
                    now,
                ),
                kept@.len() <= it.index(),
                it.seq().len() <= crate::session::MAX_TOASTS,
        {
            let ghost k = it.index();
            assert(views.take(k + 1).drop_last() =~= views.take(k as int));
            let ghost before = kept@;
            let elapsed = if now >= t.created_at_ms {
                now - t.created_at_ms
            } else {
                0
            };
            if elapsed <= t.ttl_ms {
                kept.push(t);
                assert(kept@.map_values(|t: Toast| t@) =~= before.map_values(|t: Toast| t@).push(
                    kept@.last()@,
                ));
            }
        }
        assert(views.take(views.len() as int) =~= views);
        self.toasts = kept;
    }

    /// Handles the answer `m` that arrived at time `now`, and returns the
    /// call that follows it, if any.
    pub fn handle_message(&mut self, m: AppMessage, now: u64) -> (r: Option<PendingCall>)
        requires
            old(self).wf(),
        ensures
            final(self).wf(),
            final(self)@ == after_loader_message(old(self)@, m, now),
            !(m matches AppMessage::Login(Ok(_))) && !(m matches AppMessage::Me(Ok(_))) ==> r is None,
            m matches AppMessage::Login(Ok(resp)) ==> (r matches Some(p) && p.call == Call::Me
                && loader_request_of(p, LoaderView { token: Some(resp.token@), ..old(self)@ })),
            m matches AppMessage::Me(Ok(_)) ==> (r is Some) == (old(self)@.token is Some),
            m matches AppMessage::Me(Ok(_)) ==> (r matches Some(p) ==> p.call == Call::Rentals
                && loader_request_of(p, old(self)@)),
    {
        self.busy_label = None;
        match m {
            AppMessage::Login(result) => match result {
                Ok(response) => {
                    self.token = Some(response.token);
                    self.password = String::new();
                    self.set_status(LOGIN_SUCCESS_STATUS.to_owned(), StatusKind::Success);
                    self.push_toast(LOGIN_SUCCESS_TOAST.to_owned(), StatusKind::Success, now);
                    self.start_me()
                },
                Err(error) => {
                    self.clear_session(now);
                    self.set_api_error(LOGIN_FAILED_PREFIX, error, now);
                    None
                },
            },
            AppMessage::Me(result) => match result {
                Ok(response) => {
                    self.user = Some(response.user);
                    self.expires_at = Some(response.session.expires_at);
                    self.hwid_locked = Some(response.session.hwid_locked);
                    self.set_page(Page::Home, now);
                    self.set_status(ACCOUNT_SYNCED.to_owned(), StatusKind::Success);
                    self.start_rentals()
                },
                Err(error) => {
                    self.clear_session(now);
                    self.set_api_error(ACCOUNT_SYNC_FAILED, error, now);
                    None
                },
            },
            AppMessage::Rentals(result) => match result {
                Ok(response) => {
                    self.rentals = response.rentals;
                    self.selected = if self.rentals.len() == 0 {
                        None
                    } else {
                        Some(0)
                    };
                    self.set_status(GAMES_LOADED.to_owned(), StatusKind::Success);
                    self.push_toast(GAME_LIBRARY_UPDATED.to_owned(), StatusKind::Success, now);
                    None
                },
                Err(error) => {
                    if error.status == Some(401u16) {
                        self.clear_session(now);
                    }
                    self.set_api_error(GAME_LOADING_FAILED, error, now);
                    None
                },
            },
            AppMessage::Logout(result) => {
                self.clear_session(now);
                match result {
                    Ok(()) => {
                        self.set_status(LOGGED_OUT.to_owned(), StatusKind::Info);
                        self.push_toast(LOGGED_OUT.to_owned(), StatusKind::Info, now);
                    },
                    Err(error) => {
                        let mut text = LOGGED_OUT_LOCALLY_PREFIX.to_owned();
                        push_str(&mut text, error.message.as_str());
                        self.set_status(text, StatusKind::Warning);
                        self.push_toast(LOGGED_OUT_LOCALLY.to_owned(), StatusKind::Warning, now);
                    },
                }
                None
            },
        }
    }
}

/// The steps whose command is not blank, in order.
fn runnable(steps: &Vec<LaunchStep>) -> (r: Vec<LaunchStep>)
    ensures
        r@.map_values(|st: LaunchStep| st@) == runnable_steps(
            steps@.map_values(|st: LaunchStep| st@),
        ),
{
    let ghost views = steps@.map_values(|st: LaunchStep| st@);
    let mut r: Vec<LaunchStep> = Vec::new();
    let mut i: usize = 0;
    while i < steps.len()
        invariant
            0 <= i <= steps.len(),
            views == steps@.map_values(|st: LaunchStep| st@),
            r@.map_values(|st: LaunchStep| st@) == runnable_steps(views.take(i as int)),
        decreases steps.len() - i,
    {
        let ghost before = r@;
        assert(views.take(i + 1).drop_last() =~= views.take(i as int));
        reveal_with_fuel(Seq::filter, 1);
        let command = chars_of(steps[i].command);
        let trimmed = trim_chars(&command);
        if trimmed.len() > 0 {
            r.push(steps[i].clone());
            assert(r@.map_values(|st: LaunchStep| st@) =~= before.map_values(
                |st: LaunchStep| st@,
            ).push(steps@[i as int]@));
        }
        i += 1;
    }
    assert(views.take(steps.len() as int) =~= views);
    r
}

// ---------------------------------------------------------------------------
// Laws
// ---------------------------------------------------------------------------

/// An answer to logout always forgets the account and shows the home page.
pub proof fn law_loader_logout_forgets_account(s: LoaderView, result: Result<(), ApiError>, now: u64)
    ensures
        ({
            let t = after_loader_message(s, AppMessage::Logout(result), now);
            &&& t.token is None
            &&& t.user is None
            &&& t.rentals.len() == 0
            &&& t.selected is None
            &&& t.page == Page::Home
            &&& t.busy_label is None
        }),
{
}

/// After a game list arrives, the first game is selected when there is one,
/// so the selection always names a listed game.
pub proof fn law_loader_selection_in_range(s: LoaderView, resp: crate::models::RentalsResponse, now: u64)
    ensures
        ({
            let t = after_loader_message(s, AppMessage::Rentals(Ok(resp)), now);
            &&& (t.selected is Some <==> t.rentals.len() > 0)
            &&& (t.selected matches Some(i) ==> i < t.rentals.len())
        }),
{
}

/// Changing to another page moves forward exactly when the new page does
/// not come before the old one, and returning to the current page changes
/// nothing.
pub proof fn law_page_direction(s: LoaderView, page: Page, now: u64)
    ensures
        page == s.page ==> with_page(s, page, now) == s,
        page != s.page ==> with_page(s, page, now).page == page && with_page(s, page, now).page_forward
            == (page_rank_spec(page) >= page_rank_spec(s.page)),
{
}


/// The home page shows every card once, in order of position.
pub proof fn law_home_rows_show_each_card_once(count: usize)
    ensures
        cards_of(home_rows_from(0, count as nat)) == Seq::new(count as nat, |k: int| k),
{
    lemma_home_rows_cards(0, count as nat);
    assert(Seq::new((count - 0) as nat, |k: int| 0 + k) =~= Seq::new(count as nat, |k: int| k));
}

proof fn lemma_home_rows_cards(i: nat, n: nat)
    requires
        i <= n <= usize::MAX,
    ensures
        cards_of(home_rows_from(i, n)) == Seq::new((n - i) as nat, |k: int| i + k),
    decreases n - i,
{
    let rows = home_rows_from(i, n);
    if i >= n {
        assert(cards_of(rows) =~= Seq::new((n - i) as nat, |k: int| i + k));
    } else if i + 1 < n {
        if i + 2 < n {
            lemma_home_rows_cards(i + 3, n);
            let rest = home_rows_from(i + 3, n);
            assert(rows[0] == HomeRow::Pair(i as usize));
            assert(rows.drop_first() =~= seq![HomeRow::Wide((i + 2) as usize)] + rest);
            let tail = rows.drop_first();
            assert(tail[0] == HomeRow::Wide((i + 2) as usize));
            assert(tail.drop_first() =~= rest);
            assert(cards_of(tail) == seq![(i + 2) as int] + cards_of(rest));
            assert(cards_of(rows) == seq![i as int, (i + 1) as int] + cards_of(tail));
            assert(cards_of(rows) =~= Seq::new((n - i) as nat, |k: int| i + k));
        } else {
            assert(rows[0] == HomeRow::Pair(i as usize));
            assert(rows.drop_first() =~= Seq::<HomeRow>::empty());
            assert(cards_of(rows.drop_first()) =~= Seq::<int>::empty());
            assert(cards_of(rows) =~= Seq::new((n - i) as nat, |k: int| i + k));
        }
    } else {
        assert(rows[0] == HomeRow::Wide(i as usize));
        assert(rows.drop_first() =~= Seq::<HomeRow>::empty());
        assert(cards_of(rows.drop_first()) =~= Seq::<int>::empty());
        assert(cards_of(rows) =~= Seq::new((n - i) as nat, |k: int| i + k));
    }
}


/// A failed game-list answer forgets the account only when it says the
/// token is no longer accepted (401): otherwise the token, the account, the
/// game list, the selection and the page are kept, and only the notices
/// change.
pub proof fn law_loader_failed_load_keeps_account_unless_unauthorized(
    s: LoaderView,
    e: ApiError,
    now: u64,
)
    ensures
        ({
            let t = after_loader_message(s, AppMessage::Rentals(Err(e)), now);
            if e.status == Some(401u16) {
                t.token is None && t.user is None && t.rentals.len() == 0 && t.selected is None
            } else {
                &&& t.token == s.token
                &&& t.user == s.user
                &&& t.expires_at == s.expires_at
                &&& t.rentals == s.rentals
                &&& t.selected == s.selected
                &&& t.page == s.page
                &&& t.busy_label is None
            }
        }),
{
}

/// A successful account answer puts its user into the window.
pub proof fn law_loader_account_answer_holds_its_user(
    s: LoaderView,
    resp: crate::models::MeResponse,
    now: u64,
)
    ensures
        after_loader_message(s, AppMessage::Me(Ok(resp)), now).user == Some(resp.user),
        after_loader_message(s, AppMessage::Me(Ok(resp)), now).expires_at == Some(
            resp.session.expires_at@,
        ),
        after_loader_message(s, AppMessage::Me(Ok(resp)), now).token == s.token,
{
}

/// The login form is never sent with an empty password.
pub proof fn law_loader_no_login_with_empty_password(s: LoaderView, now: u64)
    requires
        s.password.len() == 0,
    ensures
        !loader_can_submit(s),
        after_loader_login(s, now).busy_label == s.busy_label,
        after_loader_login(s, now).token == s.token,
        after_loader_login(s, now).user == s.user,
{
}

} // verus!
