//! The client's session: the access token held in memory, the silent
//! refresh that restores it on page load and keeps it fresh, the decisions
//! of the route guards, and the switching between the forms of the login
//! page.

use vstd::prelude::*;
use crate::text::{contains_str, contains_text};

verus! {

/// The access token expires after 15 minutes on the server; the client
/// refreshes it every 12 minutes so an open tab never holds an expired one.
pub const REFRESH_INTERVAL_SECS: u64 = 720;

/// How long an access token issued by the server stays valid.
pub const ACCESS_TOKEN_LIFETIME_SECS: u64 = 900;

/// A periodic refresh comes before the token in hand expires.
pub proof fn lemma_refresh_precedes_expiry()
    ensures
        REFRESH_INTERVAL_SECS < ACCESS_TOKEN_LIFETIME_SECS,
{
}

pub open spec fn token_view(t: Option<String>) -> Option<Seq<char>> {
    match t {
        Some(s) => Some(s@),
        None => None,
    }
}

/// The session state: the access token, if any, and whether the initial
/// silent refresh (against the refresh cookie) is still under way.
pub struct AuthState {
    access_token: Option<String>,
    restoring: bool,
}

/// The abstract session: the token's text and the restoring flag.
pub struct AuthModel {
    pub token: Option<Seq<char>>,
    pub restoring: bool,
}

impl View for AuthState {
    type V = AuthModel;

    closed spec fn view(&self) -> AuthModel {
        AuthModel { token: token_view(self.access_token), restoring: self.restoring }
    }
}

/// The session after a successful log-in with `token`.
pub open spec fn logged_in_with(s: AuthModel, token: Seq<char>) -> AuthModel {
    AuthModel { token: Some(token), restoring: s.restoring }
}

/// The session after logging out.
pub open spec fn logged_out(s: AuthModel) -> AuthModel {
    AuthModel { token: None, restoring: s.restoring }
}

/// The session once the initial silent refresh has settled.
pub open spec fn restored(s: AuthModel) -> AuthModel {
    AuthModel { token: s.token, restoring: false }
}

impl AuthState {
    /// The state at page load: no token yet, and the silent refresh pending.
    pub fn new() -> (r: AuthState)
        ensures
            r@ == (AuthModel { token: None, restoring: true }),
    {
        AuthState { access_token: None, restoring: true }
    }

    pub fn login(&mut self, access_token: String)
        ensures
            final(self)@ == logged_in_with(old(self)@, access_token@),
    {
        self.access_token = Some(access_token);
    }

    pub fn logout(&mut self)
        ensures
            final(self)@ == logged_out(old(self)@),
    {
        self.access_token = None;
    }

    pub fn is_logged_in(&self) -> (r: bool)
        ensures
            r == self@.token is Some,
    {
        self.access_token.is_some()
    }

    pub fn is_restoring(&self) -> (r: bool)
        ensures
            r == self@.restoring,
    {
        self.restoring
    }

    pub fn finish_restoring(&mut self)
        ensures
            final(self)@ == restored(old(self)@),
    {
        self.restoring = false;
    }

    pub fn token(&self) -> (r: Option<String>)
        ensures
            token_view(r) == self@.token,
    {
        match &self.access_token {
            Some(t) => Some(t.clone()),
            None => None,
        }
    }

    /// Applies the outcome of the silent refresh made at page load: a fresh
    /// token logs the user in; either way the restoring phase ends.
    pub fn settle_initial_refresh(&mut self, refreshed: Option<String>)
        ensures
            final(self)@ == restored(
                match refreshed {
                    Some(t) => logged_in_with(old(self)@, t@),
                    None => old(self)@,
                },
            ),
    {
        match refreshed {
            Some(t) => self.login(t),
            None => {},
        }
        self.finish_restoring();
    }

    /// Whether a periodic refresh is due: only a logged-in session is
    /// refreshed.
    pub fn wants_periodic_refresh(&self) -> (r: bool)
        ensures
            r == self@.token is Some,
    {
        self.is_logged_in()
    }

    /// Applies the outcome of a periodic refresh: a fresh token replaces the
    /// old one; a failure leaves the session as it was.
    pub fn apply_periodic_refresh(&mut self, refreshed: Option<String>)
        ensures
            final(self)@ == match refreshed {
                Some(t) => logged_in_with(old(self)@, t@),
                None => old(self)@,
            },
    {
        match refreshed {
            Some(t) => self.login(t),
            None => {},
        }
    }
}

/// Logging in and then reading the token gives back the token that was
/// stored; logging out leaves no token; neither touches the restoring flag,
/// and settling the restore keeps the token.
pub proof fn lemma_session_read_after_write(s: AuthModel, token: Seq<char>)
    ensures
        logged_in_with(s, token).token == Some(token),
        logged_in_with(s, token).restoring == s.restoring,
        logged_out(s).token is None,
        logged_out(s).restoring == s.restoring,
        restored(s).token == s.token,
        !restored(s).restoring,
        logged_out(logged_in_with(s, token)) == logged_out(s),
        restored(restored(s)) == restored(s),
{
}

/// Something that changes the session.
pub enum SessionEvent {
    Login(Seq<char>),
    Logout,
    FinishRestoring,
    /// The outcome of the silent refresh made at page load.
    InitialRefresh(Option<Seq<char>>),
    /// The outcome of a periodic refresh.
    PeriodicRefresh(Option<Seq<char>>),
}

/// The session after one event, as the `AuthState` method for that event
/// leaves it.
pub open spec fn after_event(s: AuthModel, e: SessionEvent) -> AuthModel {
    match e {
        SessionEvent::Login(t) => logged_in_with(s, t),
        SessionEvent::Logout => logged_out(s),
        SessionEvent::FinishRestoring => restored(s),
        SessionEvent::InitialRefresh(r) => restored(
            match r {
                Some(t) => logged_in_with(s, t),
                None => s,
            },
        ),
        SessionEvent::PeriodicRefresh(r) => match r {
            Some(t) => logged_in_with(s, t),
            None => s,
        },
    }
}

/// The session after a sequence of events, in order.
pub open spec fn after_events(s: AuthModel, events: Seq<SessionEvent>) -> AuthModel
    decreases events.len(),
{
    if events.len() == 0 {
        s
    } else {
        after_event(after_events(s, events.drop_last()), events.last())
    }
}

/// The restoring phase only ends: once the session is no longer restoring,
/// no sequence of events makes it restoring again.
pub proof fn lemma_restoring_never_returns(s: AuthModel, events: Seq<SessionEvent>)
    requires
        !s.restoring,
    ensures
        !after_events(s, events).restoring,
    decreases events.len(),
{
    if events.len() > 0 {
        lemma_restoring_never_returns(s, events.drop_last());
    }
}

/// The periodic refreshes after the initial one: each tick refreshes only a
/// logged-in session, applying the tick's outcome.
pub open spec fn after_ticks(s: AuthModel, outcomes: Seq<Option<Seq<char>>>) -> AuthModel
    decreases outcomes.len(),
{
    if outcomes.len() == 0 {
        s
    } else {
        let before = after_ticks(s, outcomes.drop_last());
        if before.token is Some {
            after_event(before, SessionEvent::PeriodicRefresh(outcomes.last()))
        } else {
            before
        }
    }
}

/// The token that the latest successful refresh gave, among `initial` and
/// then `outcomes`.
pub open spec fn latest_token(initial: Seq<char>, outcomes: Seq<Option<Seq<char>>>) -> Seq<char>
    decreases outcomes.len(),
{
    if outcomes.len() == 0 {
        initial
    } else {
        match outcomes.last() {
            Some(t) => t,
            None => latest_token(initial, outcomes.drop_last()),
        }
    }
}

/// The refresh cycle of an open page: starting as at page load, the initial
/// refresh settles the restoring phase for good; a session is held
/// afterwards exactly when the initial refresh succeeded, and its token is
/// the one from the latest successful refresh (a failed periodic refresh
/// keeps the token).
pub proof fn lemma_refresh_cycle(initial: Option<Seq<char>>, outcomes: Seq<Option<Seq<char>>>)
    ensures
        ({
            let start = AuthModel { token: None, restoring: true };
            let settled = after_event(start, SessionEvent::InitialRefresh(initial));
            let end = after_ticks(settled, outcomes);
            &&& !settled.restoring
            &&& settled.token == initial
            &&& !end.restoring
            &&& (end.token is Some <==> initial is Some)
            &&& (initial matches Some(t) ==> end.token == Some(latest_token(t, outcomes)))
        }),
    decreases outcomes.len(),
{
    if outcomes.len() > 0 {
        lemma_refresh_cycle(initial, outcomes.drop_last());
    }
}

/// What a page behind the authentication guard shows.
#[derive(Clone, Copy, Debug, PartialEq, Eq, Structural)]
pub enum GuardView {
    /// The silent refresh has not settled: show an empty page rather than
    /// flash protected content.
    Waiting,
    /// A session is present: render the nested route.
    Protected,
    /// No session: show an empty page and redirect to the login page.
    RedirectToLogin,
}

/// The decision of the guard around `/home`, `/settings` and `/contact`.
pub fn require_auth_view(restoring: bool, logged_in: bool) -> (r: GuardView)
    ensures
        restoring ==> r == GuardView::Waiting,
        !restoring && logged_in ==> r == GuardView::Protected,
        !restoring && !logged_in ==> r == GuardView::RedirectToLogin,
{
    if restoring {
        GuardView::Waiting
    } else if logged_in {
        GuardView::Protected
    } else {
        GuardView::RedirectToLogin
    }
}

/// Where the root route `/` sends the user.
#[derive(Clone, Copy, Debug, PartialEq, Eq, Structural)]
pub enum Landing {
    /// Wait for the silent refresh to settle.
    Wait,
    Home,
    Login,
}

pub fn landing(restoring: bool, logged_in: bool) -> (r: Landing)
    ensures
        restoring ==> r == Landing::Wait,
        !restoring && logged_in ==> r == Landing::Home,
        !restoring && !logged_in ==> r == Landing::Login,
{
    if restoring {
        Landing::Wait
    } else if logged_in {
        Landing::Home
    } else {
        Landing::Login
    }
}

/// The form shown on the login page.
#[derive(Clone, Copy, Debug, PartialEq, Eq, Structural)]
pub enum AuthView {
    Login,
    Signup,
    ForgotPassword,
    ResendVerification,
}

/// Whether a failed log-in's message says the account's email still needs
/// verifying.
pub fn needs_email_verification(message: &str) -> (r: bool)
    ensures
        r == contains_text(message@, "verify your email"@),
{
    contains_str(message, "verify your email")
}

/// The form to show after a failed log-in: the resend-verification form
/// where the email still needs verifying, else the login form again.
pub fn view_after_login_failure(message: &str) -> (r: AuthView)
    ensures
        r == if contains_text(message@, "verify your email"@) {
            AuthView::ResendVerification
        } else {
            AuthView::Login
        },
{
    if needs_email_verification(message) {
        AuthView::ResendVerification
    } else {
        AuthView::Login
    }
}

} // verus!
