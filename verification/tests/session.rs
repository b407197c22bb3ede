use leitsys::session::{
    landing, needs_email_verification, require_auth_view, view_after_login_failure, AuthState,
    AuthView, GuardView, Landing,
};

#[test]
fn a_new_session_waits_for_the_silent_refresh() {
    let s = AuthState::new();
    assert!(s.is_restoring());
    assert!(!s.is_logged_in());
    assert_eq!(s.token(), None);
}

#[test]
fn login_then_token_gives_the_token_back() {
    let mut s = AuthState::new();
    s.login("abc".to_string());
    assert!(s.is_logged_in());
    assert_eq!(s.token(), Some("abc".to_string()));
    assert!(s.is_restoring());
    s.logout();
    assert!(!s.is_logged_in());
    assert_eq!(s.token(), None);
}

#[test]
fn the_initial_refresh_settles_the_session() {
    let mut s = AuthState::new();
    s.settle_initial_refresh(Some("fresh".to_string()));
    assert!(!s.is_restoring());
    assert_eq!(s.token(), Some("fresh".to_string()));

    let mut s = AuthState::new();
    s.settle_initial_refresh(None);
    assert!(!s.is_restoring());
    assert!(!s.is_logged_in());
    assert!(!s.wants_periodic_refresh());
}

#[test]
fn periodic_refresh_keeps_the_session_on_failure() {
    let mut s = AuthState::new();
    s.settle_initial_refresh(Some("one".to_string()));
    assert!(s.wants_periodic_refresh());
    s.apply_periodic_refresh(None);
    assert_eq!(s.token(), Some("one".to_string()));
    s.apply_periodic_refresh(Some("two".to_string()));
    assert_eq!(s.token(), Some("two".to_string()));
}

#[test]
fn guards_wait_then_route() {
    assert_eq!(require_auth_view(true, false), GuardView::Waiting);
    assert_eq!(require_auth_view(true, true), GuardView::Waiting);
    assert_eq!(require_auth_view(false, true), GuardView::Protected);
    assert_eq!(require_auth_view(false, false), GuardView::RedirectToLogin);
    assert_eq!(landing(true, true), Landing::Wait);
    assert_eq!(landing(false, true), Landing::Home);
    assert_eq!(landing(false, false), Landing::Login);
}

#[test]
fn unverified_accounts_are_sent_to_the_resend_form() {
    assert!(needs_email_verification("Please verify your email first"));
    assert!(!needs_email_verification("Invalid credentials"));
    assert!(!needs_email_verification("Verify your email"));
    assert_eq!(view_after_login_failure("please verify your email"), AuthView::ResendVerification);
    assert_eq!(view_after_login_failure("Invalid credentials"), AuthView::Login);
}

#[test]
fn restoring_never_comes_back() {
    let mut s = AuthState::new();
    s.settle_initial_refresh(None);
    s.login("a".to_string());
    s.logout();
    s.apply_periodic_refresh(Some("b".to_string()));
    s.finish_restoring();
    assert!(!s.is_restoring());
}

#[test]
fn the_refresh_cycle_keeps_the_latest_token() {
    let mut s = AuthState::new();
    s.settle_initial_refresh(Some("t0".to_string()));
    for outcome in [None, Some("t1".to_string()), None] {
        if s.wants_periodic_refresh() {
            s.apply_periodic_refresh(outcome);
        }
    }
    assert_eq!(s.token(), Some("t1".to_string()));
    assert!(!s.is_restoring());

    let mut s = AuthState::new();
    s.settle_initial_refresh(None);
    for outcome in [Some("t1".to_string())] {
        if s.wants_periodic_refresh() {
            s.apply_periodic_refresh(outcome);
        }
    }
    assert_eq!(s.token(), None);
}
