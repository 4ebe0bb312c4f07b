use authium::models::User;
use authium::server::{sign_in_url, LoginRouteResponse};
use authium::user::{ProfileOutcome, RecoveryAction, RefreshOutcome, SessionManager};
use authium::{AuthError, AuthiumConfig};

const ENDPOINT: &str = "https://authium.example";

fn redirect_url(m: &mut SessionManager, key: &str, id: &str, expiry: Option<u64>) -> String {
    match m.handle_login(ENDPOINT, key, id, expiry).unwrap() {
        LoginRouteResponse::Redirect(u) => u,
        LoginRouteResponse::AlreadyLoggedIn => panic!("expected a redirect"),
    }
}

fn state_of(url: &str) -> String {
    let marker = "&state=";
    let i = url.find(marker).unwrap();
    url[i + marker.len()..].to_string()
}

fn sample_user(id: i64) -> User {
    let mut u = User::default();
    u.id = id;
    u.username = Some("sample".to_string());
    u.email = Some("sample@example.com".to_string());
    u
}

#[test]
fn login_scenario_full_round() {
    let mut m = SessionManager::new();
    let url = redirect_url(&mut m, "k1", "a1", None);
    let prefix = "https://authium.example/authorize?apiKey=k1&appId=a1&state=";
    assert!(url.starts_with(prefix));
    assert_eq!(url.len(), prefix.len() + 32);
    let state = state_of(&url);
    assert_eq!(state.len(), 32);
    assert!(state.chars().all(|c| c.is_ascii_alphanumeric()));

    let now = 1000;
    let d = m
        .handle_callback("AT".to_string(), "RT".to_string(), 3600, state, now)
        .unwrap();
    // The token expires at 4600, in the future: the refresh pass is a no-op.
    assert_eq!(d, None);

    let at = m.login_after_refresh(None, now).unwrap();
    assert_eq!(at.as_str(), "AT");

    let u = m.login_finish(ProfileOutcome::Fetched(sample_user(7))).unwrap();
    assert_eq!(u.id, 7);
    assert!(m.is_logged_in());
    assert_eq!(m.get_user().unwrap().id, 7);

    // Written through: the persisted record holds exactly AT, RT, now + 3600.
    let (a, r, e) = m.store.load().unwrap();
    assert_eq!(a.as_str(), "AT");
    assert_eq!(r.as_str(), "RT");
    assert_eq!(e, 4600);
}

#[test]
fn second_login_invalidates_first_state() {
    let mut m = SessionManager::new();
    let first = state_of(&redirect_url(&mut m, "k1", "a1", None));
    let second = state_of(&redirect_url(&mut m, "k1", "a1", None));
    assert_ne!(first, second);
    let r = m.handle_callback("AT".to_string(), "RT".to_string(), 3600, first, 0);
    assert_eq!(r.unwrap_err(), AuthError::CsrfMismatch);
    assert!(!m.is_logged_in());
    assert!(m.get_user().is_none());
}

#[test]
fn csrf_mismatch_changes_nothing() {
    let mut m = SessionManager::new();
    let state = state_of(&redirect_url(&mut m, "k1", "a1", None));
    let wrong = format!("{}x", state);
    let r = m.handle_callback("AT".to_string(), "RT".to_string(), 3600, wrong, 0);
    assert_eq!(r.unwrap_err(), AuthError::CsrfMismatch);
    assert!(!m.is_logged_in());
    // The pending authorization was not consumed: the true state still works.
    assert!(m.handle_callback("AT".to_string(), "RT".to_string(), 3600, state, 0).is_ok());
}

#[test]
fn callback_replay_is_rejected() {
    let mut m = SessionManager::new();
    let state = state_of(&redirect_url(&mut m, "k1", "a1", None));
    let replay = state.clone();
    assert!(m.handle_callback("AT".to_string(), "RT".to_string(), 3600, state, 0).is_ok());
    let r = m.handle_callback("AT".to_string(), "RT".to_string(), 3600, replay, 0);
    assert_eq!(r.unwrap_err(), AuthError::CsrfMismatch);
}

#[test]
fn callback_with_spent_token_needs_refresh_first() {
    let mut m = SessionManager::new();
    let state = state_of(&redirect_url(&mut m, "k1", "a1", None));
    // expires_in of zero: the token is already expired, so the accepted
    // callback asks for the refresh round before the profile fetch.
    let d = m
        .handle_callback("AT".to_string(), "RT".to_string(), 0, state, 500)
        .unwrap();
    assert_eq!(d.as_deref(), Some("RT"));
    assert_eq!(m.expiry, 500);
}

#[test]
fn stale_startup_with_rejected_refresh_ends_logged_out() {
    // A persisted session whose expiry is long past.
    let mut st = authium::storage::CryptoStore::new();
    st.save("AT", "RT", 5);
    let mut m = SessionManager::from_store(st);
    let now = 100;
    let action = m.startup_recovery(now);
    match action {
        RecoveryAction::RefreshWith(t) => assert_eq!(t.as_str(), "RT"),
        _ => panic!("expected a refresh round"),
    }
    // The token service rejects the stale refresh token.
    let r = m.login_after_refresh(Some(RefreshOutcome::Rejected), now);
    assert_eq!(r.unwrap_err(), AuthError::AuthRejected);
    assert!(!m.is_logged_in());
    // Invalidation is complete: the persisted record is gone too.
    assert!(m.store.raw().is_none());
    let (a, rt, e) = m.store.load().unwrap();
    assert_eq!(a.as_str(), "");
    assert_eq!(rt.as_str(), "");
    assert_eq!(e, 0);
}

#[test]
fn fresh_startup_resumes_without_refresh() {
    let mut st = authium::storage::CryptoStore::new();
    st.save("AT", "RT", 2000);
    let mut m = SessionManager::from_store(st);
    assert!(matches!(m.startup_recovery(1000), RecoveryAction::Resume));
    let at = m.login_after_refresh(None, 1000).unwrap();
    assert_eq!(at.as_str(), "AT");
    m.login_finish(ProfileOutcome::Fetched(sample_user(3))).unwrap();
    assert!(m.is_logged_in());
}

#[test]
fn startup_without_record_is_no_session() {
    let mut m = SessionManager::new();
    assert!(matches!(m.startup_recovery(0), RecoveryAction::NoSession));
    assert!(!m.is_logged_in());
    assert!(m.get_user().is_none());
}

#[test]
fn repeated_reads_are_idempotent_when_fresh() {
    let mut m = SessionManager::new();
    assert!(m.login_begin("AT".to_string(), "RT".to_string(), 2000, 1000).is_none());
    m.login_after_refresh(None, 1000).unwrap();
    m.login_finish(ProfileOutcome::Fetched(sample_user(9))).unwrap();
    // Still fresh: no refresh call is decided, twice over.
    assert!(m.refresh_decision(1000, false).is_none());
    assert!(m.refresh_decision(1000, false).is_none());
    let u1 = m.get_user().unwrap();
    let u2 = m.get_user().unwrap();
    assert_eq!(u1.id, u2.id);
    assert_eq!(u1.username, u2.username);
    assert_eq!(u1.email, u2.email);
}

#[test]
fn refresh_is_decided_when_expired_or_forced() {
    let mut m = SessionManager::new();
    assert!(m.login_begin("AT".to_string(), "RT".to_string(), 2000, 1000).is_none());
    assert_eq!(m.refresh_decision(2000, false).unwrap().as_str(), "RT");
    assert_eq!(m.refresh_decision(1000, true).unwrap().as_str(), "RT");
    assert!(m.refresh_decision(1000, false).is_none());
}

#[test]
fn refresh_success_replaces_token_in_place() {
    let mut m = SessionManager::new();
    assert!(m.login_begin("AT".to_string(), "RT".to_string(), 50, 100).is_some());
    m.login_after_refresh(
        Some(RefreshOutcome::Refreshed { access_token: "AT2".to_string(), expires_in: 60 }),
        100,
    )
    .unwrap();
    m.login_finish(ProfileOutcome::Fetched(sample_user(4))).unwrap();
    assert_eq!(m.access_token.as_ref().unwrap().as_str(), "AT2");
    assert_eq!(m.expiry, 160);
    // Written through to the store as well.
    let (a, r, e) = m.store.load().unwrap();
    assert_eq!(a.as_str(), "AT2");
    assert_eq!(r.as_str(), "RT");
    assert_eq!(e, 160);
    // A later forced refresh keeps the cached user.
    let d = m.refresh_decision(100, true).unwrap();
    assert_eq!(d.as_str(), "RT");
    m.apply_refresh_outcome(
        RefreshOutcome::Refreshed { access_token: "AT3".to_string(), expires_in: 5 },
        200,
    )
    .unwrap();
    assert_eq!(m.access_token.as_ref().unwrap().as_str(), "AT3");
    assert_eq!(m.expiry, 205);
    assert_eq!(m.get_user().unwrap().id, 4);
}

#[test]
fn network_failure_invalidates_session() {
    let mut m = SessionManager::new();
    assert!(m.login_begin("AT".to_string(), "RT".to_string(), 50, 100).is_some());
    let r = m.login_after_refresh(Some(RefreshOutcome::NetworkFailure), 100);
    assert_eq!(r.unwrap_err(), AuthError::NetworkError);
    assert!(!m.is_logged_in());
    assert!(m.store.raw().is_none());
}

#[test]
fn failed_profile_fetch_invalidates_session() {
    let mut m = SessionManager::new();
    assert!(m.login_begin("AT".to_string(), "RT".to_string(), 2000, 1000).is_none());
    m.login_after_refresh(None, 1000).unwrap();
    let r = m.login_finish(ProfileOutcome::Rejected);
    assert_eq!(r.unwrap_err(), AuthError::AuthRejected);
    assert!(!m.is_logged_in());
    assert!(m.store.raw().is_none());
}

#[test]
fn logout_clears_and_hands_back_refresh_token() {
    let mut m = SessionManager::new();
    assert!(m.login_begin("AT".to_string(), "RT".to_string(), 2000, 1000).is_none());
    m.login_after_refresh(None, 1000).unwrap();
    m.login_finish(ProfileOutcome::Fetched(sample_user(2))).unwrap();
    let t = m.logout();
    assert_eq!(t.unwrap().as_str(), "RT");
    assert!(!m.is_logged_in());
    assert!(m.get_user().is_none());
    assert!(m.store.raw().is_none());
}

#[test]
fn empty_config_is_a_config_error() {
    let mut m = SessionManager::new();
    assert_eq!(m.handle_login(ENDPOINT, "", "a1", None).unwrap_err(), AuthError::ConfigError);
    assert_eq!(m.handle_login(ENDPOINT, "k1", "", None).unwrap_err(), AuthError::ConfigError);
}

#[test]
fn login_route_is_idempotent_once_logged_in() {
    let mut m = SessionManager::new();
    assert!(m.login_begin("AT".to_string(), "RT".to_string(), 2000, 1000).is_none());
    m.login_after_refresh(None, 1000).unwrap();
    m.login_finish(ProfileOutcome::Fetched(sample_user(1))).unwrap();
    assert!(matches!(
        m.handle_login(ENDPOINT, "k1", "a1", None).unwrap(),
        LoginRouteResponse::AlreadyLoggedIn
    ));
    assert!(matches!(
        m.handle_login(ENDPOINT, "k1", "a1", None).unwrap(),
        LoginRouteResponse::AlreadyLoggedIn
    ));
    assert!(m.is_logged_in());
}

#[test]
fn redirect_carries_optional_expiry() {
    let mut m = SessionManager::new();
    let url = redirect_url(&mut m, "k1", "a1", Some(777));
    assert!(url.ends_with("&exp=777"));
}

#[test]
fn redirect_escapes_config_values() {
    let mut m = SessionManager::new();
    let url = redirect_url(&mut m, "k 1", "a/1", None);
    assert!(url.starts_with("https://authium.example/authorize?apiKey=k%201&appId=a%2F1&state="));
}

#[test]
fn sign_in_url_formats() {
    assert_eq!(sign_in_url(6483, None).as_str(), "http://localhost:6483/login");
    assert_eq!(sign_in_url(7000, Some(99)).as_str(), "http://localhost:7000/login?expiry=99");
}

#[test]
fn config_builder_keeps_values() {
    let c = AuthiumConfig::new("k1".to_string(), "a1".to_string());
    assert_eq!(c.api_key.as_ref().unwrap().as_str(), "k1");
    assert_eq!(c.app_id.as_ref().unwrap().as_str(), "a1");
    assert_eq!(c.listen_port(), 6483);
    let c = c.with_port(7777);
    assert_eq!(c.listen_port(), 7777);
}

#[test]
fn env_indirection_detects_markers() {
    assert_eq!(AuthiumConfig::env_indirection("env:API_KEY").as_deref(), Some("API_KEY"));
    assert_eq!(AuthiumConfig::env_indirection("ENV:k").as_deref(), Some("k"));
    assert_eq!(AuthiumConfig::env_indirection("env:").as_deref(), Some(""));
    assert!(AuthiumConfig::env_indirection("environment").is_none());
    assert!(AuthiumConfig::env_indirection("plain-key").is_none());
    assert!(AuthiumConfig::env_indirection("en").is_none());
}

#[test]
fn state_tokens_are_fresh_each_time() {
    let a = authium::server::rand_str(32);
    let b = authium::server::rand_str(32);
    assert_eq!(a.len(), 32);
    assert_eq!(b.len(), 32);
    assert_ne!(a, b);
}

#[test]
fn user_duplicate_is_field_exact() {
    let u = sample_user(11);
    let d = u.duplicate();
    assert_eq!(d.id, 11);
    assert_eq!(d.username.as_deref(), Some("sample"));
    assert_eq!(d.email.as_deref(), Some("sample@example.com"));
    assert!(d.avatar.is_none());
    let v = User::default();
    assert_eq!(v.id, 0);
    assert!(v.username.is_none());
}
