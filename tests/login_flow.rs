use datastar_axum_todolist::correlation::LoginRequests;
use datastar_axum_todolist::flow::{
    validity, AuthError, IdTokenStatus, Introspection, LoginCallback, TokenGrant, UserInfo,
};
use datastar_axum_todolist::model::{OidcState, PendingAction, UserId};
use datastar_axum_todolist::sessions::{OidcAuthBackend, OidcConfig};

const SUBJECT: &str = "11111111-1111-1111-1111-111111111111";
const SUBJECT_VALUE: u128 = 0x11111111_1111_1111_1111_111111111111;

fn config(scopes: &[&str]) -> OidcConfig {
    OidcConfig {
        client_id: "client".to_string(),
        client_secret: "SECRET-REDACTED".to_string(),
        issuer_url: "https://idp.example".to_string(),
        redirect_url: "http://127.0.0.1:3000/login/authorization/callback".to_string(),
        scopes: scopes.iter().map(|s| s.to_string()).collect(),
    }
}

fn callback(state: Option<&str>, code: Option<&str>) -> LoginCallback {
    LoginCallback {
        error: None,
        error_description: None,
        state: state.map(|s| s.to_string()),
        code: code.map(|s| s.to_string()),
        iss: Some("https://idp.example".to_string()),
    }
}

fn grant(token: &str) -> TokenGrant {
    TokenGrant { access_token: token.to_string(), id_token: IdTokenStatus::Accepted }
}

fn subject(s: &str) -> UserInfo {
    UserInfo { subject: Some(s.to_string()) }
}

#[test]
fn token_is_answered_once() {
    let mut reqs = LoginRequests::new();
    let action = Some(PendingAction::CheckNote(7));
    let t = reqs.issue(OidcState { action: action.clone() }).unwrap();
    assert!(reqs.contains(t));
    let first = reqs.take(t);
    assert_eq!(first.map(|s| s.action), Some(action));
    assert!(reqs.take(t).is_none());
    assert!(!reqs.contains(t));
}

#[test]
fn put_replaces_and_take_of_unknown_token_finds_nothing() {
    let mut reqs = LoginRequests::new();
    reqs.put(5, OidcState { action: None });
    reqs.put(5, OidcState { action: Some(PendingAction::DeleteNote(9)) });
    assert!(reqs.take(6).is_none());
    assert_eq!(reqs.take(5).unwrap().action, Some(PendingAction::DeleteNote(9)));
}

#[test]
fn scopes_are_joined_with_spaces() {
    let backend = OidcAuthBackend::new(&config(&["openid", "email", "profile"]));
    assert_eq!(backend.scopes(), "openid email profile");
    let none = OidcAuthBackend::new(&config(&[]));
    assert_eq!(none.scopes(), "");
}

#[test]
fn missing_issuer_is_rejected_first() {
    let mut backend = OidcAuthBackend::new(&config(&["openid"]));
    let mut cb = callback(None, None);
    cb.iss = None;
    cb.error = Some("access_denied".to_string());
    assert_eq!(backend.begin_callback(cb).err(), Some(AuthError::MissingIssuer));
}

#[test]
fn provider_error_is_reported_with_its_message() {
    let mut backend = OidcAuthBackend::new(&config(&["openid"]));
    let mut cb = callback(None, Some("abc"));
    cb.error = Some("access_denied".to_string());
    cb.error_description = Some("user said no".to_string());
    assert_eq!(
        backend.begin_callback(cb).err(),
        Some(AuthError::OidcProviderError("access_denied".to_string()))
    );
}

#[test]
fn missing_state_is_rejected() {
    let mut backend = OidcAuthBackend::new(&config(&["openid"]));
    assert_eq!(
        backend.begin_callback(callback(None, Some("abc"))).err(),
        Some(AuthError::MissingState)
    );
}

#[test]
fn unknown_state_is_rejected() {
    let mut backend = OidcAuthBackend::new(&config(&["openid"]));
    let cb = callback(Some("00000000-0000-0000-0000-000000000000"), Some("abc"));
    assert_eq!(backend.begin_callback(cb).err(), Some(AuthError::UnknownOrReplayedState));
}

#[test]
fn unparsable_state_is_rejected() {
    let mut backend = OidcAuthBackend::new(&config(&["openid"]));
    backend.issue_login_state(OidcState { action: None }).unwrap();
    let cb = callback(Some("not-a-token"), Some("abc"));
    assert_eq!(backend.begin_callback(cb).err(), Some(AuthError::UnknownOrReplayedState));
}

#[test]
fn callback_without_code_is_an_invalid_flow_and_consumes_the_state() {
    let mut backend = OidcAuthBackend::new(&config(&["openid"]));
    let state = backend.issue_login_state(OidcState { action: None }).unwrap();
    let cb = callback(Some(&state), None);
    assert_eq!(backend.begin_callback(cb).err(), Some(AuthError::InvalidFlow));
    let again = callback(Some(&state), Some("abc"));
    assert_eq!(backend.begin_callback(again).err(), Some(AuthError::UnknownOrReplayedState));
}

#[test]
fn replayed_callback_is_rejected() {
    let mut backend = OidcAuthBackend::new(&config(&["openid"]));
    let state = backend.issue_login_state(OidcState { action: None }).unwrap();
    let first = backend.begin_callback(callback(Some(&state), Some("abc")));
    assert_eq!(first.unwrap().code, "abc");
    let second = backend.begin_callback(callback(Some(&state), Some("abc")));
    assert_eq!(second.err(), Some(AuthError::UnknownOrReplayedState));
}

#[test]
fn issued_state_is_a_uuid_text() {
    let mut backend = OidcAuthBackend::new(&config(&["openid"]));
    let state = backend.issue_login_state(OidcState { action: None }).unwrap();
    assert_eq!(state.len(), 36);
    assert!(uuid::Uuid::parse_str(&state).is_ok());
}

#[test]
fn failed_code_exchange_is_reported() {
    let mut backend = OidcAuthBackend::new(&config(&["openid"]));
    let state = backend.issue_login_state(OidcState { action: None }).unwrap();
    let pending = backend.begin_callback(callback(Some(&state), Some("abc"))).unwrap();
    assert_eq!(pending.accept_grant(None).err(), Some(AuthError::TokenExchangeFailure));
}

#[test]
fn missing_or_rejected_id_token_fails_validation() {
    let mut backend = OidcAuthBackend::new(&config(&["openid"]));
    for status in [IdTokenStatus::Missing, IdTokenStatus::Rejected] {
        let state = backend.issue_login_state(OidcState { action: None }).unwrap();
        let pending = backend.begin_callback(callback(Some(&state), Some("abc"))).unwrap();
        let g = TokenGrant { access_token: "tok".to_string(), id_token: status };
        assert_eq!(pending.accept_grant(Some(g)).err(), Some(AuthError::TokenValidationFailure));
    }
}

#[test]
fn failed_userinfo_or_missing_subject_is_reported() {
    let mut backend = OidcAuthBackend::new(&config(&["openid"]));
    for info in [None, Some(UserInfo { subject: None })] {
        let state = backend.issue_login_state(OidcState { action: None }).unwrap();
        let pending = backend.begin_callback(callback(Some(&state), Some("abc"))).unwrap();
        let granted = pending.accept_grant(Some(grant("tok"))).unwrap();
        assert_eq!(granted.identify(info).err(), Some(AuthError::UserinfoFetchFailure));
    }
}

#[test]
fn subject_uuid_gives_the_user_id() {
    let mut backend = OidcAuthBackend::new(&config(&["openid"]));
    let state = backend.issue_login_state(OidcState { action: None }).unwrap();
    let pending = backend.begin_callback(callback(Some(&state), Some("abc"))).unwrap();
    let granted = pending.accept_grant(Some(grant("tok"))).unwrap();
    let login = granted.identify(Some(subject(SUBJECT))).unwrap();
    assert_eq!(login.user_id, UserId(SUBJECT_VALUE));
}

#[test]
fn subject_that_is_no_uuid_gets_the_fallback() {
    let mut backend = OidcAuthBackend::new(&config(&["openid"]));
    let state = backend.issue_login_state(OidcState { action: None }).unwrap();
    let pending = backend.begin_callback(callback(Some(&state), Some("abc"))).unwrap();
    let granted = pending.accept_grant(Some(grant("tok"))).unwrap();
    let login = granted.identify_with(Some(subject("alice")), None, 42).unwrap();
    assert_eq!(login.user_id, UserId(42));
}

#[test]
fn same_subject_gives_same_id_and_different_subjects_differ() {
    let mut backend = OidcAuthBackend::new(&config(&["openid"]));
    let mut ids = Vec::new();
    for s in [SUBJECT, SUBJECT, "22222222-2222-2222-2222-222222222222"] {
        let state = backend.issue_login_state(OidcState { action: None }).unwrap();
        let pending = backend.begin_callback(callback(Some(&state), Some("abc"))).unwrap();
        let granted = pending.accept_grant(Some(grant("tok"))).unwrap();
        ids.push(granted.identify(Some(subject(s))).unwrap().user_id);
    }
    assert_eq!(ids[0], ids[1]);
    assert_ne!(ids[0], ids[2]);
}

#[test]
fn introspection_verdicts() {
    let now = 1_000_000;
    assert_eq!(validity(None, now), Err(AuthError::IntrospectionFailure));
    let no_exp = Introspection { active: true, exp: None };
    assert_eq!(validity(Some(no_exp), now), Err(AuthError::IntrospectionFailure));
    let inactive = Introspection { active: false, exp: Some(now + 60) };
    assert_eq!(validity(Some(inactive), now), Err(AuthError::InactiveOrExpiredToken));
    let expired = Introspection { active: true, exp: Some(now - 1) };
    assert_eq!(validity(Some(expired), now), Err(AuthError::InactiveOrExpiredToken));
    let lapsed = Introspection { active: false, exp: Some(now) };
    assert_eq!(validity(Some(lapsed), now), Ok(0));
    let live = Introspection { active: true, exp: Some(now + 3600) };
    assert_eq!(validity(Some(live), now), Ok(3600));
    let far = Introspection { active: true, exp: Some(i64::MAX) };
    assert_eq!(validity(Some(far), i64::MIN), Ok(u64::MAX));
}

#[test]
fn completed_login_creates_the_session() {
    let now = 1_700_000_000;
    let mut backend = OidcAuthBackend::new(&config(&["openid"]));
    let state = backend.issue_login_state(OidcState { action: None }).unwrap();
    let pending = backend.begin_callback(callback(Some(&state), Some("abc"))).unwrap();
    let granted = pending.accept_grant(Some(grant("access-123"))).unwrap();
    let login = granted.identify(Some(subject(SUBJECT))).unwrap();
    let live = Introspection { active: true, exp: Some(now + 3600) };
    let session = backend.establish(login, Some(live), now).unwrap();
    assert_eq!(session.id, UserId(SUBJECT_VALUE));
    assert_eq!(session.expiration, 3600);
    assert_eq!(session.last_health_check, now);
    assert_eq!(session.access_token, "access-123");
    assert_eq!(
        session.session_auth_hash(),
        blake3::hash("access-123".as_bytes()).as_bytes()
    );
    assert_ne!(session.session_auth_hash(), "access-123".as_bytes());
    assert_eq!(session.pending_action, None);
}

#[test]
fn inactive_token_at_login_creates_no_session() {
    let now = 1_700_000_000;
    let mut backend = OidcAuthBackend::new(&config(&["openid"]));
    let state = backend.issue_login_state(OidcState { action: None }).unwrap();
    let pending = backend.begin_callback(callback(Some(&state), Some("abc"))).unwrap();
    let granted = pending.accept_grant(Some(grant("tok"))).unwrap();
    let login = granted.identify(Some(subject(SUBJECT))).unwrap();
    let inactive = Introspection { active: false, exp: Some(now + 60) };
    assert_eq!(
        backend.establish(login, Some(inactive), now).err(),
        Some(AuthError::InactiveOrExpiredToken)
    );
    let lookup = backend.begin_lookup(UserId(SUBJECT_VALUE), now);
    assert!(matches!(lookup, datastar_axum_todolist::sessions::SessionLookup::Absent));
}

#[test]
fn pending_action_survives_the_login() {
    let now = 1_700_000_000;
    let mut backend = OidcAuthBackend::new(&config(&["openid"]));
    let action = PendingAction::EditNote(3, "new text".to_string());
    let state = backend.issue_login_state(OidcState { action: Some(action.clone()) }).unwrap();
    let pending = backend.begin_callback(callback(Some(&state), Some("abc"))).unwrap();
    let granted = pending.accept_grant(Some(grant("tok"))).unwrap();
    let login = granted.identify(Some(subject(SUBJECT))).unwrap();
    let live = Introspection { active: true, exp: Some(now + 3600) };
    let mut session = backend.establish(login, Some(live), now).unwrap();
    assert_eq!(session.pending_action, Some(action.clone()));
    assert_eq!(session.take_pending_action(), Some(action));
    assert_eq!(session.pending_action, None);
    assert_eq!(session.take_pending_action(), None);
}

#[test]
fn default_login_state_has_no_action() {
    assert_eq!(OidcState::default().action, None);
    let mut backend = OidcAuthBackend::new(&config(&["openid"]));
    let state = backend.issue_login_state(OidcState::default()).unwrap();
    let pending = backend.begin_callback(callback(Some(&state), Some("abc"))).unwrap();
    assert_eq!(pending.action, None);
}

#[test]
fn put_fresh_keeps_a_token_in_use() {
    let mut reqs = LoginRequests::new();
    assert!(reqs.put_fresh(5, OidcState { action: Some(PendingAction::CheckNote(1)) }));
    assert!(!reqs.put_fresh(5, OidcState { action: Some(PendingAction::DeleteNote(2)) }));
    assert_eq!(reqs.take(5).unwrap().action, Some(PendingAction::CheckNote(1)));
}

#[test]
fn every_attempt_gets_its_own_token() {
    let mut reqs = LoginRequests::new();
    let mut tokens = Vec::new();
    for i in 0..50u128 {
        tokens.push(reqs.issue(OidcState { action: Some(PendingAction::CheckNote(i)) }).unwrap());
    }
    let mut sorted = tokens.clone();
    sorted.sort();
    sorted.dedup();
    assert_eq!(sorted.len(), 50);
    for (i, t) in tokens.iter().enumerate() {
        assert_eq!(reqs.take(*t).unwrap().action, Some(PendingAction::CheckNote(i as u128)));
    }
}
