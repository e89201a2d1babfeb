use social_todo_server::{
    LoginError, ModelError, SessionState, Timestamp, User, UserDetails, UserId, UserRole,
    STATUS_INTERNAL_SERVER_ERROR, STATUS_NOT_FOUND, STATUS_UNAUTHORIZED,
};

fn alice() -> User {
    User {
        id: UserId(3),
        name: "alice".to_string(),
        password: bcrypt::hash("correct", 4).unwrap(),
        role: UserRole::User,
        created_at: Timestamp { micros: 1_000 },
        updated_at: Timestamp { micros: 2_000 },
        last_login_at: None,
    }
}

fn is_alice(d: &UserDetails) -> bool {
    d.id == UserId(3) && d.name == "alice" && d.role == UserRole::User && d.created_at.micros == 1_000
}

#[test]
fn login_unknown_user() {
    let mut s = SessionState::Anonymous;
    let r = s.login(Err(ModelError::NotFound), "anything");
    assert!(matches!(r, Err(LoginError::InvalidCredentials)));
    assert_eq!(s, SessionState::Anonymous);
}

#[test]
fn login_wrong_password() {
    let mut s = SessionState::Anonymous;
    let r = s.login(Ok(alice()), "wrong");
    assert!(matches!(r, Err(LoginError::InvalidCredentials)));
    assert_eq!(s, SessionState::Anonymous);
}

#[test]
fn login_success_then_current_session() {
    let mut s = SessionState::Anonymous;
    let d = s.login(Ok(alice()), "correct").unwrap();
    assert!(is_alice(&d));
    assert_eq!(s, SessionState::Authenticated(UserId(3)));
    assert_eq!(s.identity(), Some(UserId(3)));
    let again = s.current_session(Ok(alice().into_details())).unwrap().unwrap();
    assert!(is_alice(&again));
    assert_eq!(s, SessionState::Authenticated(UserId(3)));
}

#[test]
fn login_store_failure_is_internal() {
    let r = User::login(Err(ModelError::Database("timeout".to_string())), "correct");
    assert!(matches!(r, Err(LoginError::InternalError(ModelError::Database(m))) if m == "timeout"));
}

#[test]
fn login_malformed_hash_is_invalid_credentials() {
    let mut u = alice();
    u.password = "not a bcrypt hash".to_string();
    assert!(matches!(User::login(Ok(u), "correct"), Err(LoginError::InvalidCredentials)));
}

#[test]
fn user_login_returns_full_record() {
    let u = User::login(Ok(alice()), "correct").unwrap();
    assert_eq!(u.name, "alice");
    assert!(u.password.starts_with("$2"));
}

#[test]
fn check_verdict_only_accepts_match() {
    assert!(alice().check_verdict(Some(true)).is_ok());
    assert!(matches!(alice().check_verdict(Some(false)), Err(LoginError::InvalidCredentials)));
    assert!(matches!(alice().check_verdict(None), Err(LoginError::InvalidCredentials)));
}

#[test]
fn self_healing_session() {
    let mut s = SessionState::Authenticated(UserId(9));
    assert_eq!(s.identity(), Some(UserId(9)));
    assert!(matches!(s.current_session(Err(ModelError::NotFound)), Ok(None)));
    assert_eq!(s, SessionState::Anonymous);
    assert_eq!(s.identity(), None);
    assert!(matches!(s.current_session(Err(ModelError::NotFound)), Ok(None)));
    assert_eq!(s, SessionState::Anonymous);
}

#[test]
fn session_check_propagates_store_failure() {
    let mut s = SessionState::Authenticated(UserId(9));
    let r = s.current_session(Err(ModelError::Database("down".to_string())));
    assert!(matches!(r, Err(ModelError::Database(_))));
    assert_eq!(s, SessionState::Authenticated(UserId(9)));
}

#[test]
fn anonymous_session_is_none() {
    let mut s = SessionState::Anonymous;
    assert!(matches!(s.current_session(Ok(alice().into_details())), Ok(None)));
    assert_eq!(s, SessionState::Anonymous);
}

#[test]
fn logout_idempotent() {
    let mut s = SessionState::Authenticated(UserId(1));
    s.logout();
    assert_eq!(s, SessionState::Anonymous);
    s.logout();
    assert_eq!(s, SessionState::Anonymous);
}

#[test]
fn status_codes() {
    assert_eq!(ModelError::NotFound.status_code(), STATUS_NOT_FOUND);
    assert_eq!(ModelError::Database("x".to_string()).status_code(), STATUS_INTERNAL_SERVER_ERROR);
    assert_eq!(LoginError::InvalidCredentials.status_code(), STATUS_UNAUTHORIZED);
    assert_eq!(LoginError::InternalError(ModelError::NotFound).status_code(), STATUS_INTERNAL_SERVER_ERROR);
    assert_eq!(STATUS_NOT_FOUND, 404);
    assert_eq!(STATUS_UNAUTHORIZED, 401);
    assert_eq!(STATUS_INTERNAL_SERVER_ERROR, 500);
    assert!(matches!(LoginError::from(ModelError::NotFound), LoginError::InternalError(ModelError::NotFound)));
}

#[test]
fn details_projection() {
    let u = alice();
    assert!(is_alice(&u.as_details()));
    assert!(is_alice(&u.into_details()));
}

#[test]
fn stored_session_lookup() {
    assert_eq!(SessionState::from_stored::<()>(Ok(Some(UserId(4)))), SessionState::Authenticated(UserId(4)));
    assert_eq!(SessionState::from_stored::<()>(Ok(None)), SessionState::Anonymous);
    assert_eq!(SessionState::from_stored(Err("bad cookie")), SessionState::Anonymous);
}
