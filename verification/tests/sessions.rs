use idrac_controller::session::{
    issue, revoke, validate, AuthError, Session, SessionToken, SESSION_TTL_SECS,
};

#[test]
fn issued_token_validates_at_once() {
    let token = issue(42, 1_700_000_000);
    assert_eq!(token.user_id, 42);
    assert_eq!(token.issued_at, 1_700_000_000);
    assert_eq!(token.expires_at, 1_700_086_400);
    assert_eq!(validate(Some(token), 1_700_000_000), Ok(42));
}

#[test]
fn token_lives_for_a_day_and_no_longer() {
    let token = issue(42, 1_000);
    assert_eq!(SESSION_TTL_SECS, 86_400);
    assert_eq!(validate(Some(token), 1_000 + 86_399), Ok(42));
    assert_eq!(validate(Some(token), 1_000 + 86_400), Err(AuthError::Unauthenticated));
    assert_eq!(validate(Some(token), u64::MAX), Err(AuthError::Unauthenticated));
}

#[test]
fn missing_token_is_unauthenticated() {
    assert_eq!(validate(None, 0), Err(AuthError::Unauthenticated));
}

#[test]
fn token_from_the_future_is_unauthenticated() {
    let token = issue(7, 5_000);
    assert_eq!(validate(Some(token), 4_999), Err(AuthError::Unauthenticated));
}

#[test]
fn token_that_claims_a_longer_life_is_unauthenticated() {
    let token = SessionToken { user_id: 7, issued_at: 0, expires_at: 86_401 };
    assert_eq!(validate(Some(token), 10), Err(AuthError::Unauthenticated));
    let backwards = SessionToken { user_id: 7, issued_at: 100, expires_at: 50 };
    assert_eq!(validate(Some(backwards), 100), Err(AuthError::Unauthenticated));
}

#[test]
fn expiry_stops_at_the_end_of_time() {
    let token = issue(1, u64::MAX - 10);
    assert_eq!(token.expires_at, u64::MAX);
    assert_eq!(validate(Some(token), u64::MAX - 1), Ok(1));
    let last = issue(1, u64::MAX);
    assert_eq!(validate(Some(last), u64::MAX), Err(AuthError::Unauthenticated));
}

#[test]
fn revoked_session_is_unauthenticated() {
    let mut session = Session::anonymous();
    assert_eq!(session.user(0), Err(AuthError::Unauthenticated));
    session.sign_in(42, 100);
    assert_eq!(session.user(100), Ok(42));
    let kept = session.token;
    revoke(&mut session);
    assert_eq!(session.token, None);
    assert_eq!(session.user(100), Err(AuthError::Unauthenticated));
    assert_eq!(validate(kept, 100), Ok(42));
}
