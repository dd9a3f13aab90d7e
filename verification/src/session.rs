//! Sessions: what a client-held token means and for how long.
//!
//! A token carries one field of application meaning, the user it was issued
//! to, together with the instant of issue and an absolute expiry. Keeping the
//! token confidential and tamper-evident is the transport's concern; a token
//! that fails that test never reaches this module and is handed on as absent.

use vstd::prelude::*;

verus! {

/// Lifetime of a session, in seconds: 24 hours.
pub const SESSION_TTL_SECS: u64 = 86_400;

/// The content of a session token.
#[derive(Clone, Copy, Debug, PartialEq, Eq, Structural)]
pub struct SessionToken {
    pub user_id: i64,
    pub issued_at: u64,
    pub expires_at: u64,
}

/// Why a request is not acted upon.
#[derive(Clone, Copy, Debug, PartialEq, Eq, Structural)]
pub enum AuthError {
    /// The session is missing, malformed or expired.
    Unauthenticated,
}

/// The session state of one request: the token the client presented, if it
/// presented a readable one.
#[derive(Clone, Copy, Debug, PartialEq, Eq, Structural)]
pub struct Session {
    pub token: Option<SessionToken>,
}

/// The instant at which a token issued at `now` expires.
pub open spec fn expiry_of(now: u64) -> u64 {
    if now as int + SESSION_TTL_SECS as int <= u64::MAX as int {
        (now + SESSION_TTL_SECS) as u64
    } else {
        u64::MAX
    }
}

/// The token that `issue` produces.
pub open spec fn issued_token(user_id: i64, now: u64) -> SessionToken {
    SessionToken { user_id, issued_at: now, expires_at: expiry_of(now) }
}

/// A token is live at `now` when it has been issued, has not expired, and
/// claims no more than the fixed lifetime.
pub open spec fn token_live(token: SessionToken, now: u64) -> bool {
    &&& token.issued_at <= now
    &&& now < token.expires_at
    &&& token.expires_at - token.issued_at <= SESSION_TTL_SECS
}

/// What validation yields for a presented token at `now`.
pub open spec fn validation(token: Option<SessionToken>, now: u64) -> Result<i64, AuthError> {
    match token {
        Some(t) => if token_live(t, now) {
            Ok(t.user_id)
        } else {
            Err(AuthError::Unauthenticated)
        },
        None => Err(AuthError::Unauthenticated),
    }
}

/// Issues a token for `user_id` at the instant `now`, expiring 24 hours later
/// (or at the end of representable time, whichever comes first).
pub fn issue(user_id: i64, now: u64) -> (token: SessionToken)
    ensures
        token == issued_token(user_id, now),
{
    SessionToken { user_id, issued_at: now, expires_at: now.saturating_add(SESSION_TTL_SECS) }
}

/// Validates a presented token at the instant `now`: the user it was issued
/// to, or `Unauthenticated` when it is absent, expired or malformed.
pub fn validate(token: Option<SessionToken>, now: u64) -> (outcome: Result<i64, AuthError>)
    ensures
        outcome == validation(token, now),
{
    match token {
        Some(t) => {
            if t.issued_at <= now && now < t.expires_at && t.expires_at - t.issued_at
                <= SESSION_TTL_SECS {
                Ok(t.user_id)
            } else {
                Err(AuthError::Unauthenticated)
            }
        },
        None => Err(AuthError::Unauthenticated),
    }
}

/// Discards the session's token. Nothing is recorded on the server side: a
/// copy of the token kept elsewhere stays live until it expires.
pub fn revoke(session: &mut Session)
    ensures
        final(session).token is None,
{
    session.token = None;
}

impl Session {
    /// A session without a token.
    pub fn anonymous() -> (session: Session)
        ensures
            session.token is None,
    {
        Session { token: None }
    }

    /// Replaces the session's token by one freshly issued for `user_id`.
    pub fn sign_in(&mut self, user_id: i64, now: u64)
        ensures
            final(self).token == Some(issued_token(user_id, now)),
    {
        self.token = Some(issue(user_id, now));
    }

    /// The authenticated user at `now`, if there is one.
    pub fn user(&self, now: u64) -> (outcome: Result<i64, AuthError>)
        ensures
            outcome == validation(self.token, now),
    {
        validate(self.token, now)
    }
}

/// A freshly issued token validates at once to the user it was issued to,
/// at every instant but the last representable one.
pub proof fn lemma_issued_token_validates(user_id: i64, now: u64)
    requires
        now < u64::MAX,
    ensures
        validation(Some(issued_token(user_id, now)), now) == Ok::<i64, AuthError>(user_id),
{
}

/// Once 24 hours have elapsed since issue, the token no longer validates.
pub proof fn lemma_token_expires(user_id: i64, now: u64, later: u64)
    requires
        later >= now + SESSION_TTL_SECS,
    ensures
        validation(Some(issued_token(user_id, now)), later) == Err::<i64, AuthError>(
            AuthError::Unauthenticated,
        ),
{
}

/// Until 24 hours have elapsed, the token keeps validating to its user.
pub proof fn lemma_token_lives_for_a_day(user_id: i64, now: u64, later: u64)
    requires
        now <= later < now + SESSION_TTL_SECS,
        later < u64::MAX,
    ensures
        validation(Some(issued_token(user_id, now)), later) == Ok::<i64, AuthError>(user_id),
{
}

/// A revoked session validates to nobody, whenever it is looked at.
pub proof fn lemma_absent_token_is_unauthenticated(now: u64)
    ensures
        validation(None, now) == Err::<i64, AuthError>(AuthError::Unauthenticated),
{
}

} // verus!
