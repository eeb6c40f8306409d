use vstd::prelude::*;

use crate::handlers::{HandlerError, UNAUTHORIZED};
use crate::models::User;
use crate::password::{hash_verifies, verify_password};

verus! {

/// A login request: a user name and a plaintext password.
pub struct Credentials {
    pub name: String,
    pub password: String,
}

/// When a session ends by itself.
#[derive(Clone, Copy, Debug, PartialEq, Eq, Structural)]
pub enum SessionExpiry {
    /// When the client's session ends (the browser drops the cookie).
    OnSessionEnd,
    /// After this many seconds without a request.
    OnInactivity(i64),
}

/// Seconds in an hour.
pub const SECONDS_PER_HOUR: i64 = 3600;

/// The expiry policy for a configured number of hours of inactivity:
/// a positive number ends a session after that many idle hours, anything
/// else ties the session to the client's session.
pub open spec fn expiry_of(hours: int) -> SessionExpiry {
    if 0 < hours {
        SessionExpiry::OnInactivity((hours * SECONDS_PER_HOUR) as i64)
    } else {
        SessionExpiry::OnSessionEnd
    }
}

/// The user that a login is for: the stored user found for the name, kept
/// only where the password verified against its stored hash.
pub open spec fn accepted_user(found: Option<User>, verified: bool) -> Option<User> {
    if verified {
        found
    } else {
        None
    }
}

/// Whether `password` verifies against the stored hash of `found`, if any.
pub open spec fn password_accepted(found: Option<User>, password: Seq<char>) -> bool {
    match found {
        Some(user) => hash_verifies(password, user.password@),
        None => false,
    }
}

/// The user that a login with `password` is for, given the stored user
/// found for the name.
pub open spec fn authenticated(found: Option<User>, password: Seq<char>) -> Option<User> {
    accepted_user(found, password_accepted(found, password))
}

/// The outcome of a login for the authenticated user, if any.
pub open spec fn login_outcome(user: Option<User>) -> Result<User, HandlerError> {
    match user {
        Some(u) => Ok(u),
        None => Err(HandlerError::AnyError(UNAUTHORIZED)),
    }
}

/// A stored user whose hash verifies the password logs in with it, and the
/// login answers with that user.
pub proof fn lemma_correct_password_logs_in(stored: User, password: Seq<char>)
    requires
        hash_verifies(password, stored.password@),
    ensures
        login_outcome(authenticated(Some(stored), password)) == Ok::<User, HandlerError>(stored),
{
}

/// A login fails with one and the same "unauthorized" answer whether no
/// user has the name or the password does not verify: the two cannot be
/// told apart.
pub proof fn lemma_failed_logins_alike(found: Option<User>, password: Seq<char>)
    requires
        !password_accepted(found, password),
    ensures
        login_outcome(authenticated(found, password)) == Err::<User, HandlerError>(
            HandlerError::AnyError(UNAUTHORIZED),
        ),
{
}

/// A positive configured expiry ends an idle session after exactly that
/// many hours; zero or less leaves the session to the client's session.
pub proof fn lemma_expiry_policy(hours: int)
    requires
        hours <= i64::MAX / SECONDS_PER_HOUR,
    ensures
        0 < hours ==> expiry_of(hours) == SessionExpiry::OnInactivity((hours * 3600) as i64)
            && 0 < hours * 3600 <= i64::MAX,
        hours <= 0 ==> expiry_of(hours) == SessionExpiry::OnSessionEnd,
{
    if 0 < hours {
        assert(hours * 3600 <= i64::MAX) by (nonlinear_arith)
            requires
                hours <= i64::MAX / 3600,
        ;
    }
}

/// The session expiry policy for `hours` of configured inactivity.
pub fn session_expiry(hours: i64) -> (r: SessionExpiry)
    requires
        hours <= i64::MAX / SECONDS_PER_HOUR,
    ensures
        r == expiry_of(hours as int),
{
    if 0 < hours {
        SessionExpiry::OnInactivity(hours * SECONDS_PER_HOUR)
    } else {
        SessionExpiry::OnSessionEnd
    }
}

/// Keeps the stored user found for a login only where its password
/// verified; `verified` is the verifier's answer.
pub fn accept_user(found: Option<User>, verified: bool) -> (r: Option<User>)
    ensures
        r == accepted_user(found, verified),
{
    if verified {
        found
    } else {
        None
    }
}

/// Checks credentials against the stored user found for their name.  No
/// such user and a wrong password give the same answer, `None`.
pub fn authenticate(found: Option<User>, creds: &Credentials) -> (r: Option<User>)
    ensures
        r == authenticated(found, creds.password@),
{
    let verified = match &found {
        Some(user) => verify_password(creds.password.as_str(), user.password.as_str()),
        None => false,
    };
    accept_user(found, verified)
}

/// Answers a login: the authenticated user, or an opaque "unauthorized"
/// that says nothing of why.
pub fn login(user: Option<User>) -> (r: Result<User, HandlerError>)
    ensures
        r == login_outcome(user),
{
    match user {
        Some(u) => Ok(u),
        None => Err(HandlerError::AnyError(UNAUTHORIZED)),
    }
}

} // verus!
