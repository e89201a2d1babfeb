use vstd::prelude::*;

use crate::error::{LoginError, ModelError};
use crate::model::{User, UserDetails, UserId};

verus! {

#[verifier::external_type_specification]
#[verifier::external_body]
pub struct ExBcryptError(bcrypt::BcryptError);

/// What `bcrypt::verify(password, hash)` answers: whether the password
/// matches the hash, or `None` where verification fails.
pub uninterp spec fn bcrypt_verdict(password: Seq<char>, hash: Seq<char>) -> Option<bool>;

/// Relies on `bcrypt::verify`: it reads cost and salt from the hash, hashes
/// the password with them and compares; its answer depends on the two
/// arguments alone, and a malformed hash is an error, never a panic.
#[verifier::external_body]
fn bcrypt_verify(password: &str, hash: &str) -> (r: Result<bool, bcrypt::BcryptError>)
    ensures
        match r {
            Ok(b) => bcrypt_verdict(password@, hash@) == Some(b),
            Err(_) => bcrypt_verdict(password@, hash@) is None,
        },
{
    bcrypt::verify(password, hash)
}

/// Whether `password` is accepted against the stored credential `hash`. A
/// hash that cannot be verified accepts nothing.
pub open spec fn password_accepted(password: Seq<char>, hash: Seq<char>) -> bool {
    bcrypt_verdict(password, hash) == Some(true)
}

/// The outcome of a login, given what the lookup of the name in the primary
/// store answered.
pub open spec fn login_outcome(found: Result<User, ModelError>, password: Seq<char>) -> Result<
    User,
    LoginError,
> {
    match found {
        Ok(u) => if password_accepted(password, u.password@) {
            Ok(u)
        } else {
            Err(LoginError::InvalidCredentials)
        },
        Err(ModelError::NotFound) => Err(LoginError::InvalidCredentials),
        Err(e) => Err(LoginError::InternalError(e)),
    }
}

impl User {
    /// Decides a login from the verdict on this user's hash: only a match
    /// (`Some(true)`) lets the user in; a failed verification (`None`) is
    /// treated as a mismatch.
    pub fn check_verdict(self, verdict: Option<bool>) -> (r: Result<User, LoginError>)
        ensures
            r == (if verdict == Some(true) {
                Ok::<User, LoginError>(self)
            } else {
                Err(LoginError::InvalidCredentials)
            }),
    {
        match verdict {
            Some(true) => Ok(self),
            _ => Err(LoginError::InvalidCredentials),
        }
    }

    /// Checks a login. `found` is what looking the name up in the primary
    /// store answered: a missing user and a wrong password both give
    /// `InvalidCredentials`; any other store failure is an `InternalError`.
    pub fn login(found: Result<User, ModelError>, password: &str) -> (r: Result<User, LoginError>)
        ensures
            r == login_outcome(found, password@),
    {
        match found {
            Ok(user) => {
                let verdict = match bcrypt_verify(password, user.password.as_str()) {
                    Ok(b) => Some(b),
                    Err(_) => None,
                };
                user.check_verdict(verdict)
            },
            Err(ModelError::NotFound) => Err(LoginError::InvalidCredentials),
            Err(e) => Err(LoginError::from(e)),
        }
    }
}

/// A client session: anonymous, or bound to a user's identity.
#[derive(Clone, Copy, Debug, PartialEq, Eq, Structural)]
pub enum SessionState {
    Anonymous,
    Authenticated(UserId),
}

/// The identity bound in a session, if any.
pub open spec fn identity_of(s: SessionState) -> Option<UserId> {
    match s {
        SessionState::Anonymous => None,
        SessionState::Authenticated(id) => Some(id),
    }
}

/// The session after a login attempt: bound to the user on success, as it was
/// otherwise.
pub open spec fn session_after_login(s: SessionState, found: Result<User, ModelError>, password: Seq<char>) -> SessionState {
    match login_outcome(found, password) {
        Ok(u) => SessionState::Authenticated(u.id),
        Err(_) => s,
    }
}

/// What a session check returns, given what resolving the bound identity
/// answered (ignored for an anonymous session).
pub open spec fn current_result(s: SessionState, resolved: Result<UserDetails, ModelError>) -> Result<
    Option<UserDetails>,
    ModelError,
> {
    match s {
        SessionState::Anonymous => Ok(None),
        SessionState::Authenticated(_) => match resolved {
            Ok(d) => Ok(Some(d)),
            Err(ModelError::NotFound) => Ok(None),
            Err(e) => Err(e),
        },
    }
}

/// The session after a logout.
pub open spec fn session_after_logout(s: SessionState) -> SessionState {
    SessionState::Anonymous
}

/// The session after a check: an identity that no longer resolves is purged.
pub open spec fn session_after_check(s: SessionState, resolved: Result<UserDetails, ModelError>) -> SessionState {
    match resolved {
        Err(ModelError::NotFound) => SessionState::Anonymous,
        _ => s,
    }
}

impl SessionState {
    /// The session that the session store holds: a failure to read it counts
    /// as no session at all.
    pub fn from_stored<E>(stored: Result<Option<UserId>, E>) -> (r: SessionState)
        ensures
            r == (match stored {
                Ok(Some(id)) => SessionState::Authenticated(id),
                _ => SessionState::Anonymous,
            }),
    {
        match stored {
            Ok(Some(id)) => SessionState::Authenticated(id),
            _ => SessionState::Anonymous,
        }
    }

    /// The identity bound in this session; `None` means there is nothing to
    /// resolve and the session is anonymous.
    pub fn identity(&self) -> (r: Option<UserId>)
        ensures
            r == identity_of(*self),
    {
        match self {
            SessionState::Anonymous => None,
            SessionState::Authenticated(id) => Some(*id),
        }
    }

    /// Logs in with what the lookup of the name answered; on success binds the
    /// session to the user and returns the user's public profile.
    pub fn login(&mut self, found: Result<User, ModelError>, password: &str) -> (r: Result<UserDetails, LoginError>)
        ensures
            *final(self) == session_after_login(*old(self), found, password@),
            match login_outcome(found, password@) {
                Ok(u) => r matches Ok(d) && d@ == u.details_view(),
                Err(e) => r == Err::<UserDetails, LoginError>(e),
            },
    {
        match User::login(found, password) {
            Ok(user) => {
                *self = SessionState::Authenticated(user.id);
                Ok(user.into_details())
            },
            Err(e) => Err(e),
        }
    }

    /// Checks the session, given what resolving its identity answered: the
    /// profile, `None` for an anonymous session or for an identity that no
    /// longer resolves (which also purges the binding), or the store's failure.
    pub fn current_session(&mut self, resolved: Result<UserDetails, ModelError>) -> (r: Result<
        Option<UserDetails>,
        ModelError,
    >)
        ensures
            r == current_result(*old(self), resolved),
            *final(self) == session_after_check(*old(self), resolved),
    {
        match self {
            SessionState::Anonymous => Ok(None),
            SessionState::Authenticated(_) => match resolved {
                Ok(d) => Ok(Some(d)),
                Err(ModelError::NotFound) => {
                    self.logout();
                    Ok(None)
                },
                Err(e) => Err(e),
            },
        }
    }

    /// Clears the binding; always succeeds.
    pub fn logout(&mut self)
        ensures
            *final(self) == session_after_logout(*old(self)),
    {
        *self = SessionState::Anonymous;
    }
}

/// After a successful login the session is bound to the user, and a session
/// check that resolves the identity to the same record returns the profile
/// that the login returned, keeping the session bound.
pub proof fn lemma_login_then_current_session(
    s: SessionState,
    u: User,
    password: Seq<char>,
    resolved: Result<UserDetails, ModelError>,
)
    requires
        password_accepted(password, u.password@),
        resolved matches Ok(d) && d@ == u.details_view(),
    ensures
        login_outcome(Ok(u), password) == Ok::<User, LoginError>(u),
        session_after_login(s, Ok(u), password) == SessionState::Authenticated(u.id),
        identity_of(session_after_login(s, Ok(u), password)) == Some(u.id),
        current_result(session_after_login(s, Ok(u), password), resolved) matches Ok(Some(d))
            && d@ == u.details_view(),
        session_after_check(session_after_login(s, Ok(u), password), resolved)
            == SessionState::Authenticated(u.id),
{
}

/// A session bound to an identity that no longer resolves is purged by the
/// check, which answers `None`; a second check answers `None` again, with no
/// identity left to look up.
pub proof fn lemma_dangling_identity_heals(id: UserId, later: Result<UserDetails, ModelError>)
    ensures
        current_result(SessionState::Authenticated(id), Err(ModelError::NotFound)) == Ok::<
            Option<UserDetails>,
            ModelError,
        >(None),
        session_after_check(SessionState::Authenticated(id), Err(ModelError::NotFound))
            == SessionState::Anonymous,
        identity_of(SessionState::Anonymous) is None,
        current_result(SessionState::Anonymous, later) == Ok::<Option<UserDetails>, ModelError>(None),
        session_after_check(SessionState::Anonymous, later) == SessionState::Anonymous,
{
}

/// Logging out leaves the session anonymous, and doing it again changes
/// nothing.
pub proof fn lemma_logout_idempotent(s: SessionState)
    ensures
        session_after_logout(s) == SessionState::Anonymous,
        session_after_logout(session_after_logout(s)) == session_after_logout(s),
        identity_of(session_after_logout(session_after_logout(s))) is None,
{
}

} // verus!
