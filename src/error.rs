use vstd::prelude::*;

verus! {

/// A failure of the primary store.
#[derive(Clone, Debug)]
pub enum ModelError {
    /// Any failure of the store other than a missing row, with its message.
    Database(String),
    /// No row matched.
    NotFound,
}

/// A failure of the cache. None of these ever reaches a caller of the
/// read-through: each one makes the read a miss.
#[derive(Clone, Debug)]
pub enum CacheError {
    /// No cache is configured.
    Disabled,
    /// The cache server failed, with its message.
    Backend(String),
    /// A blob could not be encoded or decoded.
    Codec,
}

/// A failed login.
#[derive(Clone, Debug)]
pub enum LoginError {
    /// Unknown name or wrong password; deliberately says no more.
    InvalidCredentials,
    /// The primary store failed while looking the user up.
    InternalError(ModelError),
}

/// HTTP status for a missing resource.
pub const STATUS_NOT_FOUND: u16 = 404;
/// HTTP status for a rejected login.
pub const STATUS_UNAUTHORIZED: u16 = 401;
/// HTTP status for a failure on the server's side.
pub const STATUS_INTERNAL_SERVER_ERROR: u16 = 500;

impl ModelError {
    /// The HTTP status that answers this failure.
    pub fn status_code(&self) -> (r: u16)
        ensures
            r == (if self is NotFound { STATUS_NOT_FOUND } else { STATUS_INTERNAL_SERVER_ERROR }),
    {
        match self {
            ModelError::NotFound => STATUS_NOT_FOUND,
            ModelError::Database(_) => STATUS_INTERNAL_SERVER_ERROR,
        }
    }
}

impl LoginError {
    /// The HTTP status that answers this failure.
    pub fn status_code(&self) -> (r: u16)
        ensures
            r == (if self is InvalidCredentials { STATUS_UNAUTHORIZED } else { STATUS_INTERNAL_SERVER_ERROR }),
    {
        match self {
            LoginError::InvalidCredentials => STATUS_UNAUTHORIZED,
            LoginError::InternalError(_) => STATUS_INTERNAL_SERVER_ERROR,
        }
    }
}

impl From<ModelError> for LoginError {
    fn from(e: ModelError) -> (r: LoginError)
        ensures
            r == LoginError::InternalError(e),
    {
        LoginError::InternalError(e)
    }
}

impl vstd::std_specs::convert::FromSpecImpl<ModelError> for LoginError {
    open spec fn obeys_from_spec() -> bool {
        true
    }

    open spec fn from_spec(e: ModelError) -> LoginError {
        LoginError::InternalError(e)
    }
}

} // verus!
