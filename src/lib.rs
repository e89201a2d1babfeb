//! Data-access core of a small web service: the user model, a read-through
//! cache connector over a primary store, and session-based authentication.
//!
//! Everything that waits on a database, a cache server or a client session is
//! left to the caller: the library takes what those answered as plain values
//! and decides what happens next.

pub mod auth;
pub mod codec;
pub mod connector;
pub mod error;
pub mod key;
pub mod model;

pub use auth::SessionState;
pub use codec::CacheValue;
pub use connector::{Connector, ReadStep};
pub use error::{
    CacheError, LoginError, ModelError, STATUS_INTERNAL_SERVER_ERROR, STATUS_NOT_FOUND,
    STATUS_UNAUTHORIZED,
};
pub use key::details_cache_key;
pub use model::{Timestamp, User, UserDetails, UserDetailsView, UserId, UserRole};
