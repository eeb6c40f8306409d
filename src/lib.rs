//! Account registration, credential checking and session policy for a
//! single-page-application backend.
//!
//! The HTTP server, the database and the session store sit outside this
//! crate: they hand the library plain values (whether a name is taken, the
//! row a lookup found, the id an insert produced) and act on what it returns.

pub mod authenticator;
pub mod handlers;
pub mod models;
pub mod password;

pub use authenticator::{authenticate, login, session_expiry, Credentials, SessionExpiry};
pub use handlers::{DbErrorKind, HandlerError, StorageError, Violation};
pub use models::{Field, FieldError, InvalidField, User};
