use vstd::prelude::*;

use crate::models::InvalidField;

verus! {

/// HTTP status of a created resource.
pub const CREATED: u16 = 201;

/// HTTP status of a request that succeeded with a body.
pub const OK: u16 = 200;

/// HTTP status of a request that succeeded without a body.
pub const NO_CONTENT: u16 = 204;

/// HTTP status of a request whose fields were refused.
pub const BAD_REQUEST: u16 = 400;

/// HTTP status of a request without valid credentials or session.
pub const UNAUTHORIZED: u16 = 401;

/// HTTP status of a missing row.
pub const NOT_FOUND: u16 = 404;

/// HTTP status of a refused write.
pub const CONFLICT: u16 = 409;

/// HTTP status of any other failure.
pub const INTERNAL_SERVER_ERROR: u16 = 500;

/// The class of database constraint that a write broke.
#[derive(Clone, Copy, Debug, PartialEq, Eq, Structural)]
pub enum Violation {
    Unique,
    Key,
    Null,
    Check,
    Other,
}

/// What the database said of a statement that it refused, by kind.
#[derive(Clone, Copy, Debug, PartialEq, Eq, Structural)]
pub enum DbErrorKind {
    UniqueViolation,
    ForeignKeyViolation,
    NotNullViolation,
    CheckViolation,
    Other,
}

/// A failure of the storage layer, as far as request handling tells them
/// apart.
#[derive(Clone, Copy, Debug, PartialEq, Eq, Structural)]
pub enum StorageError {
    /// The database refused the statement.
    Database(DbErrorKind),
    /// A query that needs a row found none.
    RowNotFound,
    /// Anything else: connection, protocol, decoding, pool.
    Other,
}

/// Why a request handler failed.
#[derive(Debug)]
pub enum HandlerError {
    /// A plain HTTP status, with no body.
    AnyError(u16),
    AuthenticatorError,
    DatabaseConflict(Violation),
    DatabaseError,
    DatabaseNotFound,
    InvalidFields(Vec<InvalidField>),
    TryFromError,
}

/// The constraint class named in the response for a database refusal.
pub open spec fn violation_of(kind: DbErrorKind) -> Violation {
    match kind {
        DbErrorKind::UniqueViolation => Violation::Unique,
        DbErrorKind::ForeignKeyViolation => Violation::Key,
        DbErrorKind::NotNullViolation => Violation::Null,
        DbErrorKind::CheckViolation => Violation::Check,
        DbErrorKind::Other => Violation::Other,
    }
}

/// The handler error that a storage failure becomes.
pub open spec fn storage_error_spec(e: StorageError) -> HandlerError {
    match e {
        StorageError::Database(kind) => HandlerError::DatabaseConflict(violation_of(kind)),
        StorageError::RowNotFound => HandlerError::DatabaseNotFound,
        StorageError::Other => HandlerError::DatabaseError,
    }
}

/// The HTTP status of the response for a handler error.
pub open spec fn status_of(e: HandlerError) -> u16 {
    match e {
        HandlerError::AnyError(status) => status,
        HandlerError::DatabaseConflict(_) => CONFLICT,
        HandlerError::DatabaseNotFound => NOT_FOUND,
        HandlerError::InvalidFields(_) => BAD_REQUEST,
        _ => INTERNAL_SERVER_ERROR,
    }
}

impl Violation {
    /// The name of the constraint class as the response body gives it.
    pub fn as_str(&self) -> (r: &'static str)
        ensures
            *self == Violation::Unique ==> r@ == "unique"@,
            *self == Violation::Key ==> r@ == "key"@,
            *self == Violation::Null ==> r@ == "null"@,
            *self == Violation::Check ==> r@ == "check"@,
            *self == Violation::Other ==> r@ == "other"@,
    {
        match self {
            Violation::Unique => "unique",
            Violation::Key => "key",
            Violation::Null => "null",
            Violation::Check => "check",
            Violation::Other => "other",
        }
    }
}

impl HandlerError {
    /// The HTTP status of the response for this error.
    pub fn status(&self) -> (r: u16)
        ensures
            r == status_of(*self),
    {
        match self {
            HandlerError::AnyError(status) => *status,
            HandlerError::DatabaseConflict(_) => CONFLICT,
            HandlerError::DatabaseNotFound => NOT_FOUND,
            HandlerError::InvalidFields(_) => BAD_REQUEST,
            _ => INTERNAL_SERVER_ERROR,
        }
    }
}

impl From<StorageError> for HandlerError {
    /// Constraint refusals become a conflict naming the constraint class, a
    /// missing row becomes "not found", everything else a generic failure.
    fn from(e: StorageError) -> (r: HandlerError)
        ensures
            r == storage_error_spec(e),
    {
        match e {
            StorageError::Database(kind) => HandlerError::DatabaseConflict(
                match kind {
                    DbErrorKind::UniqueViolation => Violation::Unique,
                    DbErrorKind::ForeignKeyViolation => Violation::Key,
                    DbErrorKind::NotNullViolation => Violation::Null,
                    DbErrorKind::CheckViolation => Violation::Check,
                    DbErrorKind::Other => Violation::Other,
                },
            ),
            StorageError::RowNotFound => HandlerError::DatabaseNotFound,
            StorageError::Other => HandlerError::DatabaseError,
        }
    }
}

impl vstd::std_specs::convert::FromSpecImpl<StorageError> for HandlerError {
    open spec fn obeys_from_spec() -> bool {
        true
    }

    open spec fn from_spec(e: StorageError) -> HandlerError {
        storage_error_spec(e)
    }
}

impl From<Vec<InvalidField>> for HandlerError {
    fn from(errs: Vec<InvalidField>) -> (r: HandlerError)
        ensures
            r == HandlerError::InvalidFields(errs),
    {
        HandlerError::InvalidFields(errs)
    }
}

impl vstd::std_specs::convert::FromSpecImpl<Vec<InvalidField>> for HandlerError {
    open spec fn obeys_from_spec() -> bool {
        true
    }

    open spec fn from_spec(errs: Vec<InvalidField>) -> HandlerError {
        HandlerError::InvalidFields(errs)
    }
}

} // verus!
