//! The errors of the Superoxide server and the exit codes they end the process with.
use vstd::prelude::*;
use vstd::std_specs::convert::FromSpecImpl;

use crate::database::DatabaseError;

verus! {

/// The error type of the `password-hash` crate (re-exported by `argon2`),
/// carried through unopened.
#[verifier::external_type_specification]
#[verifier::external_body]
pub struct ExPasswordHashError(argon2::password_hash::Error);

/// An error that can arise during startup or during normal operation.
/// It can be fatal, severe, or mostly harmless.
///
/// Each error type is assigned a unique error code (see [`SuperoxideError::exit_code`]).
/// Errors raised by the I/O layer carry that layer's message as text.
pub enum SuperoxideError {
    /// Generic error that is not helpful.
    Generic,
    /// A startup error when the credentials were not set.
    UnsetCredentials,
    /// Could not create a connection to the database; holds the driver's message.
    FailedDatabaseConnection(String),
    /// Failed to parse the .env file successfully; holds the loader's message.
    FailedToParseEnv(String),
    /// Could not bind the HTTP server successfully; holds the address and the I/O message.
    BindingHTTPServerFailed(String, String),
    /// Database migration failed; holds the migrator's message.
    DatabaseMigrationFailed(String),
    /// A startup error when the credentials contained invalid Unicode.
    InvalidUnicodeCredentials,
    /// Hashing or verifying a password failed.
    HashingError(argon2::password_hash::Error),
    /// A query to the database failed.
    DatabaseError(DatabaseError),
}

/// Represents an overall result of the Superoxide server.
pub type SuperoxideResult<T> = Result<T, SuperoxideError>;

/// The process exit code of each error. Zero is not assigned because that is
/// returned for a success.
pub open spec fn error_exit_code(error: SuperoxideError) -> i32 {
    match error {
        SuperoxideError::Generic => 1,
        SuperoxideError::UnsetCredentials => 2,
        SuperoxideError::FailedDatabaseConnection(_) => 3,
        SuperoxideError::FailedToParseEnv(_) => 4,
        SuperoxideError::BindingHTTPServerFailed(_, _) => 5,
        SuperoxideError::DatabaseMigrationFailed(_) => 6,
        SuperoxideError::InvalidUnicodeCredentials => 7,
        SuperoxideError::HashingError(_) => 8,
        SuperoxideError::DatabaseError(_) => 9,
    }
}

/// Whether two errors are of the same kind (the same variant), whatever they hold.
pub open spec fn same_error_kind(a: SuperoxideError, b: SuperoxideError) -> bool {
    match (a, b) {
        (SuperoxideError::Generic, SuperoxideError::Generic) => true,
        (SuperoxideError::UnsetCredentials, SuperoxideError::UnsetCredentials) => true,
        (SuperoxideError::FailedDatabaseConnection(_), SuperoxideError::FailedDatabaseConnection(_)) => true,
        (SuperoxideError::FailedToParseEnv(_), SuperoxideError::FailedToParseEnv(_)) => true,
        (SuperoxideError::BindingHTTPServerFailed(_, _), SuperoxideError::BindingHTTPServerFailed(_, _)) => true,
        (SuperoxideError::DatabaseMigrationFailed(_), SuperoxideError::DatabaseMigrationFailed(_)) => true,
        (SuperoxideError::InvalidUnicodeCredentials, SuperoxideError::InvalidUnicodeCredentials) => true,
        (SuperoxideError::HashingError(_), SuperoxideError::HashingError(_)) => true,
        (SuperoxideError::DatabaseError(_), SuperoxideError::DatabaseError(_)) => true,
        _ => false,
    }
}

impl SuperoxideError {
    /// The code the process exits with when this error ends it.
    pub fn exit_code(&self) -> (code: i32)
        ensures
            code == error_exit_code(*self),
    {
        match self {
            SuperoxideError::Generic => 1,
            SuperoxideError::UnsetCredentials => 2,
            SuperoxideError::FailedDatabaseConnection(_) => 3,
            SuperoxideError::FailedToParseEnv(_) => 4,
            SuperoxideError::BindingHTTPServerFailed(_, _) => 5,
            SuperoxideError::DatabaseMigrationFailed(_) => 6,
            SuperoxideError::InvalidUnicodeCredentials => 7,
            SuperoxideError::HashingError(_) => 8,
            SuperoxideError::DatabaseError(_) => 9,
        }
    }
}

impl From<DatabaseError> for SuperoxideError {
    fn from(value: DatabaseError) -> (error: Self) {
        SuperoxideError::DatabaseError(value)
    }
}

impl FromSpecImpl<DatabaseError> for SuperoxideError {
    open spec fn obeys_from_spec() -> bool {
        true
    }

    open spec fn from_spec(value: DatabaseError) -> Self {
        SuperoxideError::DatabaseError(value)
    }
}

/// Every error exits with a code other than zero (which stands for success), and
/// each kind of error has a code of its own: two errors share a code exactly when
/// they are of the same kind.
pub proof fn lemma_exit_codes_unique(a: SuperoxideError, b: SuperoxideError)
    ensures
        error_exit_code(a) != 0,
        error_exit_code(a) == error_exit_code(b) <==> same_error_kind(a, b),
{
}

} // verus!
