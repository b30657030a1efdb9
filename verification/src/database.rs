//! The database handle and the decisions taken on what the database answers.
use vstd::prelude::*;

pub mod session;
pub mod test;
pub mod user;

use crate::error::{SuperoxideError, SuperoxideResult};

verus! {

/// Represents an abstraction around the database connection
/// that keeps the internal queries and statements required hidden.
///
/// The handle holds a `sqlx` MySQL connection pool, whose type is kept out of
/// the rules: they only carry the handle along, and the code that runs the
/// queries opens it.
#[verifier::external_body]
pub struct Database {
    pub pool: sqlx::MySqlPool,
}

/// Represents a database error that has occured; holds the driver's message.
pub struct DatabaseError {
    pub message: String,
}

/// The most connections the pool to the database opens.
pub const MAX_CONNECTIONS: u32 = 10;

/// What reading the `DATABASE_URL` environment variable gave.
pub enum CredentialLookup {
    /// The variable is set to this text.
    Present(String),
    /// The variable is not set.
    NotPresent,
    /// The variable is set but is not valid Unicode.
    NotUnicode,
}

impl Database {
    /// The URL of the database to connect to, from what reading the
    /// `DATABASE_URL` environment variable gave: an unset variable and one that
    /// is not valid Unicode are distinct startup errors.
    pub fn database_url(lookup: CredentialLookup) -> (result: SuperoxideResult<String>)
        ensures
            match lookup {
                CredentialLookup::Present(url) => result matches Ok(u) && u == url,
                CredentialLookup::NotPresent => result matches Err(SuperoxideError::UnsetCredentials),
                CredentialLookup::NotUnicode => result matches Err(SuperoxideError::InvalidUnicodeCredentials),
            },
    {
        match lookup {
            CredentialLookup::Present(url) => Ok(url),
            CredentialLookup::NotPresent => Err(SuperoxideError::UnsetCredentials),
            CredentialLookup::NotUnicode => Err(SuperoxideError::InvalidUnicodeCredentials),
        }
    }
}

} // verus!
