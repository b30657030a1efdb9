//! The user records the database hands back, and what an attempt to insert a
//! user amounts to.
use vstd::prelude::*;

use crate::database::{Database, DatabaseError};

verus! {

/// What logging a user in needs of their record.
pub struct UserLogin {
    pub id: u64,
    pub password_hash: String,
}

/// The superficial details of a user.
pub struct UserDetails {
    pub username: String,
}

/// What the database answered to an insertion of a new row.
pub enum InsertOutcome {
    /// The row was inserted under this ID.
    Inserted(u64),
    /// A unique key (the username, for users) already holds the value.
    UniqueViolation,
    /// The insertion failed for another reason.
    Failed(DatabaseError),
}

impl Database {
    /// What an attempt to create an account amounts to: the new user's ID, `None`
    /// when a user with the given name already exists, or the database's error.
    pub fn account_creation_outcome(outcome: InsertOutcome) -> (result: Result<Option<u64>, DatabaseError>)
        ensures
            match outcome {
                InsertOutcome::Inserted(id) => result == Ok::<Option<u64>, DatabaseError>(Some(id)),
                InsertOutcome::UniqueViolation => result == Ok::<Option<u64>, DatabaseError>(None),
                InsertOutcome::Failed(error) => result == Err::<Option<u64>, DatabaseError>(error),
            },
    {
        match outcome {
            InsertOutcome::Inserted(id) => Ok(Some(id)),
            InsertOutcome::UniqueViolation => Ok(None),
            InsertOutcome::Failed(error) => Err(error),
        }
    }
}

} // verus!
