//! The session records the database hands back, and what a revocation amounts to.
use vstd::prelude::*;

use crate::database::Database;

verus! {

/// A session found by its token: the session's ID and its user's ID.
pub struct Session {
    pub session_id: u64,
    pub user_id: u64,
}

impl Database {
    /// A revocation took effect when it deleted at least one row.
    pub fn session_revoked(rows_affected: u64) -> (revoked: bool)
        ensures
            revoked == (rows_affected > 0),
    {
        rows_affected > 0
    }
}

} // verus!
