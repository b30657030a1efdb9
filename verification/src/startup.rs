//! The decisions taken while the server starts.
use vstd::prelude::*;

use crate::error::{SuperoxideError, SuperoxideResult};

verus! {

/// What trying to load a `.env` file gave.
pub enum EnvFileOutcome {
    /// The file was found and loaded.
    Loaded,
    /// There is no `.env` file.
    NotFound,
    /// The file was found but could not be loaded; holds the loader's message.
    Failed(String),
}

/// Loading a `.env` file is optional: a missing file is fine, a file that
/// cannot be loaded is a startup error.
pub fn env_file_result(outcome: EnvFileOutcome) -> (result: SuperoxideResult<()>)
    ensures
        match outcome {
            EnvFileOutcome::Failed(message) => result matches Err(SuperoxideError::FailedToParseEnv(m))
                && m == message,
            _ => result is Ok,
        },
{
    match outcome {
        EnvFileOutcome::Failed(message) => Err(SuperoxideError::FailedToParseEnv(message)),
        _ => Ok(()),
    }
}

} // verus!
