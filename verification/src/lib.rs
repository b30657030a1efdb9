//! Account, session and test bookkeeping for the Superoxide server,
//! with the rules that decide every answer stated and proved.
use vstd::prelude::*;

pub mod database;
pub mod error;
pub mod hashing;
pub mod http_server;
pub mod logger;
pub mod startup;
pub mod state;

verus! {

} // verus!
