//! Building command lines for the utilities that ship with a local
//! PostgreSQL installation, and the decisions of the engine that installs,
//! starts and stops such an instance.
use vstd::prelude::*;

pub mod command;
pub mod decimal;
pub mod install;
pub mod lifecycle;
pub mod pg_test_timing;
pub mod resolve;
pub mod vacuumdb;

verus! {

} // verus!
