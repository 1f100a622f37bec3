//! Bookkeeping and decision logic for per-project container environments:
//! the registry contract, the rule that selects the environment to act on,
//! and the steps that provision and tear down a container.

pub mod cli;
pub mod compose;
pub mod docker;
pub mod ident;
pub mod memory;
pub mod repo;
pub mod sqlite;
pub mod text;
pub mod usecase;
pub mod util;
