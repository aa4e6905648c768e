//! Environment-backed configuration: typed reads of named values from a
//! backend (process variables, a dotenv file, AWS parameters or secrets),
//! and the per-field rules that a `Config` derive follows.

pub mod attributes;
pub mod config;
pub mod environment;
