//! Running scenarios on VMMs and reading their results.
pub mod parse;
pub mod scenario;
pub mod monitor;
pub mod batch;
