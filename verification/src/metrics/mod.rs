//! Benchmark metrics: values, batches, host messages and their collection.
pub mod decimal;
pub mod types;
pub mod protocol;
pub mod collector;
