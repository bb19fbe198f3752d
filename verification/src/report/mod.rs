//! HTML report generation.
pub mod data;
pub mod generator;
pub mod assemble;
pub mod chart;
