//! LingBench: planning, parsing and reporting logic of a VMM benchmarking tool.
pub mod text;
pub mod vmm;
pub mod catalog;
pub mod cli;
pub mod commands;
pub mod config;
pub mod kernel;
pub mod metrics;
pub mod paths;
pub mod report;
pub mod pattern;
pub mod rootfs;
pub mod runner;
