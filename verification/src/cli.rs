//! The commands of the `lingbench` program.
use vstd::prelude::*;

verus! {

/// A command of the program.
#[derive(Debug)]
pub enum Command {
    /// Run VMM benchmark
    Run {
        /// VMM names to run (all enabled if not specified, comma-separated)
        vmm: Option<Vec<String>>,
        /// Scenarios to run (all if not specified, "all" or comma-separated)
        scenario: Option<Vec<String>>,
        /// Output directory
        output: Option<String>,
    },
    /// Generate report only (using existing data)
    Report {
        /// Input results.json path (from --save-results)
        input: Option<String>,
        /// Report output path
        output: Option<String>,
    },
    /// List available configurations
    List { vmm: bool, scenario: bool },
    /// Build guest image
    Build { target: BuildTarget },
}

/// What `build` builds.
#[derive(Debug, Clone, Copy, PartialEq, Eq, Structural)]
pub enum BuildTarget {
    /// Build kernel
    Kernel,
    /// Build rootfs
    Rootfs,
    /// Build all
    All,
}

} // verus!
