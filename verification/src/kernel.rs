//! Kernel building functionality.
use vstd::prelude::*;
use crate::config::Config;
use crate::text::str_eq;

verus! {

/// Build the guest kernel: a stub until the build is brought to the current
/// configuration layout. It reports that on every call as an error, where the
/// program stops with that message.
pub fn build(_cfg: &Config) -> (r: Result<(), String>)
    ensures
        r matches Err(e) && e@ == "kernel build requires V2 config update"@,
{
    Err("kernel build requires V2 config update".to_owned())
}

/// Where the kernel build of each architecture leaves its image.
pub open spec fn spec_artifact_path(arch: Seq<char>) -> Seq<char> {
    if arch == "x86_64"@ || arch == "i386"@ {
        "arch/x86/boot/bzImage"@
    } else if arch == "arm64"@ || arch == "aarch64"@ {
        "arch/arm64/boot/Image"@
    } else {
        "vmlinux"@
    }
}

/// Get the kernel artifact path for the given architecture.
pub fn artifact_path(arch: &str) -> (r: String)
    ensures
        r@ == spec_artifact_path(arch@),
{
    if str_eq(arch, "x86_64") || str_eq(arch, "i386") {
        "arch/x86/boot/bzImage".to_owned()
    } else if str_eq(arch, "arm64") || str_eq(arch, "aarch64") {
        "arch/arm64/boot/Image".to_owned()
    } else {
        "vmlinux".to_owned()
    }
}

} // verus!
