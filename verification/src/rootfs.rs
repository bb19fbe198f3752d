//! Rootfs building functionality.
use vstd::prelude::*;
use crate::config::Config;

verus! {

/// Rootfs image format.
#[derive(Debug, Clone, Copy, PartialEq, Eq, Structural)]
pub enum RootfsFormat {
    Tar,
    Ext4,
    Cpio,
}

/// Build the guest rootfs: a stub until the build is brought to the current
/// configuration layout. It reports that on every call as an error, where the
/// program stops with that message.
pub fn build(_cfg: &Config) -> (r: Result<(), String>)
    ensures
        r matches Err(e) && e@ == "rootfs build requires V2 config update"@,
{
    Err("rootfs build requires V2 config update".to_owned())
}

} // verus!
