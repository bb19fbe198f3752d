//! VMM runners: detecting VMM binaries and planning how to start VMs.
pub mod traits;
pub mod cloudhypervisor;
pub mod crosvm;
pub mod stratovirt;
pub mod firecracker;
pub mod registry;
