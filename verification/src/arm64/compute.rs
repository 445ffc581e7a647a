//! Compute device discovery: the configuration space is a window of memory.

use vstd::prelude::*;

pub use crate::compute::ComputeDiscovery;
pub use crate::pci::{ecam_address, ecam_offset};

verus! {

/// Where the window is if firmware does not say.
pub const QEMU_VIRT_DEFAULT_ECAM_BASE: u64 = 0x4010_0000_0000;

} // verus!
