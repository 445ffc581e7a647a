//! Compute device discovery: the configuration space is a window of memory.

use vstd::prelude::*;

pub use crate::compute::ComputeDiscovery;
pub use crate::pci::{ecam_address, ecam_offset};

verus! {

/// Where the window is.
pub const QEMU_VIRT_DEFAULT_ECAM_BASE: u64 = 0x3000_0000;

} // verus!
