//! Compute device discovery: the configuration space is reached through ports.

pub use crate::compute::ComputeDiscovery;
pub use crate::pci::config_address;
