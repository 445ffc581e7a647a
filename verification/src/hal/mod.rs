//! The architecture-independent types and capability traits.

pub mod boot;
pub mod compute;
pub mod cpu;
pub mod error;
pub mod interface;
pub mod interrupt;
pub mod memory;
pub mod platform;
pub mod power;
pub mod timer;

pub use boot::{BootInfo, BootProtocol};
pub use compute::{ComputeDevice, ComputeDeviceDiscovery, ComputeKind, VendorId};
pub use cpu::{CpuAbstraction, CpuContext, CpuFeatureFlags, PrivilegeLevel};
pub use error::HalError;
pub use interface::{build_interface, HalInterface};
pub use interrupt::{InterruptController, IrqId};
pub use memory::{
    MapPermissions, MemoryBootstrap, MemoryRegion, MemoryRegionKind, PhysAddr, VirtAddr,
};
pub use platform::PlatformHal;
pub use power::{
    DomainsAboveThresholdIter, DvfsRequest, DvfsState, MilliCelsius, PowerDomain, PowerThermal,
};
pub use timer::{TimerAbstraction, TimerMode};
