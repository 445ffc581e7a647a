//! The one error type shared by every capability trait.

use vstd::prelude::*;

verus! {

/// What can go wrong anywhere in the abstraction layer.
#[derive(Debug, Clone, Copy, PartialEq, Eq, Structural)]
pub enum HalError {
    /// The requested privilege level has no meaning on this CPU.
    UnsupportedPrivilegeLevel,
    /// A core index that does not exist was named.
    InvalidCoreId,
    /// Firmware gave no usable memory map.
    MemoryMapUnavailable,
    /// Firmware reports more memory regions than the manifest can hold.
    TooManyMemoryRegions,
    /// A region cannot be mapped: it is empty, lies outside addressable
    /// memory, conflicts with an existing mapping, or no table is left.
    InvalidMemoryRegion,
    /// No timer source was found.
    NoTimerSource,
    /// The timer source cannot run tickless.
    TicklessModeUnsupported,
    /// A deadline is not in the future or does not fit the counter.
    InvalidTimerDeadline,
    /// An interrupt line outside the controller's range was named.
    InvalidIrqId,
    /// The interrupt line already has a handler.
    IrqAlreadyRegistered,
    /// The target core of an inter-processor interrupt does not exist.
    InvalidIpiTarget,
    /// The bus could not be enumerated.
    ComputeDiscoveryFailed,
    /// More compute devices were found than the manifest can hold.
    TooManyComputeDevices,
    /// No power domain has the given id.
    InvalidPowerDomain,
    /// The power domain's frequency cannot be read or set.
    DvfsUnsupported,
    /// The power domain has no readable temperature sensor.
    ThermalSensorUnavailable,
    /// No known boot protocol delivered control.
    BootProtocolUnrecognized,
    /// The boot information is inconsistent.
    MalformedBootInfo,
    /// A capability token does not authorize the operation.
    InvalidCapabilityToken,
    /// A hardware failure that no other variant describes.
    HardwareFault,
}

impl HalError {
    /// The text shown for the error.
    pub open spec fn text(self) -> Seq<char> {
        match self {
            HalError::UnsupportedPrivilegeLevel => "unsupported CPU privilege level transition"@,
            HalError::InvalidCoreId => "invalid CPU core id"@,
            HalError::MemoryMapUnavailable => "firmware memory map unavailable or malformed"@,
            HalError::TooManyMemoryRegions => "more memory regions than manifest capacity allows"@,
            HalError::InvalidMemoryRegion => "invalid or overlapping memory region"@,
            HalError::NoTimerSource => "no hardware timer source detected"@,
            HalError::TicklessModeUnsupported => "tickless timer mode not supported by hardware"@,
            HalError::InvalidTimerDeadline => "invalid timer deadline"@,
            HalError::InvalidIrqId => "invalid IRQ id for detected interrupt controller"@,
            HalError::IrqAlreadyRegistered => "IRQ line already has a registered handler"@,
            HalError::InvalidIpiTarget => "invalid inter-processor interrupt target core"@,
            HalError::ComputeDiscoveryFailed => "heterogeneous compute device discovery failed"@,
            HalError::TooManyComputeDevices => "more compute devices than manifest capacity allows"@,
            HalError::InvalidPowerDomain => "invalid power domain id"@,
            HalError::DvfsUnsupported => "power domain does not support DVFS"@,
            HalError::ThermalSensorUnavailable => "power domain has no thermal sensor"@,
            HalError::BootProtocolUnrecognized => "no recognizable boot protocol found"@,
            HalError::MalformedBootInfo =>
                "malformed boot info structure from bootloader/firmware"@,
            HalError::InvalidCapabilityToken => "capability token failed hal-direct verification"@,
            HalError::HardwareFault => "unspecified hardware fault"@,
        }
    }

    /// The text shown for the error.
    pub fn message(&self) -> (msg: &'static str)
        ensures
            msg@ == self.text(),
    {
        match self {
            HalError::UnsupportedPrivilegeLevel => "unsupported CPU privilege level transition",
            HalError::InvalidCoreId => "invalid CPU core id",
            HalError::MemoryMapUnavailable => "firmware memory map unavailable or malformed",
            HalError::TooManyMemoryRegions => "more memory regions than manifest capacity allows",
            HalError::InvalidMemoryRegion => "invalid or overlapping memory region",
            HalError::NoTimerSource => "no hardware timer source detected",
            HalError::TicklessModeUnsupported => "tickless timer mode not supported by hardware",
            HalError::InvalidTimerDeadline => "invalid timer deadline",
            HalError::InvalidIrqId => "invalid IRQ id for detected interrupt controller",
            HalError::IrqAlreadyRegistered => "IRQ line already has a registered handler",
            HalError::InvalidIpiTarget => "invalid inter-processor interrupt target core",
            HalError::ComputeDiscoveryFailed => "heterogeneous compute device discovery failed",
            HalError::TooManyComputeDevices => "more compute devices than manifest capacity allows",
            HalError::InvalidPowerDomain => "invalid power domain id",
            HalError::DvfsUnsupported => "power domain does not support DVFS",
            HalError::ThermalSensorUnavailable => "power domain has no thermal sensor",
            HalError::BootProtocolUnrecognized => "no recognizable boot protocol found",
            HalError::MalformedBootInfo => "malformed boot info structure from bootloader/firmware",
            HalError::InvalidCapabilityToken => "capability token failed hal-direct verification",
            HalError::HardwareFault => "unspecified hardware fault",
        }
    }
}

/// Every error has a text to show.
pub proof fn every_error_has_a_text(e: HalError)
    ensures
        e.text().len() > 0,
{
    reveal_strlit("unsupported CPU privilege level transition");
    reveal_strlit("invalid CPU core id");
    reveal_strlit("firmware memory map unavailable or malformed");
    reveal_strlit("more memory regions than manifest capacity allows");
    reveal_strlit("invalid or overlapping memory region");
    reveal_strlit("no hardware timer source detected");
    reveal_strlit("tickless timer mode not supported by hardware");
    reveal_strlit("invalid timer deadline");
    reveal_strlit("invalid IRQ id for detected interrupt controller");
    reveal_strlit("IRQ line already has a registered handler");
    reveal_strlit("invalid inter-processor interrupt target core");
    reveal_strlit("heterogeneous compute device discovery failed");
    reveal_strlit("more compute devices than manifest capacity allows");
    reveal_strlit("invalid power domain id");
    reveal_strlit("power domain does not support DVFS");
    reveal_strlit("power domain has no thermal sensor");
    reveal_strlit("no recognizable boot protocol found");
    reveal_strlit("malformed boot info structure from bootloader/firmware");
    reveal_strlit("capability token failed hal-direct verification");
    reveal_strlit("unspecified hardware fault");
}

} // verus!
