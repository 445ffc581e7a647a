//! Laws of the numbers that name registers and calls, and of the values that registers
//! are set to.

use vstd::prelude::*;

use crate::arm64::memory::{MAIR_VALUE, TCR_VALUE};
use crate::arm64::timer::COMPARATOR_ENABLED;
use crate::riscv64::cpu::{SBI_BASE_PROBE_EXTENSION, SBI_EXT_BASE, SBI_EXT_TIME};
use crate::riscv64::interrupt::{SBI_EXT_IPI, SBI_IPI_SEND_IPI};
use crate::riscv64::timer::SBI_TIME_SET_TIMER;
use crate::x86_64::interrupt::{APIC_ID, IA32_APIC_BASE_MSR, X2APIC_MSR_BASE};
use crate::x86_64::power::{
    IA32_PERF_STATUS, IA32_THERM_STATUS, MSR_RAPL_POWER_UNIT, MSR_TEMPERATURE_TARGET,
};
use crate::x86_64::timer::IA32_TSC_DEADLINE_MSR;

verus! {

/// Each model-specific register of x86_64 has the number that the architecture gives
/// it.
pub proof fn registers_of_x86_64_are_numbered_as_documented()
    ensures
        IA32_APIC_BASE_MSR == 0x1B,
        IA32_PERF_STATUS == 0x198,
        IA32_THERM_STATUS == 0x19C,
        MSR_TEMPERATURE_TARGET == 0x1A2,
        MSR_RAPL_POWER_UNIT == 0x606,
        IA32_TSC_DEADLINE_MSR == 0x6E0,
        X2APIC_MSR_BASE == 0x800,
        APIC_ID == 0x20,
{
}

/// The firmware's extensions are named by letters: "TIME" and "sPI"; the base extension
/// is the sixteenth. The calls are numbered within their extension.
pub proof fn firmware_calls_are_named_as_documented()
    ensures
        SBI_EXT_TIME == 0x100_0000 * ('T' as int) + 0x1_0000 * ('I' as int) + 0x100 * ('M' as int)
            + ('E' as int),
        SBI_EXT_IPI == 0x1_0000 * ('s' as int) + 0x100 * ('P' as int) + ('I' as int),
        SBI_EXT_BASE == 16,
        SBI_BASE_PROBE_EXTENSION == 3,
        SBI_TIME_SET_TIMER == 0,
        SBI_IPI_SEND_IPI == 0,
{
}

/// On ARM64 attribute 0 is memory that is cached and written back, attribute 1 is
/// device memory; addresses have 48 bits, tables are cached and shared by the inner
/// domain, and pages have 4 KiB. The comparator is on and lets its interrupt through.
pub proof fn translation_of_arm64_is_set_up_as_documented()
    ensures
        MAIR_VALUE % 0x100 == 0xFF,
        MAIR_VALUE / 0x100 == 0,
        TCR_VALUE % 0x40 == 64 - 48,
        TCR_VALUE / 0x100 % 4 == 1,
        TCR_VALUE / 0x400 % 4 == 1,
        TCR_VALUE / 0x1000 % 4 == 3,
        TCR_VALUE / 0x4000 == 0,
        TCR_VALUE / 0x40 % 4 == 0,
        COMPARATOR_ENABLED % 2 == 1,
        COMPARATOR_ENABLED / 2 == 0,
{
}

} // verus!
