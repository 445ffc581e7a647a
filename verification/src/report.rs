//! The report that the kernel writes when it starts.

use vstd::prelude::*;
use vstd::string::StringSliceAdditionalSpecFns;
use vstd::utf8::encode_utf8;

use crate::hal::boot::{BootInfo, BootProtocol};
use crate::hal::cpu::CpuAbstraction;
use crate::hal::error::HalError;
use crate::hal::interface::HalInterface;
use crate::hal::timer::TimerAbstraction;

verus! {

/// A number in decimal digits, without leading zeros.
pub open spec fn decimal(n: int) -> Seq<u8>
    decreases n,
{
    if n < 10 {
        seq![(48 + n) as u8]
    } else {
        decimal(n / 10).push((48 + n % 10) as u8)
    }
}

/// The name of a boot protocol.
pub open spec fn protocol_name(protocol: BootProtocol) -> Seq<u8> {
    match protocol {
        BootProtocol::Uefi => "Uefi".spec_bytes(),
        BootProtocol::SbiDeviceTree => "SbiDeviceTree".spec_bytes(),
    }
}

/// A line that ends in a number.
pub open spec fn number_line(label: Seq<u8>, n: int) -> Seq<u8> {
    label + decimal(n) + "\n".spec_bytes()
}

/// What the report says of the boot information's validity.
pub open spec fn validity_line(info: BootInfo) -> Seq<u8> {
    if info.well_formed() {
        "BootInfo validation: OK\n".spec_bytes()
    } else {
        "BootInfo validation FAILED: ".spec_bytes() + encode_utf8(
            HalError::MalformedBootInfo.text(),
        ) + "\n".spec_bytes()
    }
}

/// The part of the report that comes from the boot information.
pub open spec fn machine_lines(info: BootInfo) -> Seq<u8> {
    "boot protocol: ".spec_bytes() + protocol_name(info.protocol) + "\n".spec_bytes()
        + number_line("cpu cores: ".spec_bytes(), info.hardware_manifest.cpu_core_count as int)
        + number_line(
        "memory regions: ".spec_bytes(),
        info.hardware_manifest.memory_region_count as int,
    ) + number_line(
        "compute devices: ".spec_bytes(),
        info.hardware_manifest.compute_device_count as int,
    ) + number_line(
        "power domains: ".spec_bytes(),
        info.hardware_manifest.power_domain_count as int,
    ) + validity_line(info)
}

/// The whole report.
pub open spec fn report_of(info: BootInfo, core_count: int, frequency_hz: int) -> Seq<u8> {
    "hello from kernel\n".spec_bytes()
        + "---------------------------------------------\n".spec_bytes() + machine_lines(info)
        + "---------------------------------------------\n".spec_bytes() + number_line(
        "hal cpu core count (via HalInterface): ".spec_bytes(),
        core_count,
    ) + number_line("hal timer frequency_hz (via HalInterface): ".spec_bytes(), frequency_hz)
        + "kernel-stub halting (Phase 1 HAL boot test complete)\n".spec_bytes()
}

fn push_bytes(out: &mut Vec<u8>, bytes: &[u8])
    ensures
        final(out)@ == old(out)@ + bytes@,
{
    let mut i: usize = 0;
    while i < bytes.len()
        invariant
            i <= bytes@.len(),
            out@ == old(out)@ + bytes@.take(i as int),
        decreases bytes@.len() - i,
    {
        out.push(bytes[i]);
        assert(bytes@.take(i as int).push(bytes@[i as int]) =~= bytes@.take(i + 1));
        i = i + 1;
    }
    assert(bytes@.take(i as int) =~= bytes@);
}

fn push_decimal(out: &mut Vec<u8>, n: u64)
    ensures
        final(out)@ == old(out)@ + decimal(n as int),
    decreases n,
{
    if n >= 10 {
        push_decimal(out, n / 10);
    }
    out.push((48 + n % 10) as u8);
    assert(out@ =~= old(out)@ + decimal(n as int));
}

fn push_number_line(out: &mut Vec<u8>, label: &[u8], n: u64)
    ensures
        final(out)@ == old(out)@ + number_line(label@, n as int),
{
    push_bytes(out, label);
    push_decimal(out, n);
    push_bytes(out, "\n".as_bytes());
    assert(out@ =~= old(out)@ + number_line(label@, n as int));
}

#[verifier::rlimit(60)]
#[verifier::spinoff_prover]
fn push_machine_lines(out: &mut Vec<u8>, info: &BootInfo)
    ensures
        final(out)@ == old(out)@ + machine_lines(*info),
{
    push_bytes(out, "boot protocol: ".as_bytes());
    match info.protocol {
        BootProtocol::Uefi => push_bytes(out, "Uefi".as_bytes()),
        BootProtocol::SbiDeviceTree => push_bytes(out, "SbiDeviceTree".as_bytes()),
    }
    push_bytes(out, "\n".as_bytes());
    push_number_line(
        out,
        "cpu cores: ".as_bytes(),
        info.hardware_manifest.cpu_core_count as u64,
    );
    push_number_line(
        out,
        "memory regions: ".as_bytes(),
        info.hardware_manifest.memory_region_count as u64,
    );
    push_number_line(
        out,
        "compute devices: ".as_bytes(),
        info.hardware_manifest.compute_device_count as u64,
    );
    push_number_line(
        out,
        "power domains: ".as_bytes(),
        info.hardware_manifest.power_domain_count as u64,
    );
    let ghost before = out@;
    match info.validate() {
        Ok(()) => push_bytes(out, "BootInfo validation: OK\n".as_bytes()),
        Err(e) => {
            push_bytes(out, "BootInfo validation FAILED: ".as_bytes());
            push_bytes(out, e.message().as_bytes());
            push_bytes(out, "\n".as_bytes());
        },
    }
    assert(out@ =~= before + validity_line(*info));
    assert(out@ =~= old(out)@ + machine_lines(*info));
}

/// Writes the report, given what the CPU and the timer say of themselves.
pub fn boot_report(info: &BootInfo, core_count: usize, frequency_hz: u64) -> (r: Vec<u8>)
    ensures
        r@ == report_of(*info, core_count as int, frequency_hz as int),
{
    let mut out: Vec<u8> = Vec::new();
    push_bytes(&mut out, "hello from kernel\n".as_bytes());
    push_bytes(&mut out, "---------------------------------------------\n".as_bytes());
    push_machine_lines(&mut out, info);
    push_bytes(&mut out, "---------------------------------------------\n".as_bytes());
    push_number_line(
        &mut out,
        "hal cpu core count (via HalInterface): ".as_bytes(),
        core_count as u64,
    );
    push_number_line(
        &mut out,
        "hal timer frequency_hz (via HalInterface): ".as_bytes(),
        frequency_hz,
    );
    push_bytes(
        &mut out,
        "kernel-stub halting (Phase 1 HAL boot test complete)\n".as_bytes(),
    );
    assert(out@ =~= report_of(*info, core_count as int, frequency_hz as int));
    out
}

/// Writes the report, asking the CPU and the timer through the interface.
pub fn kernel_report<'a, const N: usize, C: CpuAbstraction<N>, T: TimerAbstraction>(
    hal: &HalInterface<'a, N, C, T>,
    info: &BootInfo,
) -> (r: Vec<u8>)
    requires
        call_requires(<C as CpuAbstraction<N>>::core_count, (hal.cpu,)),
        call_requires(T::frequency_hz, (hal.timer,)),
    ensures
        exists|core_count: usize, frequency_hz: u64|
            call_ensures(<C as CpuAbstraction<N>>::core_count, (hal.cpu,), core_count)
                && call_ensures(T::frequency_hz, (hal.timer,), frequency_hz) && r@
                == #[trigger] report_of(*info, core_count as int, frequency_hz as int),
{
    let core_count: usize = hal.core_count();
    let frequency_hz: u64 = hal.frequency_hz();
    boot_report(info, core_count, frequency_hz)
}

} // verus!
