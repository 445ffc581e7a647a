//! Calls that fill and read manifests, and that report on them.

use vstd::prelude::*;
use vstd::string::StringSliceAdditionalSpecFns;

use crate::fdt::{occurs, occurs_at};
use crate::hal::boot::BootInfo;
use crate::hal::cpu::CpuAbstraction;
use crate::hal::interface::HalInterface;
use crate::hal::timer::TimerAbstraction;
use crate::laws::manifest::{
    devices_keep_their_contents, growable_manifest_keeps_everything,
    manifest_holds_the_first_of_each, usable_memory_adds_up,
};
use crate::manifest::assembly::assemble_manifest;
use crate::manifest::dynamic::{
    usable_bytes, ComputeDevice, ComputeKind, HardwareManifest, MemoryRegion,
};
use crate::manifest::raw::{
    ComputeDeviceRaw, HardwareManifestRaw, InterruptControllerInfoRaw, InterruptControllerKindRaw,
    MemoryRegionKindRaw, MemoryRegionRaw, PowerDomainRaw, TimerInfoRaw, TimerKindRaw,
};
use crate::report::{
    boot_report, decimal, kernel_report, machine_lines, number_line, validity_line,
};

verus! {

/// A manifest starts empty, takes regions, devices and domains in turn, each behind
/// those before, and takes no more than 64, 32 and 16 of them. A device is told its
/// place.
pub proof fn fill_manifest(
    fresh: HardwareManifestRaw,
    a: &mut HardwareManifestRaw,
    b: &mut HardwareManifestRaw,
    c: &mut HardwareManifestRaw,
    region: MemoryRegionRaw,
    device: ComputeDeviceRaw,
    domain: PowerDomainRaw,
    ra: Result<(), ()>,
    rb: Result<(), ()>,
    rc: Result<(), ()>,
)
    requires
        call_ensures(HardwareManifestRaw::zeroed, (), fresh),
        call_ensures(HardwareManifestRaw::push_memory_region, (a, region), ra),
        call_ensures(HardwareManifestRaw::push_compute_device, (b, device), rb),
        call_ensures(HardwareManifestRaw::push_power_domain, (c, domain), rc),
    ensures
        fresh.memory_region_count == 0 && fresh.compute_device_count == 0 && fresh.power_domain_count
            == 0,
        ra is Ok <==> old(a).memory_region_count < 64,
        ra is Ok ==> final(a).memory_region_count == old(a).memory_region_count + 1
            && final(a).region_seq().last() == region && final(a).region_seq().drop_last()
            == old(a).region_seq(),
        ra is Ok ==> final(a).compute_devices == old(a).compute_devices && final(a).power_domains
            == old(a).power_domains && final(a).timer == old(a).timer,
        ra is Err ==> *final(a) == *old(a),
        rb is Ok <==> old(b).compute_device_count < 32,
        rb is Ok ==> final(b).compute_device_count == old(b).compute_device_count + 1
            && final(b).device_seq().drop_last() == old(b).device_seq() && ({
            let d = final(b).device_seq().last();
            d.device_index == old(b).compute_device_count && d.kind == device.kind && d.vendor
                == device.vendor && d.dedicated_memory_bytes == device.dedicated_memory_bytes
                && d.has_dedicated_memory == device.has_dedicated_memory
        }),
        rb is Err ==> *final(b) == *old(b),
        rc is Ok <==> old(c).power_domain_count < 16,
        rc is Ok ==> final(c).power_domain_count == old(c).power_domain_count + 1
            && final(c).domain_seq().last() == domain && final(c).domain_seq().drop_last()
            == old(c).domain_seq(),
        rc is Err ==> *final(c) == *old(c),
{
    if ra is Ok {
        assert(old(a).region_seq().push(region).drop_last() =~= old(a).region_seq());
    }
    if rb is Ok {
        assert(final(b).device_seq().drop_last() =~= old(b).device_seq());
    }
    if rc is Ok {
        assert(old(c).domain_seq().push(domain).drop_last() =~= old(c).domain_seq());
    }
}

/// A region record has the properties it is made with.
pub proof fn make_region(
    base: u64,
    length: u64,
    kind: MemoryRegionKindRaw,
    iommu: bool,
    r: MemoryRegionRaw,
)
    requires
        call_ensures(MemoryRegionRaw::new, (base, length, kind, iommu), r),
    ensures
        r.base_addr == base && r.length_bytes == length && r.kind == kind && r.behind_iommu == iommu,
{
}

/// The usable memory of a manifest is the sum over its usable regions: one more
/// region adds its length if it is usable, and nothing if it is not.
pub proof fn sum_usable_memory<Cap>(
    manifest: &HardwareManifest<Cap>,
    r: u64,
    smaller: Seq<MemoryRegion>,
    last: MemoryRegion,
)
    requires
        usable_bytes(manifest.memory_regions@) <= u64::MAX,
        call_ensures(HardwareManifest::<Cap>::total_usable_memory_bytes, (manifest,), r),
        manifest.memory_regions@ == smaller.push(last),
    ensures
        r == usable_bytes(smaller) + (if last.kind is Usable {
            last.length_bytes as int
        } else {
            0
        }),
{
    usable_memory_adds_up(smaller, Seq::empty(), last);
}

/// The places of the items that `pred` holds of, in order.
spec fn places_of<A>(all: Seq<A>, pred: spec_fn(A) -> bool) -> Seq<int>
    decreases all.len(),
{
    if all.len() == 0 {
        Seq::empty()
    } else if pred(all.last()) {
        places_of(all.drop_last(), pred).push(all.len() - 1)
    } else {
        places_of(all.drop_last(), pred)
    }
}

proof fn lemma_places<A>(all: Seq<A>, pred: spec_fn(A) -> bool)
    ensures
        ({
            let places = places_of(all, pred);
            let kept = all.filter(pred);
            &&& places.len() == kept.len()
            &&& forall|i: int|
                0 <= i < places.len() ==> 0 <= #[trigger] places[i] < all.len() && kept[i]
                    == all[places[i]] && pred(kept[i])
            &&& forall|i: int, j: int| 0 <= i < j < places.len() ==> places[i] < places[j]
            &&& forall|k: int|
                0 <= k < all.len() && pred(#[trigger] all[k]) ==> places.contains(k)
        }),
    decreases all.len(),
{
    reveal(Seq::filter);
    if all.len() > 0 {
        let front = all.drop_last();
        lemma_places(front, pred);
        let places = places_of(all, pred);
        let fewer = places_of(front, pred);
        assert forall|k: int| 0 <= k < all.len() && pred(#[trigger] all[k]) implies places.contains(
            k,
        ) by {
            if k < front.len() {
                assert(front[k] == all[k]);
                let i = choose|i: int| 0 <= i < fewer.len() && fewer[i] == k;
                assert(places[i] == k);
            } else {
                assert(places[fewer.len() as int] == k);
            }
        }
        assert forall|i: int| 0 <= i < places.len() implies 0 <= #[trigger] places[i] < all.len()
            && all.filter(pred)[i] == all[places[i]] && pred(all.filter(pred)[i]) by {
            if i < fewer.len() {
                assert(places[i] == fewer[i]);
            }
        }
    }
}

/// The devices of a kind are those of that kind, all of them, in their order.
pub proof fn select_devices<Cap>(
    manifest: &HardwareManifest<Cap>,
    kind: ComputeKind,
    found: Vec<&ComputeDevice<Cap>>,
) -> (places: Seq<int>)
    requires
        call_ensures(
            HardwareManifest::<Cap>::compute_devices_of_kind,
            (manifest, kind),
            found,
        ),
    ensures
        places.len() == found@.len(),
        forall|i: int|
            0 <= i < places.len() ==> 0 <= #[trigger] places[i] < manifest.compute_devices@.len()
                && *found@[i] == manifest.compute_devices@[places[i]] && found@[i].kind == kind,
        forall|i: int, j: int| 0 <= i < j < places.len() ==> places[i] < places[j],
        forall|k: int|
            0 <= k < manifest.compute_devices@.len() && (
            #[trigger] manifest.compute_devices@[k]).kind == kind ==> places.contains(k),
{
    let of_kind = |d: ComputeDevice<Cap>| d.kind == kind;
    let all = manifest.compute_devices@;
    lemma_places(all, of_kind);
    let chosen = all.filter(of_kind);
    assert(found@ == chosen.map_values(|d: ComputeDevice<Cap>| &d));
    let places = places_of(all, of_kind);
    assert forall|i: int| 0 <= i < places.len() implies 0 <= #[trigger] places[i] < all.len()
        && *found@[i] == all[places[i]] && found@[i].kind == kind by {
        assert(of_kind(chosen[i]));
    }
    assert forall|k: int| 0 <= k < all.len() && (#[trigger] all[k]).kind == kind implies
        places.contains(k) by {
        assert(of_kind(all[k]));
    }
    places
}

proof fn lemma_middle_occurs(front: Seq<u8>, middle: Seq<u8>, back: Seq<u8>)
    ensures
        occurs(front + middle + back, middle),
{
    let all = front + middle + back;
    let i = front.len() as int;
    assert(all.subrange(i, i + middle.len()) =~= middle);
    assert(occurs_at(all, middle, i));
}

proof fn lemma_part_occurs(front: Seq<u8>, part: Seq<u8>, rest: Seq<u8>, back: Seq<u8>)
    ensures
        occurs(front + (part + rest) + back, part),
{
    lemma_middle_occurs(front, part, rest + back);
    assert(front + part + (rest + back) =~= front + (part + rest) + back);
}

proof fn lemma_first_lines(
    head: Seq<u8>,
    p: Seq<u8>,
    c: Seq<u8>,
    g: Seq<u8>,
    d: Seq<u8>,
    w: Seq<u8>,
    v: Seq<u8>,
    tail: Seq<u8>,
)
    ensures
        ({
            let all = head + (p + c + g + d + w + v) + tail;
            &&& occurs(all, p) && occurs(all, c) && occurs(all, g)
            &&& occurs(all, d) && occurs(all, w) && occurs(all, v)
        }),
{
    let all = head + (p + c + g + d + w + v) + tail;
    lemma_middle_occurs(head, p, c + g + d + w + v + tail);
    assert(head + p + (c + g + d + w + v + tail) =~= all);
    lemma_middle_occurs(head + p, c, g + d + w + v + tail);
    assert(head + p + c + (g + d + w + v + tail) =~= all);
    lemma_middle_occurs(head + p + c, g, d + w + v + tail);
    assert(head + p + c + g + (d + w + v + tail) =~= all);
    lemma_middle_occurs(head + p + c + g, d, w + v + tail);
    assert(head + p + c + g + d + (w + v + tail) =~= all);
    lemma_middle_occurs(head + p + c + g + d, w, v + tail);
    assert(head + p + c + g + d + w + (v + tail) =~= all);
    lemma_middle_occurs(head + p + c + g + d + w, v, tail);
    assert(head + p + c + g + d + w + v + tail =~= all);
}

/// The report greets first and says last that the kernel halts.
pub proof fn open_and_close_report(
    info: &BootInfo,
    core_count: usize,
    frequency_hz: u64,
    r: Vec<u8>,
)
    requires
        call_ensures(boot_report, (info, core_count, frequency_hz), r),
    ensures
        ({
            let greeting = "hello from kernel\n".spec_bytes();
            let farewell = "kernel-stub halting (Phase 1 HAL boot test complete)\n".spec_bytes();
            &&& r@.len() >= greeting.len() && r@.take(greeting.len() as int) == greeting
            &&& r@.len() >= farewell.len() && r@.skip(r@.len() - farewell.len()) == farewell
        }),
{
    let greeting = "hello from kernel\n".spec_bytes();
    let farewell = "kernel-stub halting (Phase 1 HAL boot test complete)\n".spec_bytes();
    assert(r@.take(greeting.len() as int) =~= greeting);
    assert(r@.skip(r@.len() - farewell.len()) =~= farewell);
}

/// The report names the protocol, says how many cores, regions, devices and domains
/// there are, each number in decimal on a line of its own, and whether the boot
/// information can be trusted.
#[verifier::rlimit(60)]
#[verifier::spinoff_prover]
pub proof fn write_report(info: &BootInfo, core_count: usize, frequency_hz: u64, r: Vec<u8>)
    requires
        call_ensures(boot_report, (info, core_count, frequency_hz), r),
    ensures
        ({
            let m = info.hardware_manifest;
            let end = "\n".spec_bytes();
            &&& info.protocol is Uefi ==> occurs(
                r@,
                "boot protocol: ".spec_bytes() + "Uefi".spec_bytes() + end,
            )
            &&& info.protocol is SbiDeviceTree ==> occurs(
                r@,
                "boot protocol: ".spec_bytes() + "SbiDeviceTree".spec_bytes() + end,
            )
            &&& occurs(r@, "cpu cores: ".spec_bytes() + decimal(m.cpu_core_count as int) + end)
            &&& occurs(
                r@,
                "memory regions: ".spec_bytes() + decimal(m.memory_region_count as int) + end,
            )
            &&& occurs(
                r@,
                "compute devices: ".spec_bytes() + decimal(m.compute_device_count as int) + end,
            )
            &&& occurs(
                r@,
                "power domains: ".spec_bytes() + decimal(m.power_domain_count as int) + end,
            )
            &&& occurs(
                r@,
                "hal cpu core count (via HalInterface): ".spec_bytes() + decimal(core_count as int)
                    + end,
            )
            &&& occurs(
                r@,
                "hal timer frequency_hz (via HalInterface): ".spec_bytes() + decimal(
                    frequency_hz as int,
                ) + end,
            )
            &&& info.well_formed() ==> occurs(r@, "BootInfo validation: OK\n".spec_bytes())
            &&& !info.well_formed() ==> occurs(r@, "BootInfo validation FAILED: ".spec_bytes())
        }),
{
    let m = info.hardware_manifest;
    let rule = "---------------------------------------------\n".spec_bytes();
    let head = "hello from kernel\n".spec_bytes();
    let p = "boot protocol: ".spec_bytes() + crate::report::protocol_name(info.protocol)
        + "\n".spec_bytes();
    let c = number_line("cpu cores: ".spec_bytes(), m.cpu_core_count as int);
    let g = number_line("memory regions: ".spec_bytes(), m.memory_region_count as int);
    let d = number_line("compute devices: ".spec_bytes(), m.compute_device_count as int);
    let w = number_line("power domains: ".spec_bytes(), m.power_domain_count as int);
    let v = validity_line(*info);
    let x = number_line(
        "hal cpu core count (via HalInterface): ".spec_bytes(),
        core_count as int,
    );
    let y = number_line(
        "hal timer frequency_hz (via HalInterface): ".spec_bytes(),
        frequency_hz as int,
    );
    let z = "kernel-stub halting (Phase 1 HAL boot test complete)\n".spec_bytes();
    assert(machine_lines(*info) == p + c + g + d + w + v);
    assert(r@ == head + rule + (p + c + g + d + w + v) + rule + x + y + z);
    lemma_first_lines(head + rule, p, c, g, d, w, v, rule + x + y + z);
    assert(head + rule + (p + c + g + d + w + v) + (rule + x + y + z) =~= head + rule + (p + c + g
        + d + w + v) + rule + x + y + z);
    let front = head + rule + (p + c + g + d + w + v) + rule;
    lemma_middle_occurs(front, x, y + z);
    assert(front + x + (y + z) =~= r@);
    lemma_middle_occurs(front + x, y, z);
    if !info.well_formed() {
        let bad = "BootInfo validation FAILED: ".spec_bytes();
        let why = vstd::utf8::encode_utf8(
            crate::hal::error::HalError::MalformedBootInfo.text(),
        );
        let end = "\n".spec_bytes();
        lemma_part_occurs(
            head + rule + (p + c + g + d + w),
            bad,
            why + end,
            rule + x + y + z,
        );
        assert(bad + (why + end) =~= v);
        assert(head + rule + (p + c + g + d + w) + (bad + (why + end)) + (rule + x + y + z) =~= r@);
    }
}

/// The kernel's report tells the core count and the frequency that the CPU and the
/// timer behind its handle answer.
pub proof fn write_kernel_report<'a, const N: usize, C: CpuAbstraction<N>, T: TimerAbstraction>(
    hal: &HalInterface<'a, N, C, T>,
    info: &BootInfo,
    r: Vec<u8>,
    cores: usize,
    frequency: u64,
)
    requires
        call_ensures(kernel_report::<N, C, T>, (hal, info), r),
        forall|n: usize|
            call_ensures(<C as CpuAbstraction<N>>::core_count, (hal.cpu,), n) ==> n == cores,
        forall|f: u64| call_ensures(T::frequency_hz, (hal.timer,), f) ==> f == frequency,
    ensures
        occurs(
            r@,
            "hal cpu core count (via HalInterface): ".spec_bytes() + decimal(cores as int)
                + "\n".spec_bytes(),
        ),
        occurs(
            r@,
            "hal timer frequency_hz (via HalInterface): ".spec_bytes() + decimal(frequency as int)
                + "\n".spec_bytes(),
        ),
{
    let x = number_line("hal cpu core count (via HalInterface): ".spec_bytes(), cores as int);
    let y = number_line(
        "hal timer frequency_hz (via HalInterface): ".spec_bytes(),
        frequency as int,
    );
    let rule = "---------------------------------------------\n".spec_bytes();
    let z = "kernel-stub halting (Phase 1 HAL boot test complete)\n".spec_bytes();
    let front = "hello from kernel\n".spec_bytes() + rule + machine_lines(*info) + rule;
    assert(r@ == front + x + y + z);
    lemma_middle_occurs(front, x, y + z);
    assert(front + x + (y + z) =~= r@);
    lemma_middle_occurs(front + x, y, z);
}

/// A manifest that is assembled holds the first of each kind that it is given, and the
/// controller and the timer as they are.
pub proof fn assemble(
    core_count: u32,
    feature_flags: u64,
    regions: &[MemoryRegionRaw],
    devices: &[ComputeDeviceRaw],
    domains: &[PowerDomainRaw],
    controller: InterruptControllerInfoRaw,
    timer: TimerInfoRaw,
    m: HardwareManifestRaw,
    i: int,
)
    requires
        call_ensures(
            assemble_manifest,
            (core_count, feature_flags, regions, devices, domains, controller, timer),
            m,
        ),
        0 <= i,
    ensures
        m.cpu_core_count == core_count && m.cpu_feature_flags == feature_flags,
        m.interrupt_controller == controller && m.timer == timer,
        i < m.memory_region_count <==> i < 64 && i < regions@.len(),
        i < m.memory_region_count ==> m.memory_regions@[i] == regions@[i],
        i < m.compute_device_count <==> i < 32 && i < devices@.len(),
        i < m.compute_device_count ==> m.compute_devices@[i].device_index == i
            && m.compute_devices@[i].kind == devices@[i].kind && m.compute_devices@[i].vendor
            == devices@[i].vendor && m.compute_devices@[i].dedicated_memory_bytes
            == devices@[i].dedicated_memory_bytes,
        i < m.power_domain_count <==> i < 16 && i < domains@.len(),
        i < m.power_domain_count ==> m.power_domains@[i] == domains@[i],
{
    manifest_holds_the_first_of_each(
        m,
        core_count,
        feature_flags,
        regions@,
        devices@,
        domains@,
        controller,
        timer,
        i,
    );
}

/// The growable form of a manifest has everything that the fixed form counts; that of a
/// device has its properties and the name that it is given.
pub proof fn grow_manifest<Cap>(
    raw: &HardwareManifestRaw,
    m: HardwareManifest<Cap>,
    device: &ComputeDeviceRaw,
    name: String,
    named: ComputeDevice<Cap>,
    read: ComputeDevice<Cap>,
    i: int,
)
    requires
        raw.memory_region_count <= 64,
        raw.compute_device_count <= 32,
        raw.power_domain_count <= 16,
        device.short_name_len <= 32,
        call_ensures(HardwareManifest::<Cap>::from_raw, (raw,), m),
        call_ensures(ComputeDevice::<Cap>::named, (device, name), named),
        call_ensures(ComputeDevice::<Cap>::from_raw, (device,), read),
        0 <= i,
    ensures
        m.cpu.core_count == raw.cpu_core_count && m.cpu.feature_flags.0 == raw.cpu_feature_flags,
        m.memory_regions@.len() == raw.memory_region_count,
        i < raw.memory_region_count ==> m.memory_regions@[i].base_addr
            == raw.memory_regions@[i].base_addr && m.memory_regions@[i].length_bytes
            == raw.memory_regions@[i].length_bytes && (m.memory_regions@[i].kind is Usable
            <==> raw.memory_regions@[i].kind is Usable),
        m.compute_devices@.len() == raw.compute_device_count,
        i < raw.compute_device_count ==> m.compute_devices@[i].device_index
            == raw.compute_devices@[i].device_index,
        m.power_domains@.len() == raw.power_domain_count,
        i < raw.power_domain_count ==> m.power_domains@[i].domain_id
            == raw.power_domains@[i].domain_id,
        m.timer.frequency_hz == raw.timer.frequency_hz,
        m.timer.supports_tickless == raw.timer.supports_tickless,
        m.interrupt_controller.primary_base == raw.interrupt_controller.primary_base,
        m.interrupt_controller.irq_line_count == raw.interrupt_controller.irq_line_count,
        named.name@ == name@ && named.device_index == device.device_index,
        named.vendor.0 == device.vendor.0 && read.vendor.0 == device.vendor.0,
        read.device_index == device.device_index,
        named.kind is Gpu <==> device.kind is Gpu,
        read.kind is Gpu <==> device.kind is Gpu,
        named.dedicated_memory_bytes is Some <==> device.has_dedicated_memory,
        read.dedicated_memory_bytes is Some <==> device.has_dedicated_memory,
        named.capability_token is None && read.capability_token is None,
        vstd::utf8::valid_utf8(device.short_name@.take(device.short_name_len as int)) ==> read.name@
            == vstd::utf8::decode_utf8(device.short_name@.take(device.short_name_len as int)),
{
    growable_manifest_keeps_everything(m, *raw, i);
    devices_keep_their_contents(named, *device, name@, i);
    devices_keep_their_contents(read, *device, read.name@, i);
    assert(device.name_bytes() =~= device.short_name@.take(device.short_name_len as int));
}

/// Granting access to a device changes nothing else of it.
pub proof fn grant_device<Cap>(device: &mut ComputeDevice<Cap>, token: Cap)
    requires
        call_ensures(ComputeDevice::<Cap>::set_capability_token, (device, token), ()),
    ensures
        final(device).capability_token == Some(token),
        final(device).kind == old(device).kind && final(device).vendor == old(device).vendor,
        final(device).name == old(device).name,
        final(device).device_index == old(device).device_index,
        final(device).dedicated_memory_bytes == old(device).dedicated_memory_bytes,
        final(device).unified_memory_capable == old(device).unified_memory_capable,
        final(device).bandwidth_to_cpu_mbps == old(device).bandwidth_to_cpu_mbps,
{
}

/// The lists that scans and maps fill are handed out as far as they count.
pub proof fn hand_out_lists(
    devices: &crate::pci::DeviceList,
    regions: &crate::uefi::RegionList,
    a: &[ComputeDeviceRaw],
    b: &[MemoryRegionRaw],
    i: int,
)
    requires
        devices.well_formed() && regions.well_formed(),
        call_ensures(crate::pci::DeviceList::as_slice, (devices,), a),
        call_ensures(crate::uefi::RegionList::as_slice, (regions,), b),
        0 <= i,
    ensures
        a@.len() == devices.count && b@.len() == regions.count,
        i < devices.count ==> a@[i] == devices.devices@[i],
        i < regions.count ==> b@[i] == regions.regions@[i],
{
}

/// Records of a controller, a timer and a domain have the properties they are made
/// with.
pub proof fn make_records(
    kind: InterruptControllerKindRaw,
    base: u64,
    secondary: bool,
    second: u64,
    lines: u32,
    cores: u32,
    controller: InterruptControllerInfoRaw,
    source: TimerKindRaw,
    frequency: u64,
    tickless: bool,
    timer: TimerInfoRaw,
    id: u32,
    device: u32,
    scales: bool,
    senses: bool,
    domain: PowerDomainRaw,
)
    requires
        call_ensures(
            InterruptControllerInfoRaw::new,
            (kind, base, secondary, second, lines, cores),
            controller,
        ),
        call_ensures(TimerInfoRaw::new, (source, frequency, tickless), timer),
        call_ensures(PowerDomainRaw::new, (id, device, scales, senses), domain),
    ensures
        controller.kind == kind && controller.primary_base == base,
        controller.has_secondary == secondary && controller.secondary_base == second,
        controller.irq_line_count == lines && controller.ipi_target_core_count == cores,
        timer.kind == source && timer.frequency_hz == frequency,
        timer.supports_tickless == tickless,
        domain.domain_id == id && domain.associated_compute_device_index == device,
        domain.supports_dvfs == scales && domain.has_thermal_sensor == senses,
{
}

/// Empty records tell of nothing: no memory, no device, no lines, no frequency, and a
/// domain of no device.
pub proof fn make_empty_records(
    region: MemoryRegionRaw,
    device: ComputeDeviceRaw,
    controller: InterruptControllerInfoRaw,
    timer: TimerInfoRaw,
    domain: PowerDomainRaw,
)
    requires
        call_ensures(MemoryRegionRaw::zero, (), region),
        call_ensures(ComputeDeviceRaw::zero, (), device),
        call_ensures(InterruptControllerInfoRaw::zero, (), controller),
        call_ensures(TimerInfoRaw::zero, (), timer),
        call_ensures(PowerDomainRaw::zero, (), domain),
    ensures
        region.base_addr == 0 && region.length_bytes == 0 && region.kind is Reserved,
        !region.behind_iommu,
        device.kind is Cpu && device.vendor.0 == 0 && device.device_index == 0,
        !device.has_dedicated_memory && device.dedicated_memory_bytes == 0,
        !device.unified_memory_capable && device.bandwidth_to_cpu_mbps == 0,
        device.short_name_len == 0,
        controller.primary_base == 0 && !controller.has_secondary && controller.irq_line_count == 0,
        controller.ipi_target_core_count == 0,
        timer.frequency_hz == 0 && !timer.supports_tickless,
        domain.domain_id == 0 && domain.associated_compute_device_index == 0xFFFF_FFFF,
        !domain.supports_dvfs && !domain.has_thermal_sensor,
{
}

/// A manifest hands out what it counts, in order.
pub proof fn hand_out_manifest(
    m: &HardwareManifestRaw,
    regions: &[MemoryRegionRaw],
    devices: &[ComputeDeviceRaw],
    domains: &[PowerDomainRaw],
    i: int,
)
    requires
        m.memory_region_count <= 64 && m.compute_device_count <= 32 && m.power_domain_count <= 16,
        call_ensures(HardwareManifestRaw::memory_regions, (m,), regions),
        call_ensures(HardwareManifestRaw::compute_devices, (m,), devices),
        call_ensures(HardwareManifestRaw::power_domains, (m,), domains),
        0 <= i,
    ensures
        regions@.len() == m.memory_region_count,
        devices@.len() == m.compute_device_count,
        domains@.len() == m.power_domain_count,
        i < regions@.len() ==> regions@[i] == m.memory_regions@[i],
        i < devices@.len() ==> devices@[i] == m.compute_devices@[i],
        i < domains@.len() ==> domains@[i] == m.power_domains@[i],
{
}

} // verus!
