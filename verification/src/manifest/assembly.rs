//! Folding what each subsystem has discovered into one manifest.

use vstd::prelude::*;

use crate::manifest::raw::{
    ComputeDeviceRaw, HardwareManifestRaw, InterruptControllerInfoRaw, MemoryRegionRaw,
    PowerDomainRaw, TimerInfoRaw, MAX_COMPUTE_DEVICES, MAX_MEMORY_REGIONS, MAX_POWER_DOMAINS,
};

verus! {

/// The first `capacity` items.
pub open spec fn fitting<T>(items: Seq<T>, capacity: int) -> Seq<T> {
    if items.len() < capacity {
        items
    } else {
        items.take(capacity)
    }
}

/// The devices, each told its own slot.
pub open spec fn numbered(devices: Seq<ComputeDeviceRaw>) -> Seq<ComputeDeviceRaw> {
    Seq::new(
        devices.len(),
        |i: int| ComputeDeviceRaw { device_index: i as u32, ..devices[i] },
    )
}

/// The manifest of a machine with the given parts. What exceeds a capacity is
/// left out.
pub open spec fn is_manifest_of(
    manifest: HardwareManifestRaw,
    core_count: u32,
    feature_flags: u64,
    regions: Seq<MemoryRegionRaw>,
    devices: Seq<ComputeDeviceRaw>,
    domains: Seq<PowerDomainRaw>,
    interrupt_controller: InterruptControllerInfoRaw,
    timer: TimerInfoRaw,
) -> bool {
    &&& manifest.well_formed()
    &&& manifest.cpu_core_count == core_count
    &&& manifest.cpu_feature_flags == feature_flags
    &&& manifest.region_seq() == fitting(regions, MAX_MEMORY_REGIONS as int)
    &&& manifest.device_seq() == numbered(fitting(devices, MAX_COMPUTE_DEVICES as int))
    &&& manifest.domain_seq() == fitting(domains, MAX_POWER_DOMAINS as int)
    &&& manifest.interrupt_controller == interrupt_controller
    &&& manifest.timer == timer
}

/// The manifest holds every region, device and domain, in order and unchanged.
pub open spec fn holds_all(
    manifest: HardwareManifestRaw,
    regions: Seq<MemoryRegionRaw>,
    devices: Seq<ComputeDeviceRaw>,
    domains: Seq<PowerDomainRaw>,
) -> bool {
    &&& manifest.region_seq() == regions
    &&& manifest.device_seq() == devices
    &&& manifest.domain_seq() == domains
}

/// Where no capacity is exceeded and every device's index is its place, nothing
/// is left out of the manifest and nothing in it is changed.
pub proof fn parts_that_fit_are_all_held(
    manifest: HardwareManifestRaw,
    core_count: u32,
    feature_flags: u64,
    regions: Seq<MemoryRegionRaw>,
    devices: Seq<ComputeDeviceRaw>,
    domains: Seq<PowerDomainRaw>,
    interrupt_controller: InterruptControllerInfoRaw,
    timer: TimerInfoRaw,
)
    requires
        is_manifest_of(
            manifest,
            core_count,
            feature_flags,
            regions,
            devices,
            domains,
            interrupt_controller,
            timer,
        ),
        regions.len() <= MAX_MEMORY_REGIONS,
        devices.len() <= MAX_COMPUTE_DEVICES,
        domains.len() <= MAX_POWER_DOMAINS,
        forall|i: int| 0 <= i < devices.len() ==> (#[trigger] devices[i]).device_index == i,
    ensures
        holds_all(manifest, regions, devices, domains),
{
    assert(fitting(regions, MAX_MEMORY_REGIONS as int) =~= regions);
    assert(fitting(devices, MAX_COMPUTE_DEVICES as int) =~= devices);
    assert(fitting(domains, MAX_POWER_DOMAINS as int) =~= domains);
    assert(numbered(devices) =~= devices);
}

fn push_regions(manifest: &mut HardwareManifestRaw, regions: &[MemoryRegionRaw])
    requires
        old(manifest).well_formed(),
        old(manifest).memory_region_count == 0,
    ensures
        final(manifest).well_formed(),
        old(manifest).same_but_regions(*final(manifest)),
        final(manifest).region_seq() == fitting(regions@, MAX_MEMORY_REGIONS as int),
{
    let mut i: usize = 0;
    while i < regions.len()
        invariant
            i <= regions@.len(),
            manifest.well_formed(),
            old(manifest).same_but_regions(*manifest),
            manifest.memory_region_count == (if i < MAX_MEMORY_REGIONS {
                i as int
            } else {
                MAX_MEMORY_REGIONS as int
            }),
            manifest.region_seq() == regions@.take(manifest.memory_region_count as int),
        decreases regions@.len() - i,
    {
        let ghost before = *manifest;
        let _ = manifest.push_memory_region(regions[i]);
        proof {
            if i < MAX_MEMORY_REGIONS {
                assert(regions@.take(i as int).push(regions@[i as int]) =~= regions@.take(i + 1));
            }
        }
        i = i + 1;
    }
    assert(manifest.region_seq() =~= fitting(regions@, MAX_MEMORY_REGIONS as int));
}

fn push_devices(manifest: &mut HardwareManifestRaw, devices: &[ComputeDeviceRaw])
    requires
        old(manifest).well_formed(),
        old(manifest).compute_device_count == 0,
    ensures
        final(manifest).well_formed(),
        old(manifest).same_but_devices(*final(manifest)),
        final(manifest).device_seq() == numbered(fitting(devices@, MAX_COMPUTE_DEVICES as int)),
{
    let mut i: usize = 0;
    while i < devices.len()
        invariant
            i <= devices@.len(),
            manifest.well_formed(),
            old(manifest).same_but_devices(*manifest),
            manifest.compute_device_count == (if i < MAX_COMPUTE_DEVICES {
                i as int
            } else {
                MAX_COMPUTE_DEVICES as int
            }),
            manifest.device_seq() == numbered(devices@.take(manifest.compute_device_count as int)),
        decreases devices@.len() - i,
    {
        let _ = manifest.push_compute_device(devices[i]);
        proof {
            if i < MAX_COMPUTE_DEVICES {
                let n = i as int;
                assert(numbered(devices@.take(n)).push(
                    ComputeDeviceRaw { device_index: i as u32, ..devices@[n] },
                ) =~= numbered(devices@.take(n + 1)));
            }
        }
        i = i + 1;
    }
    assert(numbered(devices@.take(manifest.compute_device_count as int)) =~= numbered(
        fitting(devices@, MAX_COMPUTE_DEVICES as int),
    ));
}

fn push_domains(manifest: &mut HardwareManifestRaw, domains: &[PowerDomainRaw])
    requires
        old(manifest).well_formed(),
        old(manifest).power_domain_count == 0,
    ensures
        final(manifest).well_formed(),
        old(manifest).same_but_domains(*final(manifest)),
        final(manifest).domain_seq() == fitting(domains@, MAX_POWER_DOMAINS as int),
{
    let mut i: usize = 0;
    while i < domains.len()
        invariant
            i <= domains@.len(),
            manifest.well_formed(),
            old(manifest).same_but_domains(*manifest),
            manifest.power_domain_count == (if i < MAX_POWER_DOMAINS {
                i as int
            } else {
                MAX_POWER_DOMAINS as int
            }),
            manifest.domain_seq() == domains@.take(manifest.power_domain_count as int),
        decreases domains@.len() - i,
    {
        let _ = manifest.push_power_domain(domains[i]);
        proof {
            if i < MAX_POWER_DOMAINS {
                assert(domains@.take(i as int).push(domains@[i as int]) =~= domains@.take(i + 1));
            }
        }
        i = i + 1;
    }
    assert(manifest.domain_seq() =~= fitting(domains@, MAX_POWER_DOMAINS as int));
}

/// Folds the parts of a machine into its manifest.
pub fn assemble_manifest(
    core_count: u32,
    feature_flags: u64,
    regions: &[MemoryRegionRaw],
    devices: &[ComputeDeviceRaw],
    domains: &[PowerDomainRaw],
    interrupt_controller: InterruptControllerInfoRaw,
    timer: TimerInfoRaw,
) -> (manifest: HardwareManifestRaw)
    ensures
        is_manifest_of(
            manifest,
            core_count,
            feature_flags,
            regions@,
            devices@,
            domains@,
            interrupt_controller,
            timer,
        ),
{
    let mut manifest = HardwareManifestRaw::zeroed();
    manifest.cpu_core_count = core_count;
    manifest.cpu_feature_flags = feature_flags;
    push_regions(&mut manifest, regions);
    push_devices(&mut manifest, devices);
    push_domains(&mut manifest, domains);
    manifest.interrupt_controller = interrupt_controller;
    manifest.timer = timer;
    manifest
}

} // verus!
