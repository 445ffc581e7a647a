//! Laws of the scan for compute devices.

use vstd::prelude::*;

use crate::manifest::raw::{ComputeDeviceRaw, ComputeKindRaw};
use crate::pci::{
    bar_memory, header_of, kind_of_function, start_model, whole_scan_lists_the_devices,
    ConfigSpace, PciDeviceHeader, PciFunction, PciRequest, ScanModel, ScanPhase,
};

verus! {

/// A header is there unless the vendor reads as all ones, and holds the bytes of
/// the three dwords: the vendor below the device, the class above the subclass,
/// and the header type in the third byte.
pub proof fn header_holds_the_dwords(dword0: u32, dword2: u32, dword3: u32)
    ensures
        header_of(dword0, dword2, dword3) is None <==> dword0 % 0x1_0000 == 0xFFFF,
        header_of(dword0, dword2, dword3) matches Some(h) ==> {
            &&& h.device_id * 0x1_0000 + h.vendor_id == dword0
            &&& h.class_code * 0x100_0000 + h.subclass * 0x1_0000 <= dword2 < h.class_code
                * 0x100_0000 + h.subclass * 0x1_0000 + 0x1_0000
            &&& h.header_type == dword3 / 0x1_0000 % 0x100
        },
{
}

/// A display controller is a GPU whatever its subclass, a processing accelerator
/// an NPU, anything else of vendor 0x1AE0 a TPU, and nothing else a compute
/// device.
pub proof fn class_and_vendor_decide_the_kind(header: PciDeviceHeader)
    ensures
        header.class_code == 0x03 <==> kind_of_function(header) == Some(ComputeKindRaw::Gpu),
        header.class_code == 0x12 <==> kind_of_function(header) == Some(ComputeKindRaw::Npu),
        header.class_code != 0x03 && header.class_code != 0x12 && header.vendor_id == 0x1AE0
            <==> kind_of_function(header) == Some(ComputeKindRaw::Tpu),
        header.class_code != 0x03 && header.class_code != 0x12 && header.vendor_id != 0x1AE0
            <==> kind_of_function(header) is None,
{
}

/// Neither the subclass nor the device id nor the header type matters to what a
/// function is.
pub proof fn subclass_does_not_matter(one: PciDeviceHeader, other: PciDeviceHeader)
    requires
        one.class_code == other.class_code,
        one.vendor_id == other.vendor_id,
    ensures
        kind_of_function(one) == kind_of_function(other),
{
}

/// A memory register of `size` bytes, which keeps all address bits from `size`
/// on and has any type in its low four, is found to have `size` bytes. A register
/// that is not implemented, or that is for I/O space, is found to have none.
pub proof fn register_size_is_found(original: u32, mask: u32, size: u64, low: u32)
    requires
        16 <= size <= 0x8000_0000,
        size % 16 == 0,
        low < 16,
        original % 2 == 0,
        mask == 0x1_0000_0000 - size + low,
    ensures
        bar_memory(original, mask) == Some(size),
        bar_memory(original, 0) is None,
        forall|io: u32, any: u32| io % 2 == 1 ==> #[trigger] bar_memory(io, any) is None,
{
}

/// The function at position `p` of the space answers, can be reached, and is a
/// compute device by its class or vendor. Functions besides the first are there
/// only if the first has bit 23 of its fourth dword set.
pub open spec fn is_compute_function(space: ConfigSpace, p: int) -> bool {
    let b = p / 256;
    let d = p / 8 % 32;
    let f = p % 8;
    let id = (space.dword)(b, d, f, 0x00);
    let class = (space.dword)(b, d, f, 0x08) / 0x100_0000;
    &&& 0 <= p < 65536
    &&& (space.dword)(b, d, 0, 0x00) % 0x1_0000 != 0xFFFF
    &&& f == 0 || (space.dword)(b, d, 0, 0x0C) / 0x80_0000 % 2 == 1
    &&& id % 0x1_0000 != 0xFFFF
    &&& class == 0x03 || class == 0x12 || id % 0x1_0000 == 0x1AE0
}

/// `device` says in slot `slot` what the function at position `p` is: its kind,
/// its vendor, and the memory behind its first base address register.
pub open spec fn tells_of(device: ComputeDeviceRaw, space: ConfigSpace, p: int, slot: int) -> bool {
    let b = p / 256;
    let d = p / 8 % 32;
    let f = p % 8;
    let id = (space.dword)(b, d, f, 0x00);
    let class = (space.dword)(b, d, f, 0x08) / 0x100_0000;
    let bar = (space.dword)(b, d, f, 0x10);
    let mask = (space.bar_mask)(b, d, f);
    &&& device.kind == if class == 0x03 {
        ComputeKindRaw::Gpu
    } else if class == 0x12 {
        ComputeKindRaw::Npu
    } else {
        ComputeKindRaw::Tpu
    }
    &&& device.vendor.0 == id % 0x1_0000
    &&& device.has_dedicated_memory == (bar % 2 == 0 && mask != 0)
    &&& device.has_dedicated_memory ==> device.dedicated_memory_bytes + mask / 16 * 16
        == 0x1_0000_0000
    &&& !device.has_dedicated_memory ==> device.dedicated_memory_bytes == 0
    &&& !device.unified_memory_capable
    &&& device.bandwidth_to_cpu_mbps == 0
    &&& device.short_name_len == 0
    &&& device.device_index == slot
}

/// The positions below `n` of compute functions, in order.
spec fn places_below(space: ConfigSpace, n: int) -> Seq<int>
    decreases n,
{
    if n <= 0 {
        Seq::empty()
    } else if is_compute_function(space, n - 1) {
        places_below(space, n - 1).push(n - 1)
    } else {
        places_below(space, n - 1)
    }
}

proof fn lemma_kind_is_as_said(space: ConfigSpace, p: int)
    requires
        0 <= p < 65536,
    ensures
        space.kind(p / 256, p / 8 % 32, p % 8) is Some <==> is_compute_function(space, p),
        is_compute_function(space, p) ==> forall|slot: int|
            0 <= slot <= 65536 ==> tells_of(
                #[trigger] space.record(p / 256, p / 8 % 32, p % 8, slot),
                space,
                p,
                slot,
            ),
{
    let b = p / 256;
    let d = p / 8 % 32;
    let first = (space.dword)(b, d, 0, 0x0C);
    assert(first / 0x1_0000 % 0x100 >= 0x80 <==> first / 0x80_0000 % 2 == 1);
}

proof fn lemma_places(space: ConfigSpace, n: int)
    requires
        0 <= n <= 65536,
    ensures
        places_below(space, n).len() == space.devices(n).len() <= n,
        forall|i: int|
            0 <= i < places_below(space, n).len() ==> {
                let p = #[trigger] places_below(space, n)[i];
                &&& 0 <= p < n
                &&& is_compute_function(space, p)
                &&& tells_of(space.devices(n)[i], space, p, i)
            },
        forall|i: int, j: int|
            0 <= i < j < places_below(space, n).len() ==> places_below(space, n)[i]
                < places_below(space, n)[j],
        forall|p: int|
            0 <= p < n && #[trigger] is_compute_function(space, p) ==> places_below(
                space,
                n,
            ).contains(p),
    decreases n,
{
    if n > 0 {
        lemma_places(space, n - 1);
        lemma_kind_is_as_said(space, n - 1);
        let before = places_below(space, n - 1);
        let after = places_below(space, n);
        assert forall|p: int| 0 <= p < n && #[trigger] is_compute_function(space, p) implies
            after.contains(p) by {
            if p < n - 1 {
                assert(before.contains(p));
                let i = choose|i: int| 0 <= i < before.len() && before[i] == p;
                assert(after[i] == p);
            } else {
                assert(after[before.len() as int] == p);
            }
        }
        assert forall|i: int| 0 <= i < after.len() implies {
            let p = #[trigger] after[i];
            &&& 0 <= p < n
            &&& is_compute_function(space, p)
            &&& tells_of(space.devices(n)[i], space, p, i)
        } by {
            if i < before.len() {
                assert(after[i] == before[i]);
            }
        }
    }
}

/// A scan that an unchanging configuration space answers lists, in the order of
/// their positions, exactly the functions that are compute devices, and says of
/// each what the space says. If it has overflowed, its 32 places hold the first
/// of them and there is a further one; else it holds all.
pub proof fn scan_lists_exactly_the_compute_functions(space: ConfigSpace) -> (places: Seq<int>)
    ensures
        ({
            let end = start_model().finish(space);
            &&& end.phase == ScanPhase::Done
            &&& places.len() == end.devices.len()
            &&& end.devices.len() <= 32
            &&& forall|i: int|
                0 <= i < places.len() ==> is_compute_function(space, #[trigger] places[i])
                    && tells_of(end.devices[i], space, places[i], i)
            &&& forall|i: int, j: int| 0 <= i < j < places.len() ==> places[i] < places[j]
            &&& !end.overflowed ==> forall|p: int| #[trigger]
                is_compute_function(space, p) ==> places.contains(p)
            &&& end.overflowed ==> places.len() == 32 && (forall|p: int| #[trigger]
                is_compute_function(space, p) && p <= places[31] ==> places.contains(p)) && (exists|
                p: int,
            | #[trigger]
                is_compute_function(space, p) && p > places[31])
        }),
{
    whole_scan_lists_the_devices(space);
    lemma_places(space, 65536);
    let all = places_below(space, 65536);
    let end = start_model().finish(space);
    let places = all.take(end.devices.len() as int);
    if end.overflowed {
        assert(is_compute_function(space, all[32]) && all[32] > places[31]);
        assert forall|p: int| #[trigger]
            is_compute_function(space, p) && p <= places[31] implies places.contains(p) by {
            assert(all.contains(p));
            let i = choose|i: int| 0 <= i < all.len() && all[i] == p;
            if i >= 32 {
                assert(all[31] < all[i]);
            }
            assert(places[i] == p);
        }
    } else {
        assert(places =~= all);
    }
    places
}

/// Every function of the display class that answers and can be reached is in the
/// list of a scan that did not overflow, as a GPU of its own vendor.
pub proof fn every_display_controller_is_listed(space: ConfigSpace, b: int, d: int, f: int)
    requires
        0 <= b < 256,
        0 <= d < 32,
        0 <= f < 8,
        (space.dword)(b, d, 0, 0x00) % 0x1_0000 != 0xFFFF,
        f == 0 || (space.dword)(b, d, 0, 0x0C) / 0x80_0000 % 2 == 1,
        (space.dword)(b, d, f, 0x00) % 0x1_0000 != 0xFFFF,
        (space.dword)(b, d, f, 0x08) / 0x100_0000 == 0x03,
        !start_model().finish(space).overflowed,
    ensures
        exists|i: int|
            0 <= i < start_model().finish(space).devices.len() && ({
                let device = #[trigger] start_model().finish(space).devices[i];
                device.kind == ComputeKindRaw::Gpu && device.vendor.0 == (space.dword)(
                    b,
                    d,
                    f,
                    0x00,
                ) % 0x1_0000
            }),
{
    let p = b * 256 + d * 8 + f;
    assert(p / 8 == b * 32 + d);
    assert(p / 256 == b && p / 8 % 32 == d && p % 8 == f);
    let places = scan_lists_exactly_the_compute_functions(space);
    assert(is_compute_function(space, p));
    assert(places.contains(p));
    let i = choose|i: int| 0 <= i < places.len() && places[i] == p;
    assert(tells_of(start_model().finish(space).devices[i], space, places[i], i));
}

/// A scan asks only for the identifying dwords and the first base address
/// register of the function that it is at, and writes nothing but all ones and
/// the register's own value.
pub proof fn scan_touches_only_what_it_must(scan: ScanModel)
    ensures
        ({
            let at = PciFunction {
                bus: scan.bus as u8,
                device: scan.device as u8,
                function: scan.function as u8,
            };
            match scan.asks() {
                None => scan.phase == ScanPhase::Done,
                Some(PciRequest::Read { at: asked, offset }) => asked == at && (offset == 0x00
                    || offset == 0x08 || offset == 0x0C || offset == 0x10) && (offset == 0x10
                    <==> scan.phase is BarOriginal || scan.phase is BarMask),
                Some(PciRequest::Write { at: asked, offset, value }) => asked == at && offset
                    == 0x10 && match scan.phase {
                    ScanPhase::BarFill { .. } => value == 0xFFFF_FFFF,
                    ScanPhase::BarRestore { original, .. } => value == original,
                    _ => false,
                },
            }
        }),
{
}

/// A register is read again only right after all ones were written to it, what
/// was read before is what it gets back, and nothing else comes in between.
pub proof fn sizing_fills_reads_and_restores(scan: ScanModel, value: u32)
    ensures
        ({
            let at = PciFunction {
                bus: scan.bus as u8,
                device: scan.device as u8,
                function: scan.function as u8,
            };
            let next = scan.next(value);
            let stays = next.bus == scan.bus && next.device == scan.device && next.function
                == scan.function && next.devices == scan.devices;
            &&& next.phase matches ScanPhase::BarFill { original, .. } ==> stays && original == value
                && scan.asks() == Some(PciRequest::Read { at, offset: 0x10 })
            &&& next.phase matches ScanPhase::BarMask { original, .. } ==> stays && scan.asks()
                == Some(PciRequest::Write { at, offset: 0x10, value: 0xFFFF_FFFF }) && (
            scan.phase matches ScanPhase::BarFill { original: o, .. } && o == original)
            &&& next.phase matches ScanPhase::BarRestore { original, mask, .. } ==> stays && mask
                == value && scan.asks() == Some(PciRequest::Read { at, offset: 0x10 }) && (
            scan.phase matches ScanPhase::BarMask { original: o, .. } && o == original)
            &&& scan.phase is BarFill ==> next.phase is BarMask
            &&& scan.phase is BarMask ==> next.phase is BarRestore
            &&& scan.phase matches ScanPhase::BarRestore { original, .. } ==> scan.asks() == Some(
                PciRequest::Write { at, offset: 0x10, value: original },
            )
        }),
{
}

} // verus!
