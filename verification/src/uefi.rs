//! The memory map that a UEFI loader hands over: a header with the size of the
//! map and of one descriptor, the descriptors, and the address of the ACPI root
//! pointer.

use vstd::prelude::*;

use crate::bytes::{le, read_u32_le, read_u64_le};
use crate::manifest::raw::{MemoryRegionKindRaw, MemoryRegionRaw, MAX_MEMORY_REGIONS};

verus! {

/// The memory types of UEFI, numbered from zero.
#[derive(Debug, Clone, Copy, PartialEq, Eq, Structural)]
pub enum UefiMemoryType {
    ReservedMemoryType,
    LoaderCode,
    LoaderData,
    BootServicesCode,
    BootServicesData,
    RuntimeServicesCode,
    RuntimeServicesData,
    ConventionalMemory,
    UnusableMemory,
    AcpiReclaimMemory,
    AcpiMemoryNvs,
    MemoryMappedIo,
    MemoryMappedIoPortSpace,
    PalCode,
    PersistentMemory,
}

impl UefiMemoryType {
    /// The number of the type.
    pub open spec fn number(self) -> int {
        match self {
            UefiMemoryType::ReservedMemoryType => 0,
            UefiMemoryType::LoaderCode => 1,
            UefiMemoryType::LoaderData => 2,
            UefiMemoryType::BootServicesCode => 3,
            UefiMemoryType::BootServicesData => 4,
            UefiMemoryType::RuntimeServicesCode => 5,
            UefiMemoryType::RuntimeServicesData => 6,
            UefiMemoryType::ConventionalMemory => 7,
            UefiMemoryType::UnusableMemory => 8,
            UefiMemoryType::AcpiReclaimMemory => 9,
            UefiMemoryType::AcpiMemoryNvs => 10,
            UefiMemoryType::MemoryMappedIo => 11,
            UefiMemoryType::MemoryMappedIoPortSpace => 12,
            UefiMemoryType::PalCode => 13,
            UefiMemoryType::PersistentMemory => 14,
        }
    }

    /// The type with the given number.
    pub fn from_u32(value: u32) -> (r: Option<Self>)
        ensures
            r is Some <==> value <= 14,
            r matches Some(ty) ==> ty.number() == value,
    {
        match value {
            0 => Some(UefiMemoryType::ReservedMemoryType),
            1 => Some(UefiMemoryType::LoaderCode),
            2 => Some(UefiMemoryType::LoaderData),
            3 => Some(UefiMemoryType::BootServicesCode),
            4 => Some(UefiMemoryType::BootServicesData),
            5 => Some(UefiMemoryType::RuntimeServicesCode),
            6 => Some(UefiMemoryType::RuntimeServicesData),
            7 => Some(UefiMemoryType::ConventionalMemory),
            8 => Some(UefiMemoryType::UnusableMemory),
            9 => Some(UefiMemoryType::AcpiReclaimMemory),
            10 => Some(UefiMemoryType::AcpiMemoryNvs),
            11 => Some(UefiMemoryType::MemoryMappedIo),
            12 => Some(UefiMemoryType::MemoryMappedIoPortSpace),
            13 => Some(UefiMemoryType::PalCode),
            14 => Some(UefiMemoryType::PersistentMemory),
            _ => None,
        }
    }
}

/// What memory of UEFI type `ty` is, once boot services have ended: loader,
/// boot services and conventional memory is free; ACPI memory and device
/// registers keep their kind; all else, and every unknown type, is reserved.
pub open spec fn kind_of(ty: u32) -> MemoryRegionKindRaw {
    if 1 <= ty <= 4 || ty == 7 {
        MemoryRegionKindRaw::Usable
    } else if ty == 9 {
        MemoryRegionKindRaw::AcpiReclaimable
    } else if ty == 10 {
        MemoryRegionKindRaw::AcpiNvs
    } else if ty == 11 || ty == 12 {
        MemoryRegionKindRaw::Mmio
    } else {
        MemoryRegionKindRaw::Reserved
    }
}

/// Classifies a UEFI memory type.
pub fn classify_uefi_type(ty: u32) -> (r: MemoryRegionKindRaw)
    ensures
        r == kind_of(ty),
{
    match UefiMemoryType::from_u32(ty) {
        Some(UefiMemoryType::ConventionalMemory)
        | Some(UefiMemoryType::BootServicesCode)
        | Some(UefiMemoryType::BootServicesData)
        | Some(UefiMemoryType::LoaderCode)
        | Some(UefiMemoryType::LoaderData) => MemoryRegionKindRaw::Usable,
        Some(UefiMemoryType::AcpiReclaimMemory) => MemoryRegionKindRaw::AcpiReclaimable,
        Some(UefiMemoryType::AcpiMemoryNvs) => MemoryRegionKindRaw::AcpiNvs,
        Some(UefiMemoryType::MemoryMappedIo)
        | Some(UefiMemoryType::MemoryMappedIoPortSpace) => MemoryRegionKindRaw::Mmio,
        Some(UefiMemoryType::RuntimeServicesCode)
        | Some(UefiMemoryType::RuntimeServicesData)
        | Some(UefiMemoryType::ReservedMemoryType)
        | Some(UefiMemoryType::UnusableMemory)
        | Some(UefiMemoryType::PalCode)
        | Some(UefiMemoryType::PersistentMemory)
        | None => MemoryRegionKindRaw::Reserved,
    }
}

/// The bytes of the header.
pub const HEADER_SIZE: usize = 16;

/// The bytes of a descriptor that mean something here; firmware may append
/// more.
pub const DESCRIPTOR_SIZE: u64 = 40;

/// The bytes that the descriptors take up.
pub open spec fn map_size(blob: Seq<u8>) -> int {
    le(blob, 0, 8) as int
}

/// The distance from one descriptor to the next.
pub open spec fn descriptor_stride(blob: Seq<u8>) -> int {
    le(blob, 8, 8) as int
}

/// The header, the descriptors and the root pointer address are all there.
pub open spec fn complete(blob: Seq<u8>) -> bool {
    blob.len() >= 24 && HEADER_SIZE + map_size(blob) + 8 <= blob.len()
}

/// How many descriptors the map holds; none if they are too short to be read.
pub open spec fn descriptor_count(blob: Seq<u8>) -> int {
    if descriptor_stride(blob) < DESCRIPTOR_SIZE {
        0
    } else {
        map_size(blob) / descriptor_stride(blob)
    }
}

/// Where descriptor `i` starts.
pub open spec fn descriptor_at(blob: Seq<u8>, i: int) -> int {
    HEADER_SIZE + i * descriptor_stride(blob)
}

/// The memory type of descriptor `i`.
pub open spec fn descriptor_type(blob: Seq<u8>, i: int) -> u32 {
    le(blob, descriptor_at(blob, i), 4) as u32
}

/// The first address of descriptor `i`.
pub open spec fn descriptor_start(blob: Seq<u8>, i: int) -> u64 {
    le(blob, descriptor_at(blob, i) + 8, 8) as u64
}

/// The bytes that descriptor `i` covers; it counts pages.
pub open spec fn descriptor_length(blob: Seq<u8>, i: int) -> int {
    le(blob, descriptor_at(blob, i) + 24, 8) as int * 4096
}

/// How many descriptors become regions; the rest is dropped.
pub open spec fn kept(blob: Seq<u8>) -> int {
    if descriptor_count(blob) < MAX_MEMORY_REGIONS {
        descriptor_count(blob)
    } else {
        MAX_MEMORY_REGIONS as int
    }
}

/// The length of every region fits in 64 bits.
pub open spec fn lengths_fit(blob: Seq<u8>) -> bool {
    forall|i: int| 0 <= i < kept(blob) ==> #[trigger] descriptor_length(blob, i) <= u64::MAX
}

/// The regions that the map describes, in its order.
pub open spec fn describes(
    blob: Seq<u8>,
    regions: Seq<MemoryRegionRaw>,
    behind_iommu: bool,
) -> bool {
    &&& regions.len() == kept(blob)
    &&& forall|i: int|
        0 <= i < kept(blob) ==> #[trigger] regions[i] == MemoryRegionRaw::of(
            descriptor_start(blob, i),
            descriptor_length(blob, i) as u64,
            kind_of(descriptor_type(blob, i)),
            behind_iommu,
        )
}

/// Memory regions in a fixed array.
#[derive(Clone, Copy)]
pub struct RegionList {
    pub regions: [MemoryRegionRaw; MAX_MEMORY_REGIONS],
    pub count: usize,
}

impl RegionList {
    /// The count is within the array.
    pub open spec fn well_formed(self) -> bool {
        self.count <= MAX_MEMORY_REGIONS
    }

    /// The regions in the list.
    pub open spec fn seq(self) -> Seq<MemoryRegionRaw> {
        self.regions@.take(self.count as int)
    }

    /// The regions in the list.
    pub fn as_slice(&self) -> (r: &[MemoryRegionRaw])
        requires
            self.well_formed(),
        ensures
            r@ == self.seq(),
    {
        vstd::slice::slice_subrange(self.regions.as_slice(), 0, self.count)
    }
}

proof fn lemma_descriptor_in_map(blob: Seq<u8>, i: int)
    requires
        complete(blob),
        0 <= i < descriptor_count(blob),
    ensures
        HEADER_SIZE <= descriptor_at(blob, i),
        descriptor_at(blob, i) + descriptor_stride(blob) <= HEADER_SIZE + map_size(blob),
        descriptor_at(blob, i + 1) == descriptor_at(blob, i) + descriptor_stride(blob),
{
    let s = descriptor_stride(blob);
    let m = map_size(blob);
    assert((i + 1) * s <= m) by (nonlinear_arith)
        requires
            i + 1 <= m / s,
            s > 0,
            m >= 0,
    ;
    assert((i + 1) * s == i * s + s) by (nonlinear_arith);
    assert(0 <= i * s) by (nonlinear_arith)
        requires
            0 <= i,
            s > 0,
    ;
}

/// Reads the regions out of a memory map and marks each as behind an IOMMU or
/// not.
pub fn read_regions(blob: &[u8], behind_iommu: bool) -> (r: RegionList)
    requires
        complete(blob@),
        lengths_fit(blob@),
    ensures
        r.well_formed(),
        describes(blob@, r.seq(), behind_iommu),
{
    let size: u64 = read_u64_le(blob, 0);
    let stride: u64 = read_u64_le(blob, 8);
    let mut list = RegionList { regions: [MemoryRegionRaw::zero(); 64], count: 0 };
    if stride < DESCRIPTOR_SIZE {
        return list;
    }
    let mut at: usize = HEADER_SIZE;
    let mut remaining: u64 = size;
    let ghost s = stride as int;
    let ghost n = size as int / s;
    proof {
        assert(descriptor_count(blob@) == n);
        assert(blob.len() == blob@.len());
    }
    while remaining >= stride && list.count < MAX_MEMORY_REGIONS
        invariant
            complete(blob@),
            blob.len() == blob@.len(),
            lengths_fit(blob@),
            size == map_size(blob@),
            stride == descriptor_stride(blob@),
            stride >= DESCRIPTOR_SIZE,
            s == stride,
            n == descriptor_count(blob@),
            n == size as int / s,
            list.well_formed(),
            list.count <= n,
            at == descriptor_at(blob@, list.count as int),
            remaining == size - list.count * s,
            forall|i: int|
                0 <= i < list.count ==> #[trigger] list.regions@[i] == MemoryRegionRaw::of(
                    descriptor_start(blob@, i),
                    descriptor_length(blob@, i) as u64,
                    kind_of(descriptor_type(blob@, i)),
                    behind_iommu,
                ),
        decreases MAX_MEMORY_REGIONS - list.count,
    {
        let ghost i = list.count as int;
        proof {
            assert(i < n) by (nonlinear_arith)
                requires
                    size - i * s >= s,
                    s > 0,
                    n == size as int / s,
            ;
            lemma_descriptor_in_map(blob@, i);
            assert(descriptor_length(blob@, i) <= u64::MAX);
            assert((i + 1) * s == i * s + s) by (nonlinear_arith);
        }
        let ty: u32 = read_u32_le(blob, at);
        let start: u64 = read_u64_le(blob, at + 8);
        let pages: u64 = read_u64_le(blob, at + 24);
        let index: usize = list.count;
        list.regions[index] = MemoryRegionRaw::new(
            start,
            pages * 4096,
            classify_uefi_type(ty),
            behind_iommu,
        );
        list.count = index + 1;
        at = at + stride as usize;
        remaining = remaining - stride;
    }
    proof {
        if list.count < MAX_MEMORY_REGIONS {
            let c = list.count as int;
            assert(c >= n) by (nonlinear_arith)
                requires
                    size - c * s < s,
                    s > 0,
                    n == size as int / s,
            ;
        }
    }
    list
}

/// Whether a memory map is all there and no region in it is too long.
pub fn is_readable(blob: &[u8]) -> (r: bool)
    ensures
        r == (complete(blob@) && lengths_fit(blob@)),
{
    assert(blob.len() == blob@.len());
    if blob.len() < 24 {
        return false;
    }
    let size: u64 = read_u64_le(blob, 0);
    let stride: u64 = read_u64_le(blob, 8);
    if size > (blob.len() - 24) as u64 {
        return false;
    }
    if stride < DESCRIPTOR_SIZE {
        return true;
    }
    let count: u64 = size / stride;
    let mut at: usize = HEADER_SIZE;
    let mut i: u64 = 0;
    while i < count && i < MAX_MEMORY_REGIONS as u64
        invariant
            complete(blob@),
            blob.len() == blob@.len(),
            stride == descriptor_stride(blob@),
            stride >= DESCRIPTOR_SIZE,
            count == descriptor_count(blob@),
            i <= kept(blob@),
            at == descriptor_at(blob@, i as int),
            forall|j: int| 0 <= j < i ==> #[trigger] descriptor_length(blob@, j) <= u64::MAX,
        decreases MAX_MEMORY_REGIONS - i,
    {
        proof {
            lemma_descriptor_in_map(blob@, i as int);
        }
        let pages: u64 = read_u64_le(blob, at + 24);
        if pages > u64::MAX / 4096 {
            assert(descriptor_length(blob@, i as int) > u64::MAX);
            return false;
        }
        at = at + stride as usize;
        i = i + 1;
    }
    true
}

/// The address of the ACPI root pointer, stored behind the descriptors.
pub fn locate_acpi_rsdp(blob: &[u8]) -> (r: u64)
    requires
        complete(blob@),
    ensures
        r == le(blob@, HEADER_SIZE + map_size(blob@), 8),
{
    let size: u64 = read_u64_le(blob, 0);
    assert(blob.len() == blob@.len());
    read_u64_le(blob, HEADER_SIZE + size as usize)
}

} // verus!
