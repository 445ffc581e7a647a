//! Laws of the memory map that firmware hands over.

use vstd::prelude::*;

use crate::bytes::le;
use crate::manifest::raw::MemoryRegionRaw;
use crate::uefi::{complete, describes, kind_of, lengths_fit, UefiMemoryType};

verus! {

/// A type that firmware numbers is the variant of that number.
pub proof fn memory_types_are_numbered_in_order(ty: UefiMemoryType)
    ensures
        ty is ReservedMemoryType <==> ty.number() == 0,
        ty is LoaderCode <==> ty.number() == 1,
        ty is LoaderData <==> ty.number() == 2,
        ty is BootServicesCode <==> ty.number() == 3,
        ty is BootServicesData <==> ty.number() == 4,
        ty is RuntimeServicesCode <==> ty.number() == 5,
        ty is RuntimeServicesData <==> ty.number() == 6,
        ty is ConventionalMemory <==> ty.number() == 7,
        ty is UnusableMemory <==> ty.number() == 8,
        ty is AcpiReclaimMemory <==> ty.number() == 9,
        ty is AcpiMemoryNvs <==> ty.number() == 10,
        ty is MemoryMappedIo <==> ty.number() == 11,
        ty is MemoryMappedIoPortSpace <==> ty.number() == 12,
        ty is PalCode <==> ty.number() == 13,
        ty is PersistentMemory <==> ty.number() == 14,
{
}

/// Memory is free exactly if the loader, boot services or nobody used it; ACPI
/// memory and device registers are what their types say; everything else, known
/// or not, is never to be handed out.
pub proof fn memory_is_free_only_if_nobody_needs_it(ty: UefiMemoryType, number: u32)
    requires
        ty.number() == number,
    ensures
        kind_of(number) is Usable <==> (ty is LoaderCode || ty is LoaderData
            || ty is BootServicesCode || ty is BootServicesData || ty is ConventionalMemory),
        kind_of(number) is AcpiReclaimable <==> ty is AcpiReclaimMemory,
        kind_of(number) is AcpiNvs <==> ty is AcpiMemoryNvs,
        kind_of(number) is Mmio <==> (ty is MemoryMappedIo || ty is MemoryMappedIoPortSpace),
        kind_of(number) is Reserved <==> (ty is ReservedMemoryType || ty is RuntimeServicesCode
            || ty is RuntimeServicesData || ty is UnusableMemory || ty is PalCode
            || ty is PersistentMemory),
{
}

/// The same over every number that firmware may write, known or not.
pub proof fn memory_kind_by_number(number: u32)
    ensures
        kind_of(number) is Usable <==> (number == 1 || number == 2 || number == 3 || number == 4
            || number == 7),
        kind_of(number) is AcpiReclaimable <==> number == 9,
        kind_of(number) is AcpiNvs <==> number == 10,
        kind_of(number) is Mmio <==> (number == 11 || number == 12),
        kind_of(number) is Reserved <==> (number == 0 || number == 5 || number == 6 || number == 8
            || number >= 13),
        !(kind_of(number) is KernelImage),
        !(kind_of(number) is BootReserved),
{
}

/// A map can be read exactly if the bytes that its header announces, and the
/// root pointer behind them, are there, and no region of the first 64 has more
/// bytes than 64 bits count.
pub proof fn map_is_readable_if_it_is_there(blob: Seq<u8>)
    ensures
        complete(blob) <==> blob.len() >= 24 && 16 + le(blob, 0, 8) + 8 <= blob.len(),
        lengths_fit(blob) <==> (le(blob, 8, 8) >= 40 ==> forall|i: int|
            #![trigger le(blob, 16 + i * le(blob, 8, 8) + 24, 8)]
            0 <= i < 64 && (i + 1) * le(blob, 8, 8) <= le(blob, 0, 8) ==> le(
                blob,
                16 + i * le(blob, 8, 8) + 24,
                8,
            ) * 4096 <= 0xFFFF_FFFF_FFFF_FFFF),
{
    let s = le(blob, 8, 8) as int;
    let m = le(blob, 0, 8) as int;
    if s >= 40 {
        assert forall|i: int| 0 <= i implies (#[trigger] ((i + 1) * s) <= m <==> i < m / s) by {
            lemma_quotient_counts(i, s, m);
        }
        if lengths_fit(blob) {
            assert forall|i: int|
                #![trigger le(blob, 16 + i * le(blob, 8, 8) + 24, 8)]
                0 <= i < 64 && (i + 1) * le(blob, 8, 8) <= le(blob, 0, 8) implies le(
                blob,
                16 + i * le(blob, 8, 8) + 24,
                8,
            ) * 4096 <= 0xFFFF_FFFF_FFFF_FFFF by {
                lemma_quotient_counts(i, s, m);
                assert(crate::uefi::descriptor_length(blob, i) <= u64::MAX);
            }
        } else {
            let i = choose|i: int|
                0 <= i < crate::uefi::kept(blob) && #[trigger] crate::uefi::descriptor_length(
                    blob,
                    i,
                ) > u64::MAX;
            lemma_quotient_counts(i, s, m);
            assert(le(blob, 16 + i * le(blob, 8, 8) + 24, 8) * 4096 > 0xFFFF_FFFF_FFFF_FFFF);
        }
    }
}

proof fn lemma_quotient_counts(i: int, s: int, m: int)
    requires
        0 <= i,
        0 < s,
        0 <= m,
    ensures
        (i + 1) * s <= m <==> i < m / s,
{
    vstd::arithmetic::div_mod::lemma_fundamental_div_mod(m, s);
    vstd::arithmetic::div_mod::lemma_mod_bound(m, s);
    let q = m / s;
    if i < q {
        assert((i + 1) * s <= m) by (nonlinear_arith)
            requires
                i + 1 <= q,
                m == s * q + m % s,
                0 <= m % s,
                0 < s,
        ;
    } else {
        assert((i + 1) * s > m) by (nonlinear_arith)
            requires
                i >= q,
                m == s * q + m % s,
                m % s < s,
                0 < s,
        ;
    }
}

/// Region `i` is there exactly if descriptor `i` is, up to 64 of them, and is
/// what the descriptor's bytes say: its type in the first four, its address in
/// the eight from byte 8 on, its 4 KiB pages in the eight from byte 24 on.
pub proof fn regions_are_what_descriptors_say(
    blob: Seq<u8>,
    regions: Seq<MemoryRegionRaw>,
    behind_iommu: bool,
    i: int,
)
    requires
        complete(blob),
        lengths_fit(blob),
        describes(blob, regions, behind_iommu),
        0 <= i,
    ensures
        i < regions.len() <==> i < 64 && le(blob, 8, 8) >= 40 && (i + 1) * le(blob, 8, 8) <= le(
            blob,
            0,
            8,
        ),
        i < regions.len() ==> {
            let at = 16 + i * le(blob, 8, 8);
            let ty = le(blob, at, 4);
            &&& regions[i].base_addr == le(blob, at + 8, 8)
            &&& regions[i].length_bytes == le(blob, at + 24, 8) * 4096
            &&& regions[i].behind_iommu == behind_iommu
            &&& regions[i].kind is Usable <==> (ty == 1 || ty == 2 || ty == 3 || ty == 4 || ty == 7)
            &&& regions[i].kind is AcpiReclaimable <==> ty == 9
            &&& regions[i].kind is AcpiNvs <==> ty == 10
            &&& regions[i].kind is Mmio <==> (ty == 11 || ty == 12)
            &&& regions[i].kind is Reserved <==> (ty == 0 || ty == 5 || ty == 6 || ty == 8 || ty
                >= 13)
        },
{
    let s = le(blob, 8, 8) as int;
    let m = le(blob, 0, 8) as int;
    if s >= 40 {
        lemma_quotient_counts(i, s, m);
    }
    if i < regions.len() {
        let at = 16 + i * le(blob, 8, 8);
        assert(regions[i].base_addr == crate::uefi::descriptor_start(blob, i));
        assert(crate::uefi::descriptor_length(blob, i) <= u64::MAX);
        crate::laws::words::little_endian_bytes_add_up(blob, at);
        crate::laws::words::little_endian_bytes_add_up(blob, at + 8);
        memory_kind_by_number(crate::uefi::descriptor_type(blob, i));
    }
}

} // verus!
