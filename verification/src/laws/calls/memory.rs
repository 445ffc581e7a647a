//! Calls that read memory maps and firmware tables, and that build page tables.

use vstd::arithmetic::power2::is_pow2;
use vstd::prelude::*;

use crate::acpi::{
    acpi_discover, acpi_dmar_present, distributor, find_gicd_in_madt, has_table,
    AcpiDiscoveryResult, PhysicalMemory,
};
use crate::bytes::le;
use crate::fdt::{tree_nodes, walk_device_tree, DtDiscoveryResult, FdtHeader};
use crate::hal::error::HalError;
use crate::hal::memory::{
    rounding_brackets_the_address, MapPermissions, MemoryRegion, PhysAddr, VirtAddr,
};
use crate::laws::device_tree::{
    is_iommu_node, is_memory_node, is_plic_node, memory_is_what_the_last_node_says,
    nothing_is_made_up, plic_is_where_the_last_node_says, reg_value,
};
use crate::laws::firmware_tables::{leads_to, lists, table_is_present_if_it_is_listed};
use crate::laws::memory_map::{
    map_is_readable_if_it_is_there, memory_kind_by_number, regions_are_what_descriptors_say,
};
use crate::laws::paging::{
    exactly_the_region_is_mapped, existing_mappings_stay, mapped_page_is_as_asked_on_arm64,
    mapped_page_is_as_asked_on_riscv64, mapped_page_is_as_asked_on_x86_64, touches,
};
use crate::laws::words::masks_add_their_bits;
use crate::manifest::raw::MemoryRegionKindRaw;
use crate::paging::{PageFormat, PageTables};
use crate::uefi::{
    classify_uefi_type, is_readable, locate_acpi_rsdp, read_regions, RegionList, UefiMemoryType,
};

verus! {

proof fn lemma_flags(w: bool, x: bool, d: bool, a: u64, b: u64, c: u64)
    requires
        a == (if w {
            1u64 << 1
        } else {
            0
        }) | (if !x {
            1u64 << 63
        } else {
            0
        }) | (if d {
            (1u64 << 4) | (1u64 << 3)
        } else {
            0
        }),
        b == 0x300u64 | (if d {
            1u64 << 2
        } else {
            0
        }) | (if w {
            1u64 << 55
        } else {
            1u64 << 7
        }) | (if !x {
            (1u64 << 53) | (1u64 << 54)
        } else {
            0
        }),
        c == (1u64 << 1) | (if w {
            1u64 << 2
        } else {
            0
        }) | (if x {
            1u64 << 3
        } else {
            0
        }),
    ensures
        a == (if w {
            0x2int
        } else {
            0
        }) + (if d {
            0x18int
        } else {
            0
        }) + (if x {
            0int
        } else {
            0x8000_0000_0000_0000
        }),
        b == 0x300 + (if d {
            0x4int
        } else {
            0
        }) + (if w {
            0x0080_0000_0000_0000int
        } else {
            0x80
        }) + (if x {
            0int
        } else {
            0x0060_0000_0000_0000
        }),
        c == 0x2 + (if w {
            0x4int
        } else {
            0
        }) + (if x {
            0x8int
        } else {
            0
        }),
{
    assert(a == (if w {
        0x2u64
    } else {
        0
    }) + (if d {
        0x18u64
    } else {
        0
    }) + (if x {
        0u64
    } else {
        0x8000_0000_0000_0000
    }) && b == 0x300u64 + (if d {
        0x4u64
    } else {
        0
    }) + (if w {
        0x0080_0000_0000_0000u64
    } else {
        0x80
    }) + (if x {
        0u64
    } else {
        0x0060_0000_0000_0000
    }) && c == 0x2u64 + (if w {
        0x4u64
    } else {
        0
    }) + (if x {
        0x8u64
    } else {
        0
    })) by (bit_vector)
        requires
            a == (if w {
                1u64 << 1
            } else {
                0
            }) | (if !x {
                1u64 << 63
            } else {
                0
            }) | (if d {
                (1u64 << 4) | (1u64 << 3)
            } else {
                0
            }),
            b == 0x300u64 | (if d {
                1u64 << 2
            } else {
                0
            }) | (if w {
                1u64 << 55
            } else {
                1u64 << 7
            }) | (if !x {
                (1u64 << 53) | (1u64 << 54)
            } else {
                0
            }),
            c == (1u64 << 1) | (if w {
                1u64 << 2
            } else {
                0
            }) | (if x {
                1u64 << 3
            } else {
                0
            }),
    ;
}

/// A number is the memory type of that number, and what memory of that type is.
pub proof fn classify_type(
    number: u32,
    ty: Option<UefiMemoryType>,
    kind: MemoryRegionKindRaw,
)
    requires
        call_ensures(UefiMemoryType::from_u32, (number,), ty),
        call_ensures(classify_uefi_type, (number,), kind),
    ensures
        ty is Some <==> number <= 14,
        ty == Some(UefiMemoryType::ConventionalMemory) <==> number == 7,
        ty == Some(UefiMemoryType::AcpiMemoryNvs) <==> number == 10,
        kind is Usable <==> (number == 1 || number == 2 || number == 3 || number == 4 || number
            == 7),
        kind is AcpiReclaimable <==> number == 9,
        kind is AcpiNvs <==> number == 10,
        kind is Mmio <==> (number == 11 || number == 12),
        kind is Reserved <==> (number == 0 || number == 5 || number == 6 || number == 8 || number
            >= 13),
{
    memory_kind_by_number(number);
}

/// A map is readable exactly if all of it is there and no region is too long; the
/// root pointer stands behind its descriptors; and its regions are what the
/// descriptors say.
pub proof fn read_map(
    blob: &[u8],
    behind_iommu: bool,
    readable: bool,
    rsdp: u64,
    list: RegionList,
    i: int,
)
    requires
        call_ensures(is_readable, (blob,), readable),
        readable,
        call_ensures(locate_acpi_rsdp, (blob,), rsdp),
        call_ensures(read_regions, (blob, behind_iommu), list),
        0 <= i,
    ensures
        ({
            let size = le(blob@, 0, 8);
            let stride = le(blob@, 8, 8);
            let at = 16 + i * stride;
            let ty = le(blob@, at, 4);
            &&& 24 + size <= blob@.len()
            &&& rsdp == le(blob@, 16int + size, 8)
            &&& i < list.count <==> i < 64 && stride >= 40 && (i + 1) * stride <= size
            &&& i < list.count ==> {
                &&& list.regions@[i].base_addr == le(blob@, at + 8, 8)
                &&& list.regions@[i].length_bytes == le(blob@, at + 24, 8) * 4096
                &&& list.regions@[i].behind_iommu == behind_iommu
                &&& list.regions@[i].kind is Usable <==> (ty == 1 || ty == 2 || ty == 3 || ty == 4
                    || ty == 7)
                &&& list.regions@[i].kind is AcpiNvs <==> ty == 10
            }
        }),
{
    map_is_readable_if_it_is_there(blob@);
    regions_are_what_descriptors_say(blob@, list.seq(), behind_iommu, i);
    if i < list.count {
        assert(list.seq()[i] == list.regions@[i]);
    }
}

/// A map that is all there and has no region that is too long is readable.
pub proof fn readable_map(blob: &[u8], readable: bool)
    requires
        call_ensures(is_readable, (blob,), readable),
    ensures
        readable <==> {
            &&& blob@.len() >= 24
            &&& 16 + le(blob@, 0, 8) + 8 <= blob@.len()
            &&& le(blob@, 8, 8) >= 40 ==> forall|i: int|
                #![trigger le(blob@, 16 + i * le(blob@, 8, 8) + 24, 8)]
                0 <= i < 64 && (i + 1) * le(blob@, 8, 8) <= le(blob@, 0, 8) ==> le(
                    blob@,
                    16 + i * le(blob@, 8, 8) + 24,
                    8,
                ) * 4096 <= 0xFFFF_FFFF_FFFF_FFFF
        },
{
    map_is_readable_if_it_is_there(blob@);
}

/// A table is found exactly if it is listed: one with the signature asked for,
/// "DMAR" for remapping hardware, "IORT" for a system MMU.
pub proof fn find_tables(
    mem: &PhysicalMemory,
    rsdp: u64,
    signature: u32,
    any: bool,
    dmar: bool,
    found: AcpiDiscoveryResult,
)
    requires
        call_ensures(has_table, (mem, rsdp, signature), any),
        call_ensures(acpi_dmar_present, (mem, rsdp), dmar),
        call_ensures(acpi_discover, (mem, rsdp), found),
    ensures
        any <==> exists|root: int, i: int, addr: int| #[trigger]
            leads_to(*mem, rsdp, root) && #[trigger] lists(*mem, root, i, addr, signature as int),
        dmar <==> exists|root: int, i: int, addr: int| #[trigger]
            leads_to(*mem, rsdp, root) && #[trigger] lists(*mem, root, i, addr, 0x5241_4D44),
        found.smmu_present <==> exists|root: int, i: int, addr: int| #[trigger]
            leads_to(*mem, rsdp, root) && #[trigger] lists(*mem, root, i, addr, 0x5452_4F49),
        found.gicd_base == distributor(*mem, rsdp),
{
    table_is_present_if_it_is_listed(*mem, rsdp, signature);
    table_is_present_if_it_is_listed(*mem, rsdp, 0x5241_4D44);
    table_is_present_if_it_is_listed(*mem, rsdp, 0x5452_4F49);
}

/// A device tree's header is read big-endian, field after field, if the blob starts
/// with the magic number.
pub proof fn read_header(blob: &[u8], r: Option<FdtHeader>)
    requires
        call_ensures(FdtHeader::read, (blob,), r),
    ensures
        r is Some <==> blob@.len() >= 40 && blob@[0] == 0xD0 && blob@[1] == 0x0D && blob@[2] == 0xFE
            && blob@[3] == 0xED,
        r matches Some(h) ==> {
            &&& h.off_dt_struct == 0x100_0000 * blob@[8] + 0x1_0000 * blob@[9] + 0x100 * blob@[10]
                + blob@[11]
            &&& h.off_dt_strings == 0x100_0000 * blob@[12] + 0x1_0000 * blob@[13] + 0x100 * blob@[14]
                + blob@[15]
            &&& h.size_dt_struct == 0x100_0000 * blob@[36] + 0x1_0000 * blob@[37] + 0x100 * blob@[38]
                + blob@[39]
            &&& h.totalsize == 0x100_0000 * blob@[4] + 0x1_0000 * blob@[5] + 0x100 * blob@[6]
                + blob@[7]
        },
{
    crate::laws::device_tree::tree_starts_where_its_header_says(blob@);
    crate::laws::words::big_endian_bytes_add_up(blob@, 4);
    crate::laws::words::big_endian_bytes_add_up(blob@, 8);
    crate::laws::words::big_endian_bytes_add_up(blob@, 12);
    crate::laws::words::big_endian_bytes_add_up(blob@, 36);
}

/// Walking a device tree finds the memory range and the interrupt controller of the
/// last nodes that give them, all 64 bits of each number, and an IOMMU if any node
/// is one.
pub proof fn walk_tree(
    blob: &[u8],
    found: DtDiscoveryResult,
    i: int,
    j: int,
    base: u64,
    size: u64,
    plic: u64,
)
    requires
        call_ensures(walk_device_tree, (blob,), found),
        0 <= i < tree_nodes(blob@).len(),
        is_memory_node(tree_nodes(blob@)[i]),
        forall|k: int|
            i < k < tree_nodes(blob@).len() ==> !is_memory_node(#[trigger] tree_nodes(blob@)[k]),
        reg_value(tree_nodes(blob@)[i], 0) == base,
        reg_value(tree_nodes(blob@)[i], 8) == size,
        0 <= j < tree_nodes(blob@).len(),
        is_plic_node(tree_nodes(blob@)[j]),
        forall|k: int|
            j < k < tree_nodes(blob@).len() ==> !is_plic_node(#[trigger] tree_nodes(blob@)[k]),
        reg_value(tree_nodes(blob@)[j], 0) == plic,
    ensures
        found.memory_base == Some(base),
        found.memory_size == Some(size),
        found.plic_base == Some(plic),
        found.iommu_present <==> exists|k: int|
            0 <= k < tree_nodes(blob@).len() && is_iommu_node(#[trigger] tree_nodes(blob@)[k]),
{
    memory_is_what_the_last_node_says(found, tree_nodes(blob@), i, base, size);
    plic_is_where_the_last_node_says(found, tree_nodes(blob@), j, plic);
    nothing_is_made_up(found, tree_nodes(blob@));
}

/// Aligning an address down gives the last multiple that is not above it, aligning
/// it up the first that is not below it.
pub proof fn align_addresses(
    addr: usize,
    align: usize,
    pd: PhysAddr,
    pu: PhysAddr,
    vd: VirtAddr,
    vu: VirtAddr,
)
    requires
        is_pow2(align as int),
        align > 0,
        addr + align - 1 <= usize::MAX,
        call_ensures(PhysAddr::align_down, (PhysAddr(addr), align), pd),
        call_ensures(PhysAddr::align_up, (PhysAddr(addr), align), pu),
        call_ensures(VirtAddr::align_down, (VirtAddr(addr), align), vd),
        call_ensures(VirtAddr::align_up, (VirtAddr(addr), align), vu),
    ensures
        pd.0 as int % align as int == 0 && pd.0 <= addr < pd.0 + align,
        pu.0 as int % align as int == 0 && pu.0 - align < addr <= pu.0,
        vd.0 == pd.0,
        vu.0 == pu.0,
{
    rounding_brackets_the_address(addr as int, align as int);
}

/// The kernel's code can be executed and not written, its data written and not
/// executed, its constants neither; device registers are written, not executed and
/// never cached. All can be read.
pub proof fn kernel_permissions(
    code: MapPermissions,
    data: MapPermissions,
    constants: MapPermissions,
    device: MapPermissions,
)
    requires
        call_ensures(MapPermissions::kernel_code, (), code),
        call_ensures(MapPermissions::kernel_data, (), data),
        call_ensures(MapPermissions::kernel_rodata, (), constants),
        call_ensures(MapPermissions::device_mmio, (), device),
    ensures
        code.readable && !code.writable && code.executable && !code.device_uncached,
        data.readable && data.writable && !data.executable && !data.device_uncached,
        constants.readable && !constants.writable && !constants.executable
            && !constants.device_uncached,
        device.readable && device.writable && !device.executable && device.device_uncached,
{
}

/// An x86_64 page that was mapped points at itself and can be executed, written and
/// cached exactly as asked.
pub proof fn map_region_on_x86_64(
    memory: &crate::x86_64::memory::Memory,
    tables: &mut PageTables,
    region: MemoryRegion,
    perms: MapPermissions,
    r: Result<VirtAddr, HalError>,
    page: int,
)
    requires
        call_ensures(
            crate::x86_64::memory::Memory::setup_identity_mapping,
            (memory, tables, region, perms),
            r,
        ),
        old(tables).format == PageFormat::X86_64,
        region.base_addr <= usize::MAX,
        0 <= page < 0x10_0000_0000,
    ensures
        r matches Ok(start) ==> start.0 % 4096 == 0 && start.0 <= region.base_addr < start.0 + 4096,
        r is Ok && touches(region, page) ==> (final(tables).lookup(page) matches Some(w) && {
            &&& w & 0x000F_FFFF_FFFF_F000 == page * 4096
            &&& w & 0x1 != 0
            &&& (w & 0x8000_0000_0000_0000 == 0) == perms.executable
            &&& (w & 0x2 != 0) == perms.writable
            &&& (w & 0x10 != 0) == perms.device_uncached
            &&& (w & 0x8 != 0) == perms.device_uncached
            &&& w & 0x7FF0_0000_0000_0FE4 == 0
        }),
        !touches(region, page) ==> final(tables).lookup(page) == old(tables).lookup(page),
        r is Err ==> r == Err::<VirtAddr, HalError>(HalError::InvalidMemoryRegion),
{
    let flags = crate::x86_64::memory::flags_of(perms);
    let before = *old(tables);
    let after = *final(tables);
    match r {
        Ok(start) => {
            exactly_the_region_is_mapped(before, after, region, flags, start, page);
            if touches(region, page) {
                mapped_page_is_as_asked_on_x86_64(before, after, region, perms, start, page);
            }
        },
        Err(_) => {
            existing_mappings_stay(before, after, region, flags, r, page, page);
        },
    }
}

/// An ARM64 page that was mapped points at itself and can be executed, written and
/// cached exactly as asked.
pub proof fn map_region_on_arm64(
    memory: &crate::arm64::memory::Memory,
    tables: &mut PageTables,
    region: MemoryRegion,
    perms: MapPermissions,
    start: VirtAddr,
    page: int,
)
    requires
        call_ensures(
            crate::arm64::memory::Memory::setup_identity_mapping,
            (memory, tables, region, perms),
            Ok(start),
        ),
        old(tables).format == PageFormat::Arm64,
        region.base_addr <= usize::MAX,
        0 <= page < 0x10_0000_0000,
    ensures
        start.0 % 4096 == 0 && start.0 <= region.base_addr < start.0 + 4096,
        touches(region, page) ==> (final(tables).lookup(page) matches Some(w) && {
            &&& w & 0x0000_FFFF_FFFF_F000 == page * 4096
            &&& w & 0x703 == 0x703
            &&& (w & 0x0020_0000_0000_0000 == 0) == perms.executable
            &&& (w & 0x0040_0000_0000_0000 == 0) == perms.executable
            &&& (w & 0x80 == 0) == perms.writable
            &&& (w & 0x4 != 0) == perms.device_uncached
            &&& w & 0xFF1F_0000_0000_0878 == 0
        }),
        !touches(region, page) ==> final(tables).lookup(page) == old(tables).lookup(page),
{
    let flags = crate::arm64::memory::flags_of(perms);
    exactly_the_region_is_mapped(*old(tables), *final(tables), region, flags, start, page);
    if touches(region, page) {
        mapped_page_is_as_asked_on_arm64(
            *old(tables),
            *final(tables),
            region,
            perms,
            start,
            page,
        );
    }
}

/// A RISC-V page that was mapped points at itself and can be executed and written
/// exactly as asked.
pub proof fn map_region_on_riscv64(
    memory: &crate::riscv64::memory::Memory,
    tables: &mut PageTables,
    region: MemoryRegion,
    perms: MapPermissions,
    start: VirtAddr,
    page: int,
)
    requires
        call_ensures(
            crate::riscv64::memory::Memory::setup_identity_mapping,
            (memory, tables, region, perms),
            Ok(start),
        ),
        old(tables).format == PageFormat::Sv39,
        region.base_addr <= usize::MAX,
        0 <= page < 0x800_0000,
    ensures
        start.0 % 4096 == 0 && start.0 <= region.base_addr < start.0 + 4096,
        touches(region, page) ==> (final(tables).lookup(page) matches Some(w) && {
            &&& (w & 0x003F_FFFF_FFFF_FC00) * 4 == page * 4096
            &&& w & 0xC3 == 0xC3
            &&& (w & 0x4 != 0) == perms.writable
            &&& (w & 0x8 != 0) == perms.executable
            &&& w & 0xFFC0_0000_0000_0330 == 0
        }),
        !touches(region, page) ==> final(tables).lookup(page) == old(tables).lookup(page),
{
    let flags = crate::riscv64::memory::flags_of(perms);
    exactly_the_region_is_mapped(*old(tables), *final(tables), region, flags, start, page);
    if touches(region, page) {
        mapped_page_is_as_asked_on_riscv64(
            *old(tables),
            *final(tables),
            region,
            perms,
            start,
            page,
        );
    }
}

/// On fresh tables every region within reach that touches at most twelve stretches
/// of 2 MiB is mapped, on every machine.
pub proof fn map_region_on_fresh_tables(
    x86_64: &crate::x86_64::memory::Memory,
    arm64: &crate::arm64::memory::Memory,
    riscv64: &crate::riscv64::memory::Memory,
    base: u64,
    fresh: PageTables,
    tables: &mut PageTables,
    region: MemoryRegion,
    perms: MapPermissions,
    r: Result<VirtAddr, HalError>,
)
    requires
        call_ensures(PageTables::new, (old(tables).format, base), fresh),
        *old(tables) == fresh,
        old(tables).format == PageFormat::X86_64 && call_ensures(
            crate::x86_64::memory::Memory::setup_identity_mapping,
            (x86_64, tables, region, perms),
            r,
        ) || old(tables).format == PageFormat::Arm64 && call_ensures(
            crate::arm64::memory::Memory::setup_identity_mapping,
            (arm64, tables, region, perms),
            r,
        ) || old(tables).format == PageFormat::Sv39 && call_ensures(
            crate::riscv64::memory::Memory::setup_identity_mapping,
            (riscv64, tables, region, perms),
            r,
        ),
        0 < region.length_bytes,
        region.base_addr + region.length_bytes <= (if old(tables).format is Sv39 {
            0x80_0000_0000
        } else {
            0x1_0000_0000_0000int
        }),
        (region.base_addr + region.length_bytes - 1) / 0x20_0000 - region.base_addr as int
            / 0x20_0000 < 12,
    ensures
        r is Ok,
{
    crate::laws::paging::fresh_tables_map_any_small_region(
        fresh,
        region.base_addr,
        region.length_bytes,
        crate::x86_64::memory::flags_of(perms),
    );
    crate::laws::paging::fresh_tables_map_any_small_region(
        fresh,
        region.base_addr,
        region.length_bytes,
        crate::arm64::memory::flags_of(perms),
    );
    crate::laws::paging::fresh_tables_map_any_small_region(
        fresh,
        region.base_addr,
        region.length_bytes,
        crate::riscv64::memory::flags_of(perms),
    );
}

/// The translation register of RISC-V selects three levels and the root's page, and
/// gives the root back.
pub proof fn select_root(root: u64, satp: u64, back: u64)
    requires
        root % 4096 == 0,
        root < 0x0100_0000_0000_0000,
        call_ensures(crate::riscv64::memory::satp_value, (root,), satp),
        call_ensures(crate::riscv64::memory::root_in_satp, (satp,), back),
    ensures
        satp / 0x1000_0000_0000_0000 == 8,
        satp % 0x1000_0000_0000_0000 == root / 4096,
        back == root,
{
    crate::riscv64::memory::selected_root_is_found_again(root, satp);
}

/// Every machine has pages of 4 KiB.
pub proof fn page_size(
    a: &crate::x86_64::memory::Memory,
    b: &crate::arm64::memory::Memory,
    c: &crate::riscv64::memory::Memory,
    sa: usize,
    sb: usize,
    sc: usize,
)
    requires
        call_ensures(crate::x86_64::memory::Memory::base_page_size_bytes, (a,), sa),
        call_ensures(crate::arm64::memory::Memory::base_page_size_bytes, (b,), sb),
        call_ensures(crate::riscv64::memory::Memory::base_page_size_bytes, (c,), sc),
    ensures
        sa == 4096 && sb == 4096 && sc == 4096,
{
}

/// The memory of an x86_64 machine is what the map says, behind the IOMMU that the
/// tables describe, if they describe one.
pub proof fn read_memory_on_x86_64(
    blob: &[u8],
    mem: &PhysicalMemory,
    memory: crate::x86_64::memory::Memory,
    rsdp: u64,
    i: int,
)
    requires
        crate::uefi::complete(blob@),
        crate::uefi::lengths_fit(blob@),
        call_ensures(
            crate::x86_64::memory::Memory::from_uefi_memory_map,
            (blob, mem),
            memory,
        ),
        rsdp == le(blob@, 16int + le(blob@, 0, 8), 8),
        0 <= i < memory.regions().len(),
    ensures
        memory.iommu_present <==> exists|root: int, k: int, addr: int| #[trigger]
            leads_to(*mem, rsdp, root) && #[trigger] lists(*mem, root, k, addr, 0x5241_4D44),
        memory.regions()[i].behind_iommu == memory.iommu_present,
        memory.regions()[i].base_addr == le(blob@, 16 + i * le(blob@, 8, 8) + 8, 8),
        memory.regions()[i].length_bytes == le(blob@, 16 + i * le(blob@, 8, 8) + 24, 8) * 4096,
{
    table_is_present_if_it_is_listed(*mem, rsdp, 0x5241_4D44);
    regions_are_what_descriptors_say(blob@, memory.regions(), memory.iommu_present, i);
}

/// The flags of a mapping say exactly how it may be used, on every machine.
pub proof fn encode_permissions(perms: MapPermissions, a: u64, b: u64, c: u64)
    requires
        call_ensures(crate::x86_64::memory::permissions_to_flags, (perms,), a),
        call_ensures(crate::arm64::memory::permissions_to_flags, (perms,), b),
        call_ensures(crate::riscv64::memory::permissions_to_flags, (perms,), c),
    ensures
        a == (if perms.writable {
            0x2int
        } else {
            0
        }) + (if perms.device_uncached {
            0x18int
        } else {
            0
        }) + (if perms.executable {
            0int
        } else {
            0x8000_0000_0000_0000
        }),
        b == 0x300 + (if perms.device_uncached {
            0x4int
        } else {
            0
        }) + (if perms.writable {
            0x0080_0000_0000_0000int
        } else {
            0x80
        }) + (if perms.executable {
            0int
        } else {
            0x0060_0000_0000_0000
        }),
        c == 0x2 + (if perms.writable {
            0x4int
        } else {
            0
        }) + (if perms.executable {
            0x8int
        } else {
            0
        }),
{
    let w = perms.writable;
    let x = perms.executable;
    let d = perms.device_uncached;
    lemma_flags(w, x, d, a, b, c);
}

/// Switching translation on sets bits 0, 2 and 12 of the control register and keeps
/// every other.
pub proof fn switch_translation_on(sctlr: u64, r: u64)
    requires
        call_ensures(crate::arm64::memory::mmu_enabled, (sctlr,), r),
    ensures
        r & 0x1005 == 0x1005,
        r & !0x1005 == sctlr & !0x1005,
{
    masks_add_their_bits(sctlr, 0x1005);
}

/// The entries of a table are made and read as the format says: a table's entry is its
/// address and the format's bits, and an entry leads to the address in it.
pub proof fn encode_entries(
    format: PageFormat,
    addr: u64,
    entry: u64,
    word: u64,
    target: u64,
    levels: usize,
    pages: u64,
)
    requires
        addr % 4096 == 0,
        addr < 0x0001_0000_0000_0000,
        call_ensures(PageFormat::encode_table, (format, addr), entry),
        call_ensures(PageFormat::decode_target, (format, word), target),
        call_ensures(PageFormat::level_count, (format,), levels),
        call_ensures(PageFormat::mappable_pages, (format,), pages),
    ensures
        match format {
            PageFormat::X86_64 => {
                &&& entry == addr + 7
                &&& target == word % 0x10_0000_0000_0000 / 4096 * 4096
                &&& levels == 4 && pages == 512 * 512 * 512 * 512
            },
            PageFormat::Arm64 => {
                &&& entry == addr + 3
                &&& target == word % 0x1_0000_0000_0000 / 4096 * 4096
                &&& levels == 4 && pages == 512 * 512 * 512 * 512
            },
            PageFormat::Sv39 => {
                &&& entry == addr / 4 + 1
                &&& target == word % 0x40_0000_0000_0000 / 1024 * 4096
                &&& levels == 3 && pages == 512 * 512 * 512
            },
        },
{
    crate::laws::paging::table_entry_is_address_and_bits(addr);
    crate::laws::paging::entry_points_by_its_address_bits(word);
}

/// A page's entry is its address and its flags side by side, with the bits that every
/// such entry has.
pub proof fn encode_pages(format: PageFormat, phys: u64, flags: u64, entry: u64)
    requires
        phys % 4096 == 0,
        phys < 0x0001_0000_0000_0000,
        call_ensures(PageFormat::encode_leaf, (format, phys, flags), entry),
    ensures
        format is X86_64 && flags & 0x000F_FFFF_FFFF_F000 == 0 ==> entry & 0x000F_FFFF_FFFF_F000
            == phys && entry & 0xFFF0_0000_0000_0FFF == flags | 0x1,
        format is Arm64 && flags & 0x0000_FFFF_FFFF_F000 == 0 ==> entry & 0x0000_FFFF_FFFF_F000
            == phys && entry & 0xFFFF_0000_0000_0FFF == flags | 0x403,
        format is Sv39 && flags & 0x003F_FFFF_FFFF_FC00 == 0 ==> (entry & 0x003F_FFFF_FFFF_FC00) * 4
            == phys && entry & 0xFFC0_0000_0000_03FF == flags | 0xC1,
{
    crate::laws::paging::page_entry_is_frame_and_flags(phys, flags);
}

/// The memory that was found is handed out as it was found, on every machine.
pub proof fn describe_memory(
    a: &crate::x86_64::memory::Memory,
    b: &crate::arm64::memory::Memory,
    c: &crate::riscv64::memory::Memory,
    count: usize,
    maps: (&[MemoryRegion], &[MemoryRegion], &[MemoryRegion]),
    iommu: (bool, bool, bool),
    plic: u64,
)
    requires
        a.well_formed() && b.well_formed(),
        call_ensures(crate::x86_64::memory::Memory::region_count, (a,), count),
        call_ensures(crate::x86_64::memory::Memory::physical_memory_map, (a,), maps.0),
        call_ensures(crate::arm64::memory::Memory::physical_memory_map, (b,), maps.1),
        call_ensures(crate::riscv64::memory::Memory::physical_memory_map, (c,), maps.2),
        call_ensures(crate::x86_64::memory::Memory::iommu_present, (a,), iommu.0),
        call_ensures(crate::arm64::memory::Memory::iommu_present, (b,), iommu.1),
        call_ensures(crate::riscv64::memory::Memory::iommu_present, (c,), iommu.2),
        call_ensures(crate::riscv64::memory::Memory::plic_base, (c,), plic),
    ensures
        count == maps.0@.len(),
        maps.0@ == a.regions() && maps.1@ == b.regions() && maps.2@ == c.regions(),
        iommu == (a.iommu_present, b.iommu_present, c.iommu_present),
        plic == c.plic_base,
{
}

/// The memory of a RISC-V machine is what was found in its device tree, and 128 MiB
/// from 2 GiB on where nothing was found.
pub proof fn find_memory_on_riscv64(
    found: &DtDiscoveryResult,
    memory: crate::riscv64::memory::Memory,
)
    requires
        call_ensures(crate::riscv64::memory::Memory::from_findings, (found,), memory),
    ensures
        memory.regions().len() == 1,
        memory.regions()[0].kind is Usable,
        memory.regions()[0].base_addr == match found.memory_base {
            Some(base) => base,
            None => 0x8000_0000,
        },
        memory.regions()[0].length_bytes == match found.memory_size {
            Some(size) => size,
            None => 0x0800_0000,
        },
        memory.regions()[0].behind_iommu == found.iommu_present,
        memory.iommu_present == found.iommu_present,
        memory.plic_base == match found.plic_base {
            Some(base) => base,
            None => 0x0C00_0000,
        },
{
    crate::laws::device_tree::riscv64_memory_is_as_found(memory, *found);
}

/// The memory of a RISC-V machine whose device tree has a last memory node is the
/// memory that this node gives.
pub proof fn read_memory_on_riscv64(
    blob: &[u8],
    memory: crate::riscv64::memory::Memory,
    i: int,
)
    requires
        call_ensures(crate::riscv64::memory::Memory::from_device_tree, (blob,), memory),
        0 <= i < tree_nodes(blob@).len(),
        is_memory_node(tree_nodes(blob@)[i]),
        forall|j: int|
            i < j < tree_nodes(blob@).len() ==> !is_memory_node(#[trigger] tree_nodes(blob@)[j]),
        reg_value(tree_nodes(blob@)[i], 0) < 0x1_0000_0000_0000_0000,
        reg_value(tree_nodes(blob@)[i], 8) < 0x1_0000_0000_0000_0000,
    ensures
        memory.regions().len() == 1,
        memory.regions()[0].base_addr == reg_value(tree_nodes(blob@)[i], 0),
        memory.regions()[0].length_bytes == reg_value(tree_nodes(blob@)[i], 8),
        memory.regions()[0].kind is Usable,
{
    crate::laws::device_tree::riscv64_memory_is_read_from_the_tree(
        memory,
        blob@,
        i,
        reg_value(tree_nodes(blob@)[i], 0) as u64,
        reg_value(tree_nodes(blob@)[i], 8) as u64,
    );
}

/// The memory of an ARM64 machine is behind the IOMMU that the tables describe, if they
/// describe one, and its distributor is where they say.
pub proof fn read_memory_on_arm64(
    blob: &[u8],
    mem: &PhysicalMemory,
    memory: crate::arm64::memory::Memory,
    rsdp: u64,
    i: int,
)
    requires
        crate::uefi::complete(blob@),
        crate::uefi::lengths_fit(blob@),
        call_ensures(crate::arm64::memory::Memory::from_uefi_memory_map, (blob, mem), memory),
        rsdp == le(blob@, 16int + le(blob@, 0, 8), 8),
        0 <= i < memory.regions().len(),
    ensures
        memory.iommu_present <==> exists|root: int, k: int, addr: int| #[trigger]
            leads_to(*mem, rsdp, root) && #[trigger] lists(*mem, root, k, addr, 0x5452_4F49),
        memory.regions()[i].behind_iommu == memory.iommu_present,
        memory.gicd_base == match distributor(*mem, rsdp) {
            Some(base) => base,
            None => 0x0800_0000,
        },
        memory.regions()[i].base_addr == le(blob@, 16 + i * le(blob@, 8, 8) + 8, 8),
        memory.regions()[i].length_bytes == le(blob@, 16 + i * le(blob@, 8, 8) + 24, 8) * 4096,
{
    crate::laws::firmware_tables::arm64_memory_is_as_described(memory, blob@, *mem, rsdp, i);
    regions_are_what_descriptors_say(blob@, memory.regions(), memory.iommu_present, i);
}

/// A controller table whose first entry, at byte 44, is a distributor's gives the
/// address at byte 8 of that entry; one that ends before has none.
pub proof fn find_distributor(
    mem: &PhysicalMemory,
    table: u64,
    length: u32,
    r: Option<u64>,
)
    requires
        call_ensures(find_gicd_in_madt, (mem, table, length), r),
    ensures
        length <= 44 ==> r is None,
        r == crate::acpi::distributor_from(*mem, table as int, length as int, 44),
{
}

/// A region that cannot be mapped is out of reach or empty, or one of its pages is
/// mapped otherwise, or every table is in use; what was mapped before stays, and the
/// pages that were mapped are those before one that was not.
pub proof fn fail_to_map(
    a: &crate::x86_64::memory::Memory,
    b: &crate::arm64::memory::Memory,
    c: &crate::riscv64::memory::Memory,
    tables: &mut PageTables,
    region: MemoryRegion,
    perms: MapPermissions,
    e: HalError,
    page: int,
    earlier: int,
)
    requires
        ({
            ||| old(tables).format is X86_64 && call_ensures(
                crate::x86_64::memory::Memory::setup_identity_mapping,
                (a, tables, region, perms),
                Err(e),
            )
            ||| old(tables).format is Arm64 && call_ensures(
                crate::arm64::memory::Memory::setup_identity_mapping,
                (b, tables, region, perms),
                Err(e),
            )
            ||| old(tables).format is Sv39 && call_ensures(
                crate::riscv64::memory::Memory::setup_identity_mapping,
                (c, tables, region, perms),
                Err(e),
            )
        }),
        0 <= earlier <= page,
        page < 0x800_0000 || !(old(tables).format is Sv39),
        page < 0x10_0000_0000,
    ensures
        e == HalError::InvalidMemoryRegion,
        ({
            ||| region.length_bytes == 0
            ||| region.base_addr + region.length_bytes > (if old(tables).format is Sv39 {
                0x80_0000_0000
            } else {
                0x1_0000_0000_0000int
            })
            ||| final(tables).node_set().len() == 17
            ||| exists|q: int| touches(region, q) && #[trigger] old(tables).lookup(q) is Some
        }),
        old(tables).lookup(page) is Some || !touches(region, page) ==> final(tables).lookup(page)
            == old(tables).lookup(page),
        final(tables).lookup(page) != old(tables).lookup(page) && touches(region, earlier)
            ==> final(tables).lookup(earlier) is Some,
{
    let before = *old(tables);
    let after = *final(tables);
    let flags = match before.format {
        PageFormat::X86_64 => crate::x86_64::memory::flags_of(perms),
        PageFormat::Arm64 => crate::arm64::memory::flags_of(perms),
        PageFormat::Sv39 => crate::riscv64::memory::flags_of(perms),
    };
    assert(before.identity_setup(after, region, flags, Err(e)));
    existing_mappings_stay(before, after, region, flags, Err(e), page, earlier);
    let first = region.base_addr as int / 4096;
    let end = (region.base_addr + region.length_bytes + 4095) / 4096;
    if before.in_reach(region.base_addr, region.length_bytes) {
        let stop = choose|stop: int|
            first <= stop < end && #[trigger] before.stopped_at(after, first, stop, flags);
        if !before.identity_compatible(first, stop + 1, flags) {
            assert(touches(region, stop));
            let word = before.format.leaf_word((stop * 4096) as u64, flags);
            assert(before.lookup(stop) is Some);
        }
    }
}

/// A page that is mapped is found as asked, and no other page changes. It is refused if
/// it is mapped otherwise or if no table is left, and then it stays as it was.
pub proof fn map_one_page(
    tables: &mut PageTables,
    virt: u64,
    phys: u64,
    flags: u64,
    r: Result<(), HalError>,
    q: int,
)
    requires
        virt % 4096 == 0,
        old(tables).format is Sv39 ==> virt < 0x80_0000_0000 && 0 <= q < 0x800_0000,
        virt < 0x1_0000_0000_0000,
        0 <= q < 0x10_0000_0000,
        q != virt as int / 4096,
        call_ensures(PageTables::map_page, (tables, virt, phys, flags), r),
    ensures
        ({
            let page = virt as int / 4096;
            let word = old(tables).format.leaf_word(phys, flags);
            &&& r is Ok ==> final(tables).lookup(page) == Some(word)
            &&& r is Ok ==> old(tables).lookup(page) is None || old(tables).lookup(page) == Some(
                word,
            )
            &&& r is Err ==> final(tables).lookup(page) == old(tables).lookup(page)
            &&& r matches Err(e) ==> e == HalError::InvalidMemoryRegion
            &&& r is Err ==> final(tables).node_set().len() == 17 || (old(tables).lookup(page)
                is Some && old(tables).lookup(page) != Some(word))
            &&& final(tables).lookup(q) == old(tables).lookup(q)
        }),
        final(tables).format == old(tables).format && final(tables).base == old(tables).base,
{
}

/// A region that is mapped to itself starts at its first page, and all of its pages are
/// found at their own addresses.
pub proof fn map_pages_to_themselves(
    tables: &mut PageTables,
    base_addr: u64,
    length: u64,
    flags: u64,
    r: Result<u64, HalError>,
    q: int,
)
    requires
        old(tables).format is Sv39 ==> 0 <= q < 0x800_0000,
        0 <= q < 0x10_0000_0000,
        call_ensures(PageTables::map_identity, (tables, base_addr, length, flags), r),
    ensures
        r matches Ok(start) ==> {
            &&& start % 4096 == 0 && start <= base_addr < start + 4096
            &&& final(tables).lookup(q) == if q * 4096 < base_addr + length && base_addr < (q + 1)
                * 4096 {
                Some(old(tables).format.leaf_word((q * 4096) as u64, flags))
            } else {
                old(tables).lookup(q)
            }
        },
        r matches Err(e) ==> e == HalError::InvalidMemoryRegion,
        length == 0 || base_addr + length > (if old(tables).format is Sv39 {
            0x80_0000_0000
        } else {
            0x1_0000_0000_0000int
        }) ==> r is Err && *final(tables) == *old(tables),
{
}

/// The distributor's address is handed out as it was found.
pub proof fn tell_distributor(memory: &crate::arm64::memory::Memory, r: u64)
    requires
        call_ensures(crate::arm64::memory::Memory::gicd_base, (memory,), r),
    ensures
        r == memory.gicd_base,
{
}

/// Nothing is found until it is looked for.
pub proof fn start_without_findings(a: AcpiDiscoveryResult, b: DtDiscoveryResult)
    requires
        call_ensures(<AcpiDiscoveryResult as Default>::default, (), a),
        call_ensures(<DtDiscoveryResult as Default>::default, (), b),
    ensures
        a.gicd_base is None && !a.smmu_present,
        b.plic_base is None && b.memory_base is None && b.memory_size is None && !b.iommu_present,
{
}

} // verus!
