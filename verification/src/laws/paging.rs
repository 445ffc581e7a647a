//! Laws of the boot page tables.

use vstd::prelude::*;

use crate::hal::error::HalError;
use crate::hal::memory::{MapPermissions, VirtAddr};
use crate::manifest::raw::MemoryRegionRaw;
use crate::paging::{Node, PageFormat, PageTables};

verus! {

/// The entry of a mapped page holds the frame's address in its address bits; of
/// the others it has exactly those in its flags and those of every mapped page:
/// presence, and on ARM64 also the page and access bits, on RISC-V the accessed
/// and dirty bits.
pub proof fn page_entry_is_frame_and_flags(phys: u64, flags: u64)
    requires
        phys % 4096 == 0,
        phys < 0x0001_0000_0000_0000,
    ensures
        flags & 0x000F_FFFF_FFFF_F000 == 0 ==> PageFormat::X86_64.leaf_word(phys, flags)
            & 0x000F_FFFF_FFFF_F000 == phys && PageFormat::X86_64.leaf_word(phys, flags)
            & 0xFFF0_0000_0000_0FFF == flags | 0x1,
        flags & 0x0000_FFFF_FFFF_F000 == 0 ==> PageFormat::Arm64.leaf_word(phys, flags)
            & 0x0000_FFFF_FFFF_F000 == phys && PageFormat::Arm64.leaf_word(phys, flags)
            & 0xFFFF_0000_0000_0FFF == flags | 0x403,
        flags & 0x003F_FFFF_FFFF_FC00 == 0 ==> (PageFormat::Sv39.leaf_word(phys, flags)
            & 0x003F_FFFF_FFFF_FC00) * 4 == phys && PageFormat::Sv39.leaf_word(phys, flags)
            & 0xFFC0_0000_0000_03FF == flags | 0xC1,
{
    assert((flags & 0x000F_FFFF_FFFF_F000 == 0 ==> ((phys & 0x000F_FFFF_FFFF_F000) | flags | 0x1)
        & 0x000F_FFFF_FFFF_F000 == phys && ((phys & 0x000F_FFFF_FFFF_F000) | flags | 0x1)
        & 0xFFF0_0000_0000_0FFF == flags | 0x1) && (flags & 0x0000_FFFF_FFFF_F000 == 0 ==> ((phys
        & 0x0000_FFFF_FFFF_F000) | flags | 0x403) & 0x0000_FFFF_FFFF_F000 == phys && ((phys
        & 0x0000_FFFF_FFFF_F000) | flags | 0x403) & 0xFFFF_0000_0000_0FFF == flags | 0x403) && (
    flags & 0x003F_FFFF_FFFF_FC00 == 0 ==> ((((phys >> 12) << 10) | flags | 0xC1)
        & 0x003F_FFFF_FFFF_FC00) * 4 == phys && (((phys >> 12) << 10) | flags | 0xC1)
        & 0xFFC0_0000_0000_03FF == flags | 0xC1)) by (bit_vector)
        requires
            phys % 4096 == 0,
            phys < 0x0001_0000_0000_0000,
    ;
}

/// The entry for a table is the table's address and the bits that every such
/// entry has, side by side.
pub proof fn table_entry_is_address_and_bits(addr: u64)
    requires
        addr % 4096 == 0,
        addr < 0x0001_0000_0000_0000,
    ensures
        PageFormat::X86_64.table_word(addr) == addr + 7,
        PageFormat::Arm64.table_word(addr) == addr + 3,
        PageFormat::Sv39.table_word(addr) == addr / 4 + 1,
{
    assert((addr | 0x7) == addr + 7 && (addr | 0x3) == addr + 3 && (((addr >> 12) << 10) | 0x1)
        == addr / 4 + 1) by (bit_vector)
        requires
            addr % 4096 == 0,
            addr < 0x0001_0000_0000_0000,
    ;
}

/// The address in an entry is in its address bits, whatever the others are.
pub proof fn entry_points_by_its_address_bits(word: u64)
    ensures
        PageFormat::X86_64.target(word) == word % 0x10_0000_0000_0000 / 4096 * 4096,
        PageFormat::Arm64.target(word) == word % 0x1_0000_0000_0000 / 4096 * 4096,
        PageFormat::Sv39.target(word) == word % 0x40_0000_0000_0000 / 1024 * 4096,
{
    assert(word & 0x000F_FFFF_FFFF_F000 == word % 0x10_0000_0000_0000 / 4096 * 4096 && word
        & 0x0000_FFFF_FFFF_F000 == word % 0x1_0000_0000_0000 / 4096 * 4096 && ((word >> 10)
        & 0x0FFF_FFFF_FFFF) << 12 == word % 0x40_0000_0000_0000 / 1024 * 4096) by (bit_vector);
}

/// The entry that table number `table` holds at `index`, as the hardware reads
/// it: the tables stand one after the other, 512 words each.
pub open spec fn entry_in(tables: PageTables, table: int, index: int) -> u64 {
    tables.words@[table * 512 + index]
}

/// The number of the table that the hardware finds at the address in `word`.
pub open spec fn table_behind(tables: PageTables, word: u64) -> int {
    (match tables.format {
        PageFormat::X86_64 => word % 0x10_0000_0000_0000 / 4096 * 4096,
        PageFormat::Arm64 => word % 0x1_0000_0000_0000 / 4096 * 4096,
        PageFormat::Sv39 => word % 0x40_0000_0000_0000 / 1024 * 4096,
    } - tables.base) / 4096
}

/// What the hardware finds below table `table` for the page with the given
/// indices, which it takes from the front.
pub open spec fn hardware_walk(tables: PageTables, table: int, indices: Seq<int>) -> Option<u64>
    decreases indices.len(),
{
    if indices.len() == 0 {
        None
    } else {
        let word = entry_in(tables, table, indices[0]);
        if word % 2 == 0 {
            None
        } else if indices.len() == 1 {
            Some(word)
        } else {
            hardware_walk(tables, table_behind(tables, word), indices.skip(1))
        }
    }
}

/// The hardware takes nine bits of the address for each level, the highest first:
/// four levels from bit 39 down on x86_64 and ARM64, three from bit 30 down on
/// RISC-V.
pub proof fn lookup_is_what_the_hardware_finds(tables: PageTables, page: int)
    requires
        0 <= page,
    ensures
        !(tables.format is Sv39) ==> tables.lookup(page) == hardware_walk(
            tables,
            0,
            seq![page / 0x800_0000 % 512, page / 0x4_0000 % 512, page / 512 % 512, page % 512],
        ),
        tables.format is Sv39 ==> tables.lookup(page) == hardware_walk(
            tables,
            0,
            seq![page / 0x4_0000 % 512, page / 512 % 512, page % 512],
        ),
{
    reveal_with_fuel(crate::paging::shrink, 5);
    reveal_with_fuel(hardware_walk, 5);
    reveal_with_fuel(PageTables::walk, 5);
    assert(forall|w: u64| #![auto] (w & 1 == 0) == (w % 2 == 0)) by (bit_vector);
    assert forall|w: u64| #[trigger] tables.table_of(w) == table_behind(tables, w) by {
        entry_points_by_its_address_bits(w);
    }
    let a = page / 0x800_0000 % 512;
    let b = page / 0x4_0000 % 512;
    let c = page / 512 % 512;
    let d = page % 512;
    let four = seq![a, b, c, d];
    let three = seq![b, c, d];
    assert(four.skip(1) =~= three);
    assert(three.skip(1) =~= seq![c, d]);
    assert(seq![c, d].skip(1) =~= seq![d]);
    assert(page / 512 / 512 == page / 0x4_0000);
    assert(page / 512 / 512 / 512 == page / 0x800_0000);
}

/// Page `page` holds a byte of the region.
pub open spec fn touches(region: MemoryRegionRaw, page: int) -> bool {
    page * 4096 < region.base_addr + region.length_bytes && region.base_addr < (page + 1) * 4096
}

/// After a region was mapped, exactly the pages that hold a byte of it have got
/// entries, each of its own address with the given flags; every other page has
/// the entry it had. The address returned is that of the region's first page.
pub proof fn exactly_the_region_is_mapped(
    before: PageTables,
    after: PageTables,
    region: MemoryRegionRaw,
    flags: u64,
    start: VirtAddr,
    page: int,
)
    requires
        before.identity_setup(after, region, flags, Ok(start)),
        region.base_addr <= usize::MAX,
        0 <= page,
        page < 0x800_0000 || !(before.format is Sv39),
        page < 0x10_0000_0000,
    ensures
        touches(region, page) ==> after.lookup(page) == Some(
            before.format.leaf_word((page * 4096) as u64, flags),
        ),
        touches(region, page) ==> before.lookup(page) is None || before.lookup(page)
            == after.lookup(page),
        !touches(region, page) ==> after.lookup(page) == before.lookup(page),
        start.0 <= region.base_addr < start.0 + 4096,
        start.0 % 4096 == 0,
        region.length_bytes > 0,
        region.base_addr + region.length_bytes <= (if before.format is Sv39 {
            0x80_0000_0000
        } else {
            0x1_0000_0000_0000int
        }),
{
    let first = region.base_addr as int / 4096;
    let end = (region.base_addr + region.length_bytes + 4095) / 4096;
    assert(touches(region, page) <==> first <= page < end);
    assert(after.lookup(page) == after.lookup(page));
    if touches(region, page) {
        assert(before.compatible(page, before.format.leaf_word((page * 4096) as u64, flags)));
    }
}

/// Mapping a region changes no page that was mapped before and none outside the region,
/// whether or not it succeeds. Where it fails, the pages that were mapped are those
/// before one that was not, each as asked.
pub proof fn existing_mappings_stay(
    before: PageTables,
    after: PageTables,
    region: MemoryRegionRaw,
    flags: u64,
    result: Result<VirtAddr, HalError>,
    page: int,
    earlier: int,
)
    requires
        before.identity_setup(after, region, flags, result),
        0 <= earlier <= page,
        page < 0x800_0000 || !(before.format is Sv39),
        page < 0x10_0000_0000,
    ensures
        before.lookup(page) is Some ==> after.lookup(page) == before.lookup(page),
        !touches(region, page) ==> after.lookup(page) == before.lookup(page),
        result matches Err(e) ==> e == HalError::InvalidMemoryRegion,
        after.lookup(page) == before.lookup(page) || after.lookup(page) == Some(
            before.format.leaf_word((page * 4096) as u64, flags),
        ),
        after.lookup(page) != before.lookup(page) && touches(region, earlier) ==> after.lookup(
            earlier,
        ) == Some(before.format.leaf_word((earlier * 4096) as u64, flags)),
{
    let first = region.base_addr as int / 4096;
    let end = (region.base_addr + region.length_bytes + 4095) / 4096;
    assert(touches(region, page) <==> first <= page < end);
    assert(touches(region, earlier) <==> first <= earlier < end);
    if result is Err && before.in_reach(region.base_addr, region.length_bytes) {
        let stop = choose|stop: int|
            first <= stop < end && #[trigger] before.stopped_at(after, first, stop, flags);
        assert(before.identity_mapped(after, first, stop, flags));
    }
}

/// The tables at one depth with the `n` prefixes from `from` on.
spec fn run_of(depth: int, from: int, n: nat) -> Set<Node>
    decreases n,
{
    if n == 0 {
        Set::empty()
    } else {
        run_of(depth, from, (n - 1) as nat).insert(Node { depth, prefix: from + n - 1 })
    }
}

proof fn lemma_run(depth: int, from: int, n: nat)
    ensures
        run_of(depth, from, n).finite(),
        run_of(depth, from, n).len() <= n,
        forall|k: int|
            from <= k < from + n ==> #[trigger] run_of(depth, from, n).contains(
                Node { depth, prefix: k },
            ),
    decreases n,
{
    if n > 0 {
        lemma_run(depth, from, (n - 1) as nat);
    }
}

proof fn lemma_ways_have_pages(format: PageFormat, first: int, end: int, node: Node)
    requires
        PageTables::ways(format, first, end).contains(node),
    ensures
        exists|q: int| first <= q < end && #[trigger] PageTables::way(format, q).contains(node),
    decreases end - first,
{
    if first < end {
        if PageTables::way(format, end - 1).contains(node) {
        } else {
            lemma_ways_have_pages(format, first, end - 1, node);
            let q = choose|q: int|
                first <= q < end - 1 && #[trigger] PageTables::way(format, q).contains(node);
            assert(first <= q < end && PageTables::way(format, q).contains(node));
        }
    }
}

/// On tables that map nothing yet, every region within reach that touches at
/// most twelve stretches of 2 MiB can be mapped with any flags: 256 TiB are
/// within reach on x86_64 and ARM64, 512 GiB on RISC-V.
pub proof fn fresh_tables_map_any_small_region(
    tables: PageTables,
    base_addr: u64,
    length: u64,
    flags: u64,
)
    requires
        tables.node_set() == set![Node { depth: 0, prefix: 0 }],
        forall|page: int|
            0 <= page < tables.format.page_limit() ==> #[trigger] tables.lookup(page) is None,
        0 < length,
        base_addr + length <= (if tables.format is Sv39 {
            0x80_0000_0000
        } else {
            0x1_0000_0000_0000int
        }),
        (base_addr + length - 1) / 0x20_0000 - base_addr as int / 0x20_0000 < 12,
    ensures
        tables.can_map_identity(base_addr, length, flags),
{
    let format = tables.format;
    let first = base_addr as int / 4096;
    let end = (base_addr + length + 4095) / 4096;
    let last = end - 1;
    let deep = format.levels() - 1;
    let a = first / 512;
    let z = last / 512;
    assert(last == (base_addr + length - 1) / 4096);
    assert(a == base_addr as int / 0x20_0000 && z == (base_addr + length - 1) / 0x20_0000);
    let n = (z - a + 1) as nat;
    lemma_run(deep, a, n);
    let s1 = run_of(deep, a, n);
    let s2 = s1.insert(Node { depth: deep - 1, prefix: a / 512 });
    let s3 = s2.insert(Node { depth: deep - 1, prefix: z / 512 });
    let s4 = s3.insert(Node { depth: deep - 2, prefix: a / 512 / 512 });
    let s5 = s4.insert(Node { depth: deep - 2, prefix: z / 512 / 512 });
    let all = s5.insert(Node { depth: 0, prefix: 0 });
    assert(all.finite());
    assert(all.len() <= 17);
    let needed = tables.node_set().union(PageTables::ways(format, first, end));
    assert forall|node: Node| needed.contains(node) implies all.contains(node) by {
        if PageTables::ways(format, first, end).contains(node) {
            lemma_ways_have_pages(format, first, end, node);
            let q = choose|q: int|
                first <= q < end && #[trigger] PageTables::way(format, q).contains(node);
            reveal_with_fuel(PageTables::way_to_depth, 4);
            reveal_with_fuel(crate::paging::shrink, 4);
            assert(a <= q / 512 <= z);
            assert(s1.contains(Node { depth: deep, prefix: q / 512 }));
            assert(q / 512 / 512 == a / 512 || q / 512 / 512 == z / 512);
        }
    }
    vstd::set_lib::lemma_len_subset(needed, all);
    assert(tables.identity_compatible(first, end, flags));
}

/// A page mapped on x86_64 can be executed, written and cached exactly as asked:
/// its entry has bit 63 clear if it may be executed, bit 1 set if it may be
/// written, bits 3 and 4 set if it must not be cached, bit 2, which would let
/// programs in, always clear, and no other bit but that of its presence.
pub proof fn mapped_page_is_as_asked_on_x86_64(
    before: PageTables,
    after: PageTables,
    region: MemoryRegionRaw,
    perms: MapPermissions,
    start: VirtAddr,
    page: int,
)
    requires
        before.format is X86_64,
        before.identity_setup(after, region, crate::x86_64::memory::flags_of(perms), Ok(start)),
        0 <= page < 0x10_0000_0000,
        touches(region, page),
    ensures
        after.lookup(page) matches Some(w) && {
            &&& w & 0x000F_FFFF_FFFF_F000 == page * 4096
            &&& w & 0x1 != 0
            &&& (w & 0x8000_0000_0000_0000 == 0) == perms.executable
            &&& (w & 0x2 != 0) == perms.writable
            &&& (w & 0x10 != 0) == perms.device_uncached
            &&& (w & 0x8 != 0) == perms.device_uncached
            &&& w & 0x7FF0_0000_0000_0FE4 == 0
        },
{
    let first = region.base_addr as int / 4096;
    let end = (region.base_addr + region.length_bytes + 4095) / 4096;
    assert(first <= page < end);
    let flags = crate::x86_64::memory::flags_of(perms);
    let phys = (page * 4096) as u64;
    let word = before.format.leaf_word(phys, flags);
    assert(after.lookup(page) == Some(word));
    let w = perms.writable;
    let x = perms.executable;
    let d = perms.device_uncached;
    assert(word & 0x000F_FFFF_FFFF_F000 == phys && word & 0x1 != 0 && (word & 0x8000_0000_0000_0000
        == 0) == x && (word & 0x2 != 0) == w && (word & 0x10 != 0) == d && (word & 0x8 != 0) == d
        && word & 0x7FF0_0000_0000_0FE4 == 0) by (bit_vector)
        requires
            phys % 4096 == 0,
            phys < 0x0001_0000_0000_0000,
            word == (phys & 0x000F_FFFF_FFFF_F000) | flags | 0x1,
            flags == (if w {
                1u64 << 1
            } else {
                0
            }) | (if !x {
                1u64 << 63
            } else {
                0
            }) | (if d {
                (1u64 << 4) | (1u64 << 3)
            } else {
                0
            }),
    ;
}

/// A page mapped on ARM64 can be executed, written and cached exactly as asked:
/// its entry has bits 53 and 54 clear if it may be executed, bit 7 clear if it may
/// be written, memory attribute 1 if it must not be cached and 0 if it may be,
/// bit 6, which would let programs in, always clear; it is accessed, shared by the
/// inner domain, and a page.
pub proof fn mapped_page_is_as_asked_on_arm64(
    before: PageTables,
    after: PageTables,
    region: MemoryRegionRaw,
    perms: MapPermissions,
    start: VirtAddr,
    page: int,
)
    requires
        before.format is Arm64,
        before.identity_setup(after, region, crate::arm64::memory::flags_of(perms), Ok(start)),
        0 <= page < 0x10_0000_0000,
        touches(region, page),
    ensures
        after.lookup(page) matches Some(w) && {
            &&& w & 0x0000_FFFF_FFFF_F000 == page * 4096
            &&& w & 0x703 == 0x703
            &&& (w & 0x0020_0000_0000_0000 == 0) == perms.executable
            &&& (w & 0x0040_0000_0000_0000 == 0) == perms.executable
            &&& (w & 0x80 == 0) == perms.writable
            &&& (w & 0x0080_0000_0000_0000 != 0) == perms.writable
            &&& (w & 0x4 != 0) == perms.device_uncached
            &&& w & 0xFF1F_0000_0000_0878 == 0
        },
{
    let first = region.base_addr as int / 4096;
    let end = (region.base_addr + region.length_bytes + 4095) / 4096;
    assert(first <= page < end);
    let flags = crate::arm64::memory::flags_of(perms);
    let phys = (page * 4096) as u64;
    let word = before.format.leaf_word(phys, flags);
    assert(after.lookup(page) == Some(word));
    let w = perms.writable;
    let x = perms.executable;
    let d = perms.device_uncached;
    assert(word & 0x0000_FFFF_FFFF_F000 == phys && word & 0x703 == 0x703 && (word
        & 0x0020_0000_0000_0000 == 0) == x && (word & 0x0040_0000_0000_0000 == 0) == x && (word
        & 0x80 == 0) == w && (word & 0x0080_0000_0000_0000 != 0) == w && (word & 0x4 != 0) == d
        && word & 0xFF1F_0000_0000_0878 == 0) by (bit_vector)
        requires
            phys % 4096 == 0,
            phys < 0x0001_0000_0000_0000,
            word == (phys & 0x0000_FFFF_FFFF_F000) | flags | 0x403,
            flags == 0x300 | (if d {
                1u64 << 2
            } else {
                0
            }) | (if w {
                1u64 << 55
            } else {
                1u64 << 7
            }) | (if !x {
                (1u64 << 53) | (1u64 << 54)
            } else {
                0
            }),
    ;
}

/// A page mapped on RISC-V can be read always, and written and executed exactly
/// as asked: bit 1 of its entry is set, bit 2 if it may be written, bit 3 if it
/// may be executed, bit 4, which would let programs in, never; it is marked
/// accessed and dirty.
pub proof fn mapped_page_is_as_asked_on_riscv64(
    before: PageTables,
    after: PageTables,
    region: MemoryRegionRaw,
    perms: MapPermissions,
    start: VirtAddr,
    page: int,
)
    requires
        before.format is Sv39,
        before.identity_setup(after, region, crate::riscv64::memory::flags_of(perms), Ok(start)),
        0 <= page < 0x800_0000,
        touches(region, page),
    ensures
        after.lookup(page) matches Some(w) && {
            &&& (w & 0x003F_FFFF_FFFF_FC00) * 4 == page * 4096
            &&& w & 0xC3 == 0xC3
            &&& (w & 0x4 != 0) == perms.writable
            &&& (w & 0x8 != 0) == perms.executable
            &&& w & 0xFFC0_0000_0000_0330 == 0
        },
{
    let first = region.base_addr as int / 4096;
    let end = (region.base_addr + region.length_bytes + 4095) / 4096;
    assert(first <= page < end);
    let flags = crate::riscv64::memory::flags_of(perms);
    let phys = (page * 4096) as u64;
    let word = before.format.leaf_word(phys, flags);
    assert(after.lookup(page) == Some(word));
    let w = perms.writable;
    let x = perms.executable;
    assert((word & 0x003F_FFFF_FFFF_FC00) * 4 == phys && word & 0xC3 == 0xC3 && (word & 0x4 != 0)
        == w && (word & 0x8 != 0) == x && word & 0xFFC0_0000_0000_0330 == 0) by (bit_vector)
        requires
            phys % 4096 == 0,
            phys < 0x0001_0000_0000_0000,
            word == ((phys >> 12) << 10) | flags | 0xC1,
            flags == (1u64 << 1) | (if w {
                1u64 << 2
            } else {
                0
            }) | (if x {
                1u64 << 3
            } else {
                0
            }),
    ;
}

} // verus!
