//! Laws of the ACPI tables, and of the memory that they and the memory map
//! describe.

use vstd::prelude::*;

use crate::acpi::{
    distributor, distributor_among, distributor_from, distributor_in, is_table, root_table,
    table_address, table_count, table_present, PhysicalMemory, DMAR_SIGNATURE, IORT_SIGNATURE,
    MADT_SIGNATURE,
};
use crate::bytes::le;
use crate::laws::words::little_endian_bytes_add_up;

verus! {

/// The `n` bytes from `addr` can be read.
pub open spec fn readable(mem: PhysicalMemory, addr: int, n: int) -> bool {
    &&& mem.base <= addr
    &&& addr + n <= mem.base + mem.bytes@.len()
    &&& addr + n <= 0x1_0000_0000_0000_0000
}

/// The little-endian number in the `n` bytes from `addr`.
pub open spec fn read(mem: PhysicalMemory, addr: int, n: nat) -> int {
    le(mem.bytes@, addr - mem.base, n) as int
}

/// The root pointer leads to a root table at `root`: the pointer is not null, the
/// table's address stands 24 bytes behind it, is not null, and the 36 bytes of a
/// table header can be read there.
pub open spec fn leads_to(mem: PhysicalMemory, rsdp: u64, root: int) -> bool {
    &&& rsdp != 0
    &&& readable(mem, rsdp + 24, 8)
    &&& read(mem, rsdp + 24, 8) == root
    &&& root != 0
    &&& readable(mem, root, 36)
}

/// The root table lists, as its entry `i`, a table at `addr` with signature
/// `signature`: the entries of eight bytes follow the header and end at the
/// table's length.
pub open spec fn lists(
    mem: PhysicalMemory,
    root: int,
    i: int,
    addr: int,
    signature: int,
) -> bool {
    &&& 0 <= i
    &&& 36 + 8 * (i + 1) <= read(mem, root + 4, 4)
    &&& readable(mem, root + 36 + 8 * i, 8)
    &&& read(mem, root + 36 + 8 * i, 8) == addr
    &&& readable(mem, addr, 36)
    &&& read(mem, addr, 4) == signature
}

/// The signatures spell the tables' names: each is the little-endian number of
/// four letters.
pub proof fn signatures_spell_names(name: Seq<u8>)
    requires
        name.len() >= 4,
    ensures
        le(name, 0, 4) == DMAR_SIGNATURE <==> name.take(4) == seq![68u8, 77, 65, 82],
        le(name, 0, 4) == MADT_SIGNATURE <==> name.take(4) == seq![65u8, 80, 73, 67],
        le(name, 0, 4) == IORT_SIGNATURE <==> name.take(4) == seq![73u8, 79, 82, 84],
{
    little_endian_bytes_add_up(name, 0);
    let head = name.take(4);
    assert(head[0] == name[0] && head[1] == name[1] && head[2] == name[2] && head[3] == name[3]);
    if le(name, 0, 4) == DMAR_SIGNATURE {
        assert(head =~= seq![68u8, 77, 65, 82]);
    }
    if le(name, 0, 4) == MADT_SIGNATURE {
        assert(head =~= seq![65u8, 80, 73, 67]);
    }
    if le(name, 0, 4) == IORT_SIGNATURE {
        assert(head =~= seq![73u8, 79, 82, 84]);
    }
}

proof fn lemma_root(mem: PhysicalMemory, rsdp: u64, root: int)
    ensures
        root_table(mem, rsdp) == Some(root) <==> leads_to(mem, rsdp, root),
{
}

proof fn lemma_listed(mem: PhysicalMemory, root: int, i: int, signature: u32)
    ensures
        is_table(mem, root, i, signature) <==> lists(
            mem,
            root,
            i,
            table_address(mem, root, i),
            signature as int,
        ),
        table_address(mem, root, i) == read(mem, root + 36 + 8 * i, 8),
{
}

/// A table is present exactly if the root pointer leads to a root table that
/// lists one with its signature.
pub proof fn table_is_present_if_it_is_listed(mem: PhysicalMemory, rsdp: u64, signature: u32)
    ensures
        table_present(mem, rsdp, signature) <==> exists|root: int, i: int, addr: int| #[trigger]
            leads_to(mem, rsdp, root) && #[trigger] lists(mem, root, i, addr, signature as int),
{
    if table_present(mem, rsdp, signature) {
        let root = root_table(mem, rsdp)->0;
        lemma_root(mem, rsdp, root);
        let i = choose|i: int| #[trigger] is_table(mem, root, i, signature);
        lemma_listed(mem, root, i, signature);
        assert(leads_to(mem, rsdp, root) && lists(
            mem,
            root,
            i,
            table_address(mem, root, i),
            signature as int,
        ));
    }
    if exists|root: int, i: int, addr: int| #[trigger]
        leads_to(mem, rsdp, root) && #[trigger] lists(mem, root, i, addr, signature as int) {
        let (root, i, addr) = choose|root: int, i: int, addr: int| #[trigger]
            leads_to(mem, rsdp, root) && #[trigger] lists(mem, root, i, addr, signature as int);
        lemma_root(mem, rsdp, root);
        lemma_listed(mem, root, i, signature);
        assert(is_table(mem, root_table(mem, rsdp)->0, i, signature));
    }
}

/// Among the entries of an interrupt controller table, the first of type 12 gives
/// the distributor's base, in the eight bytes 8 behind its start; an entry of
/// another type is passed over by its length, and the table ends where it says, at
/// an entry without a length, or where it cannot be read.
pub proof fn entries_are_passed_over_to_the_distributor(
    mem: PhysicalMemory,
    table: int,
    length: int,
    at: int,
)
    ensures
        at < length && readable(mem, table + at, 2) && read(mem, table + at, 1) == 12 && readable(
            mem,
            table + at + 8,
            8,
        ) ==> (distributor_from(mem, table, length, at) matches Some(base) && base == read(
            mem,
            table + at + 8,
            8,
        )),
        at < length && readable(mem, table + at, 2) && read(mem, table + at, 1) != 12 && read(
            mem,
            table + at + 1,
            1,
        ) != 0 ==> distributor_from(mem, table, length, at) == distributor_from(
            mem,
            table,
            length,
            at + read(mem, table + at + 1, 1),
        ),
        at >= length || !readable(mem, table + at, 2) || (read(mem, table + at, 1) != 12 && read(
            mem,
            table + at + 1,
            1,
        ) == 0) ==> distributor_from(mem, table, length, at) is None,
{
    little_endian_bytes_add_up(mem.bytes@, table + at + 8 - mem.base);
}

/// The distributor is looked for in the last interrupt controller table that the
/// root table lists, from byte 44 on; without one there is none.
pub proof fn distributor_is_in_the_last_controller_table(
    mem: PhysicalMemory,
    rsdp: u64,
    root: int,
    i: int,
    addr: int,
)
    requires
        leads_to(mem, rsdp, root),
        lists(mem, root, i, addr, 0x4349_5041),
        forall|j: int, other: int| i < j ==> !#[trigger] lists(mem, root, j, other, 0x4349_5041),
    ensures
        distributor(mem, rsdp) == distributor_from(mem, addr, read(mem, addr + 4, 4), 44),
{
    lemma_root(mem, rsdp, root);
    lemma_listed(mem, root, i, MADT_SIGNATURE);
    lemma_last_controller_table(mem, root, i, table_count(mem, root));
}

proof fn lemma_last_controller_table(mem: PhysicalMemory, root: int, i: int, n: int)
    requires
        0 <= i < n,
        is_table(mem, root, i, MADT_SIGNATURE),
        forall|j: int, other: int| i < j ==> !#[trigger] lists(mem, root, j, other, 0x4349_5041),
    ensures
        distributor_among(mem, root, n) == distributor_in(mem, table_address(mem, root, i)),
    decreases n,
{
    if i < n - 1 {
        lemma_listed(mem, root, n - 1, MADT_SIGNATURE);
        assert(!lists(mem, root, n - 1, table_address(mem, root, n - 1), 0x4349_5041));
        lemma_last_controller_table(mem, root, i, n - 1);
    }
}

/// Without an interrupt controller table, or without a root table, no distributor
/// is found.
pub proof fn no_distributor_without_a_controller_table(mem: PhysicalMemory, rsdp: u64)
    requires
        !exists|root: int, i: int, addr: int| #[trigger]
            leads_to(mem, rsdp, root) && #[trigger] lists(mem, root, i, addr, 0x4349_5041),
    ensures
        distributor(mem, rsdp) is None,
{
    if let Some(root) = root_table(mem, rsdp) {
        lemma_root(mem, rsdp, root);
        lemma_no_controller_table(mem, rsdp, root, table_count(mem, root));
    }
}

proof fn lemma_no_controller_table(mem: PhysicalMemory, rsdp: u64, root: int, n: int)
    requires
        leads_to(mem, rsdp, root),
        !exists|root: int, i: int, addr: int| #[trigger]
            leads_to(mem, rsdp, root) && #[trigger] lists(mem, root, i, addr, 0x4349_5041),
    ensures
        distributor_among(mem, root, n) is None,
    decreases n,
{
    if n > 0 {
        lemma_listed(mem, root, n - 1, MADT_SIGNATURE);
        assert(!is_table(mem, root, n - 1, MADT_SIGNATURE)) by {
            if is_table(mem, root, n - 1, MADT_SIGNATURE) {
                assert(leads_to(mem, rsdp, root) && lists(
                    mem,
                    root,
                    n - 1,
                    table_address(mem, root, n - 1),
                    0x4349_5041,
                ));
            }
        }
        lemma_no_controller_table(mem, rsdp, root, n - 1);
    }
}

/// An ARM64 machine's memory has an IOMMU exactly if the root pointer behind the
/// memory map leads to an "IORT" table; every region is then behind it, and the
/// distributor is where the tables say, or at 0x0800_0000.
pub proof fn arm64_memory_is_as_described(
    memory: crate::arm64::memory::Memory,
    blob: Seq<u8>,
    mem: PhysicalMemory,
    rsdp: u64,
    i: int,
)
    requires
        memory.read_from(blob, mem),
        rsdp == le(blob, 16int + le(blob, 0, 8), 8),
        0 <= i < memory.regions().len(),
    ensures
        memory.iommu_present <==> exists|root: int, k: int, addr: int| #[trigger]
            leads_to(mem, rsdp, root) && #[trigger] lists(mem, root, k, addr, 0x5452_4F49),
        memory.regions()[i].behind_iommu == memory.iommu_present,
        memory.gicd_base == match distributor(mem, rsdp) {
            Some(base) => base,
            None => 0x0800_0000,
        },
{
    table_is_present_if_it_is_listed(mem, rsdp, 0x5452_4F49);
    assert(memory.regions()[i].behind_iommu == memory.iommu_present);
}

} // verus!
