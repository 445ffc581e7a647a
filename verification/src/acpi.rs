//! The few questions asked of the ACPI tables: is a table with a given
//! signature present, and where is the interrupt distributor.

use vstd::prelude::*;

use crate::bytes::{le, read_u32_le, read_u64_le};

verus! {

/// A stretch of physical memory that can be read.
#[derive(Clone, Copy)]
pub struct PhysicalMemory<'a> {
    /// The physical address of the first byte.
    pub base: u64,
    pub bytes: &'a [u8],
}

impl<'a> PhysicalMemory<'a> {
    /// The `n` bytes from `addr` can be read: they lie in the stretch and have
    /// 64-bit addresses.
    pub open spec fn holds(self, addr: int, n: int) -> bool {
        &&& self.base <= addr
        &&& addr + n <= self.base + self.bytes@.len()
        &&& addr + n <= 0x1_0000_0000_0000_0000
    }

    /// The little-endian number in the `n` bytes from `addr`.
    pub open spec fn number(self, addr: int, n: nat) -> nat {
        le(self.bytes@, addr - self.base, n)
    }

    /// Where `addr` lies in the stretch, if the `n` bytes from there can be read.
    fn offset_of(&self, addr: u64, n: usize) -> (r: Option<usize>)
        ensures
            r is Some <==> self.holds(addr as int, n as int),
            r matches Some(at) ==> at == addr - self.base,
    {
        if addr < self.base || n > self.bytes.len() {
            return None;
        }
        let at: u64 = addr - self.base;
        if at > (self.bytes.len() - n) as u64 || (n > 0 && addr > u64::MAX - (n as u64 - 1)) {
            return None;
        }
        Some(at as usize)
    }

    /// Reads a byte.
    fn read_u8(&self, addr: u64) -> (r: Option<u8>)
        ensures
            r is Some <==> self.holds(addr as int, 1),
            r matches Some(v) ==> v == self.number(addr as int, 1),
    {
        match self.offset_of(addr, 1) {
            Some(at) => {
                proof {
                    reveal_with_fuel(le, 2);
                }
                Some(self.bytes[at])
            },
            None => None,
        }
    }

    /// Reads a little-endian `u32`.
    fn read_u32(&self, addr: u64) -> (r: Option<u32>)
        ensures
            r is Some <==> self.holds(addr as int, 4),
            r matches Some(v) ==> v == self.number(addr as int, 4),
    {
        match self.offset_of(addr, 4) {
            Some(at) => Some(read_u32_le(self.bytes, at)),
            None => None,
        }
    }

    /// Reads a little-endian `u64`.
    fn read_u64(&self, addr: u64) -> (r: Option<u64>)
        ensures
            r is Some <==> self.holds(addr as int, 8),
            r matches Some(v) ==> v == self.number(addr as int, 8),
    {
        match self.offset_of(addr, 8) {
            Some(at) => Some(read_u64_le(self.bytes, at)),
            None => None,
        }
    }
}

/// The bytes of the header that every table starts with.
pub const TABLE_HEADER_SIZE: u64 = 36;

/// "DMAR", the table that describes DMA remapping.
pub const DMAR_SIGNATURE: u32 = 0x5241_4D44;

/// "APIC", the table that lists interrupt controllers.
pub const MADT_SIGNATURE: u32 = 0x4349_5041;

/// "IORT", the table that describes I/O remapping.
pub const IORT_SIGNATURE: u32 = 0x5452_4F49;

/// Where the entries of the interrupt controller table start.
pub const MADT_ENTRIES_AT: u64 = 44;

/// The entry type of an interrupt distributor.
pub const MADT_GIC_DISTRIBUTOR_TYPE: u8 = 0x0C;

/// The address of the root table, if the root pointer leads to one.
pub open spec fn root_table(mem: PhysicalMemory, rsdp: u64) -> Option<int> {
    if rsdp == 0 || !mem.holds(rsdp + 24, 8) || mem.number(rsdp + 24, 8) == 0 || !mem.holds(
        mem.number(rsdp + 24, 8) as int,
        TABLE_HEADER_SIZE as int,
    ) {
        None
    } else {
        Some(mem.number(rsdp + 24, 8) as int)
    }
}

/// How many tables the root table lists: what its length leaves for entries of
/// eight bytes.
pub open spec fn table_count(mem: PhysicalMemory, root: int) -> int {
    let length = mem.number(root + 4, 4);
    if length < TABLE_HEADER_SIZE {
        0
    } else {
        (length - TABLE_HEADER_SIZE) / 8
    }
}

/// The address of listed table `i`.
pub open spec fn table_address(mem: PhysicalMemory, root: int, i: int) -> int {
    mem.number(root + TABLE_HEADER_SIZE + 8 * i, 8) as int
}

/// Listed table `i` can be read and has the given signature.
pub open spec fn is_table(mem: PhysicalMemory, root: int, i: int, signature: u32) -> bool {
    let addr = table_address(mem, root, i);
    &&& 0 <= i < table_count(mem, root)
    &&& mem.holds(root + TABLE_HEADER_SIZE + 8 * i, 8)
    &&& mem.holds(addr, TABLE_HEADER_SIZE as int)
    &&& mem.number(addr, 4) == signature
}

/// Some listed table has the given signature.
pub open spec fn table_present(mem: PhysicalMemory, rsdp: u64, signature: u32) -> bool {
    match root_table(mem, rsdp) {
        Some(root) => exists|i: int| #[trigger] is_table(mem, root, i, signature),
        None => false,
    }
}

/// Finds the root table.
fn find_root(mem: &PhysicalMemory, rsdp: u64) -> (r: Option<u64>)
    ensures
        r is Some <==> root_table(*mem, rsdp) is Some,
        r matches Some(root) ==> root_table(*mem, rsdp) == Some(root as int),
{
    if rsdp == 0 || rsdp > u64::MAX - 24 {
        return None;
    }
    match mem.read_u64(rsdp + 24) {
        Some(root) => {
            if root == 0 {
                return None;
            }
            match mem.offset_of(root, TABLE_HEADER_SIZE as usize) {
                Some(_) => Some(root),
                None => None,
            }
        },
        None => None,
    }
}

/// Counts the tables that the root table lists.
fn count_tables(mem: &PhysicalMemory, root: u64) -> (r: u64)
    requires
        mem.holds(root as int, TABLE_HEADER_SIZE as int),
    ensures
        r == table_count(*mem, root as int),
        r < 0x1_0000_0000,
{
    match mem.read_u32(root + 4) {
        Some(length) => {
            if (length as u64) < TABLE_HEADER_SIZE {
                0
            } else {
                (length as u64 - TABLE_HEADER_SIZE) / 8
            }
        },
        None => 0,
    }
}

/// The address and signature of listed table `i`, if it can be read.
fn read_table(mem: &PhysicalMemory, root: u64, i: u64) -> (r: Option<(u64, u32)>)
    requires
        i < table_count(*mem, root as int) < 0x1_0000_0000,
    ensures
        forall|signature: u32| #[trigger]
            is_table(*mem, root as int, i as int, signature) <==> (r matches Some(t) && t.1
                == signature),
        r matches Some(t) ==> t.0 == table_address(*mem, root as int, i as int) && mem.holds(
            t.0 as int,
            TABLE_HEADER_SIZE as int,
        ),
{
    if root > u64::MAX - TABLE_HEADER_SIZE - 8 * i {
        return None;
    }
    match mem.read_u64(root + TABLE_HEADER_SIZE + 8 * i) {
        Some(addr) => match mem.offset_of(addr, TABLE_HEADER_SIZE as usize) {
            Some(_) => match mem.read_u32(addr) {
                Some(signature) => Some((addr, signature)),
                None => None,
            },
            None => None,
        },
        None => None,
    }
}

/// Whether a table with the given signature is listed.
pub fn has_table(mem: &PhysicalMemory, rsdp: u64, signature: u32) -> (r: bool)
    ensures
        r == table_present(*mem, rsdp, signature),
{
    let root: u64 = match find_root(mem, rsdp) {
        Some(root) => root,
        None => {
            return false;
        },
    };
    let count: u64 = count_tables(mem, root);
    let mut i: u64 = 0;
    while i < count
        invariant
            root_table(*mem, rsdp) == Some(root as int),
            count == table_count(*mem, root as int),
            count < 0x1_0000_0000,
            i <= count,
            forall|j: int| 0 <= j < i ==> !#[trigger] is_table(*mem, root as int, j, signature),
        decreases count - i,
    {
        match read_table(mem, root, i) {
            Some(table) => {
                if table.1 == signature {
                    assert(is_table(*mem, root_table(*mem, rsdp)->0, i as int, signature));
                    return true;
                }
            },
            None => {},
        }
        i = i + 1;
    }
    false
}

/// Whether DMA remapping hardware is described.
pub fn acpi_dmar_present(mem: &PhysicalMemory, rsdp_phys: u64) -> (r: bool)
    ensures
        r == table_present(*mem, rsdp_phys, DMAR_SIGNATURE),
{
    has_table(mem, rsdp_phys, DMAR_SIGNATURE)
}

/// The distributor's base in the entries of an interrupt controller table from
/// offset `at`; an entry of length zero ends the table.
pub open spec fn distributor_from(
    mem: PhysicalMemory,
    table: int,
    length: int,
    at: int,
) -> Option<u64>
    decreases
        (if at < length {
            length - at
        } else {
            0
        }),
{
    if at >= length || !mem.holds(table + at, 2) {
        None
    } else if mem.number(table + at, 1) == MADT_GIC_DISTRIBUTOR_TYPE {
        if mem.holds(table + at + 8, 8) {
            Some(mem.number(table + at + 8, 8) as u64)
        } else {
            None
        }
    } else if mem.number(table + at + 1, 1) == 0 {
        None
    } else {
        distributor_from(mem, table, length, at + mem.number(table + at + 1, 1))
    }
}

/// The distributor's base in the interrupt controller table at `table`.
pub open spec fn distributor_in(mem: PhysicalMemory, table: int) -> Option<u64> {
    distributor_from(mem, table, mem.number(table + 4, 4) as int, MADT_ENTRIES_AT as int)
}

/// The distributor's base in the last interrupt controller table among the
/// first `n` listed tables.
pub open spec fn distributor_among(mem: PhysicalMemory, root: int, n: int) -> Option<u64>
    decreases n,
{
    if n <= 0 {
        None
    } else if is_table(mem, root, n - 1, MADT_SIGNATURE) {
        distributor_in(mem, table_address(mem, root, n - 1))
    } else {
        distributor_among(mem, root, n - 1)
    }
}

/// The distributor's base, if the tables give it.
pub open spec fn distributor(mem: PhysicalMemory, rsdp: u64) -> Option<u64> {
    match root_table(mem, rsdp) {
        Some(root) => distributor_among(mem, root, table_count(mem, root)),
        None => None,
    }
}

/// Looks for the distributor in the interrupt controller table at `madt_addr`.
pub fn find_gicd_in_madt(mem: &PhysicalMemory, madt_addr: u64, length: u32) -> (r: Option<u64>)
    ensures
        r == distributor_from(*mem, madt_addr as int, length as int, MADT_ENTRIES_AT as int),
{
    let mut at: u64 = MADT_ENTRIES_AT;
    while at < length as u64
        invariant
            at <= 0x2_0000_0000,
            distributor_from(*mem, madt_addr as int, length as int, at as int)
                == distributor_from(
                *mem,
                madt_addr as int,
                length as int,
                MADT_ENTRIES_AT as int,
            ),
        decreases length + 255 - at,
    {
        if madt_addr > u64::MAX - at {
            return None;
        }
        let entry: u64 = madt_addr + at;
        let entry_length: u8 = match mem.offset_of(entry, 2) {
            Some(_) => match mem.read_u8(entry + 1) {
                Some(entry_length) => entry_length,
                None => {
                    return None;
                },
            },
            None => {
                return None;
            },
        };
        let entry_type: u8 = match mem.read_u8(entry) {
            Some(entry_type) => entry_type,
            None => {
                return None;
            },
        };
        if entry_type == MADT_GIC_DISTRIBUTOR_TYPE {
            if entry > u64::MAX - 8 {
                return None;
            }
            return mem.read_u64(entry + 8);
        }
        if entry_length == 0 {
            return None;
        }
        at = at + entry_length as u64;
    }
    None
}

/// What the tables tell an ARM64 machine.
#[derive(Debug, Clone, Copy, PartialEq, Eq)]
pub struct AcpiDiscoveryResult {
    /// The base of the interrupt distributor.
    pub gicd_base: Option<u64>,
    /// A system MMU is described.
    pub smmu_present: bool,
}

impl Default for AcpiDiscoveryResult {
    fn default() -> (r: Self)
        ensures
            r == (AcpiDiscoveryResult { gicd_base: None, smmu_present: false }),
    {
        AcpiDiscoveryResult { gicd_base: None, smmu_present: false }
    }
}

/// Reads what the tables tell an ARM64 machine.
pub fn acpi_discover(mem: &PhysicalMemory, rsdp_phys: u64) -> (r: AcpiDiscoveryResult)
    ensures
        r.gicd_base == distributor(*mem, rsdp_phys),
        r.smmu_present == table_present(*mem, rsdp_phys, IORT_SIGNATURE),
{
    let mut result = AcpiDiscoveryResult::default();
    let root: u64 = match find_root(mem, rsdp_phys) {
        Some(root) => root,
        None => {
            return result;
        },
    };
    let count: u64 = count_tables(mem, root);
    let mut i: u64 = 0;
    while i < count
        invariant
            root_table(*mem, rsdp_phys) == Some(root as int),
            count == table_count(*mem, root as int),
            count < 0x1_0000_0000,
            i <= count,
            result.gicd_base == distributor_among(*mem, root as int, i as int),
            result.smmu_present <==> exists|j: int|
                0 <= j < i && #[trigger] is_table(*mem, root as int, j, IORT_SIGNATURE),
        decreases count - i,
    {
        match read_table(mem, root, i) {
            Some(table) => {
                if table.1 == MADT_SIGNATURE {
                    assert(is_table(*mem, root as int, i as int, MADT_SIGNATURE));
                    let length: u32 = match mem.read_u32(table.0 + 4) {
                        Some(length) => length,
                        None => 0,
                    };
                    result.gicd_base = find_gicd_in_madt(mem, table.0, length);
                } else if table.1 == IORT_SIGNATURE {
                    assert(is_table(*mem, root as int, i as int, IORT_SIGNATURE));
                    result.smmu_present = true;
                }
            },
            None => {},
        }
        i = i + 1;
    }
    result
}

} // verus!
