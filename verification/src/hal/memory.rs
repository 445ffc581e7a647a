//! Addresses, mapping permissions, and the memory capability trait.

use vstd::arithmetic::power2::is_pow2;
use vstd::prelude::*;

use crate::bits::lemma_mask_rounds_down;
use crate::hal::error::HalError;

pub use crate::manifest::raw::{
    MemoryRegionKindRaw as MemoryRegionKind, MemoryRegionRaw as MemoryRegion,
};

verus! {

/// The largest multiple of `align` that is at most `addr`.
pub open spec fn rounded_down(addr: int, align: int) -> int {
    addr - addr % align
}

/// The smallest multiple of `align` that is at least `addr`.
pub open spec fn rounded_up(addr: int, align: int) -> int {
    rounded_down(addr + align - 1, align)
}

/// A physical address.
#[derive(Debug, Clone, Copy, PartialEq, Eq, PartialOrd, Ord, Hash, Structural)]
pub struct PhysAddr(pub usize);

impl PhysAddr {
    /// The address `addr`.
    pub fn new(addr: usize) -> (r: Self)
        ensures
            r.0 == addr,
    {
        PhysAddr(addr)
    }

    /// The address as a number.
    pub fn as_usize(self) -> (r: usize)
        ensures
            r == self.0,
    {
        self.0
    }

    /// Rounds the address down to a multiple of the power of two `align`.
    pub fn align_down(self, align: usize) -> (r: Self)
        requires
            is_pow2(align as int),
        ensures
            r.0 == rounded_down(self.0 as int, align as int),
    {
        proof {
            lemma_mask_rounds_down(self.0, align);
        }
        PhysAddr(self.0 & !(align - 1))
    }

    /// Rounds the address up to a multiple of the power of two `align`.
    pub fn align_up(self, align: usize) -> (r: Self)
        requires
            is_pow2(align as int),
            self.0 + align - 1 <= usize::MAX,
        ensures
            r.0 == rounded_up(self.0 as int, align as int),
    {
        proof {
            lemma_mask_rounds_down((self.0 + align - 1) as usize, align);
        }
        PhysAddr((self.0 + (align - 1)) & !(align - 1))
    }
}

/// A virtual address.
#[derive(Debug, Clone, Copy, PartialEq, Eq, PartialOrd, Ord, Hash, Structural)]
pub struct VirtAddr(pub usize);

impl VirtAddr {
    /// The address `addr`.
    pub fn new(addr: usize) -> (r: Self)
        ensures
            r.0 == addr,
    {
        VirtAddr(addr)
    }

    /// The address as a number.
    pub fn as_usize(self) -> (r: usize)
        ensures
            r == self.0,
    {
        self.0
    }

    /// Rounds the address down to a multiple of the power of two `align`.
    pub fn align_down(self, align: usize) -> (r: Self)
        requires
            is_pow2(align as int),
        ensures
            r.0 == rounded_down(self.0 as int, align as int),
    {
        proof {
            lemma_mask_rounds_down(self.0, align);
        }
        VirtAddr(self.0 & !(align - 1))
    }

    /// Rounds the address up to a multiple of the power of two `align`.
    pub fn align_up(self, align: usize) -> (r: Self)
        requires
            is_pow2(align as int),
            self.0 + align - 1 <= usize::MAX,
        ensures
            r.0 == rounded_up(self.0 as int, align as int),
    {
        proof {
            lemma_mask_rounds_down((self.0 + align - 1) as usize, align);
        }
        VirtAddr((self.0 + (align - 1)) & !(align - 1))
    }
}

/// Rounding down gives a multiple of the alignment that is at most the address
/// and less than one alignment away; rounding up gives the same from above; an
/// aligned address is rounded to itself either way.
pub proof fn rounding_brackets_the_address(addr: int, align: int)
    requires
        align > 0,
    ensures
        rounded_down(addr, align) % align == 0,
        rounded_down(addr, align) <= addr < rounded_down(addr, align) + align,
        rounded_up(addr, align) % align == 0,
        rounded_up(addr, align) - align < addr <= rounded_up(addr, align),
        addr % align == 0 ==> rounded_down(addr, align) == addr && rounded_up(addr, align) == addr,
{
    vstd::arithmetic::div_mod::lemma_fundamental_div_mod(addr, align);
    vstd::arithmetic::div_mod::lemma_mod_multiples_basic(addr / align, align);
    vstd::arithmetic::mul::lemma_mul_is_commutative(addr / align, align);
    vstd::arithmetic::div_mod::lemma_mod_bound(addr, align);
    let up = addr + align - 1;
    vstd::arithmetic::div_mod::lemma_fundamental_div_mod(up, align);
    vstd::arithmetic::div_mod::lemma_mod_multiples_basic(up / align, align);
    vstd::arithmetic::mul::lemma_mul_is_commutative(up / align, align);
    vstd::arithmetic::div_mod::lemma_mod_bound(up, align);
    if addr % align == 0 {
        vstd::arithmetic::div_mod::lemma_small_mod((align - 1) as nat, align as nat);
        vstd::arithmetic::div_mod::lemma_add_mod_noop(addr, align - 1, align);
    }
}

/// How a mapped range may be accessed.
#[derive(Debug, Clone, Copy, PartialEq, Eq, Structural)]
pub struct MapPermissions {
    pub readable: bool,
    pub writable: bool,
    pub executable: bool,
    /// Device registers must never be cached.
    pub device_uncached: bool,
}

impl MapPermissions {
    /// Writable and executable never go together.
    pub open spec fn write_xor_execute(self) -> bool {
        !(self.writable && self.executable)
    }

    /// Readable and executable, for the kernel's code.
    pub fn kernel_code() -> (r: Self)
        ensures
            r == (MapPermissions {
                readable: true,
                writable: false,
                executable: true,
                device_uncached: false,
            }),
            r.write_xor_execute(),
    {
        MapPermissions { readable: true, writable: false, executable: true, device_uncached: false }
    }

    /// Readable and writable, for the kernel's data.
    pub fn kernel_data() -> (r: Self)
        ensures
            r == (MapPermissions {
                readable: true,
                writable: true,
                executable: false,
                device_uncached: false,
            }),
            r.write_xor_execute(),
    {
        MapPermissions { readable: true, writable: true, executable: false, device_uncached: false }
    }

    /// Readable only, for the kernel's constants.
    pub fn kernel_rodata() -> (r: Self)
        ensures
            r == (MapPermissions {
                readable: true,
                writable: false,
                executable: false,
                device_uncached: false,
            }),
            r.write_xor_execute(),
    {
        MapPermissions { readable: true, writable: false, executable: false, device_uncached: false }
    }

    /// Readable, writable and uncached, for device registers.
    pub fn device_mmio() -> (r: Self)
        ensures
            r == (MapPermissions {
                readable: true,
                writable: true,
                executable: false,
                device_uncached: true,
            }),
            r.write_xor_execute(),
    {
        MapPermissions { readable: true, writable: true, executable: false, device_uncached: true }
    }
}

/// What each architecture's memory support must offer.
pub trait MemoryBootstrap {
    /// The physical memory map that firmware reported.
    fn physical_memory_map(&self) -> &[MemoryRegion];

    /// Whether an IOMMU was found.
    fn iommu_present(&self) -> bool;

    /// Maps `region` at virtual addresses equal to its physical ones.
    fn setup_identity_mapping(
        &self,
        region: MemoryRegion,
        perms: MapPermissions,
    ) -> Result<VirtAddr, HalError>;

    /// The smallest page size of the MMU.
    fn base_page_size_bytes(&self) -> usize;
}

} // verus!
