//! Calls of direct hardware access.

use vstd::prelude::*;

use crate::direct::{
    authorize_affinity, authorize_counter, authorize_mmio, authorize_numa_policy, token_outcome,
    verify_token, CapabilityScope, CapabilityToken, NumaPolicy, PerfCounterId, TokenVerifier,
};
use crate::hal::error::HalError;
use crate::hal::memory::{MapPermissions, PhysAddr, VirtAddr};
use crate::laws::paging::{
    mapped_page_is_as_asked_on_arm64, mapped_page_is_as_asked_on_riscv64,
    mapped_page_is_as_asked_on_x86_64, touches,
};
use crate::manifest::raw::{MemoryRegionKindRaw, MemoryRegionRaw};
use crate::paging::{PageFormat, PageTables};
use crate::riscv64::direct::CounterRegister;

verus! {

/// A token is granted exactly if it is for this operation, has not expired, and is
/// vouched for.
pub proof fn grant_token<V: TokenVerifier>(
    verifier: &V,
    token: &CapabilityToken,
    required: CapabilityScope,
    now_ns: u64,
    r: Result<(), HalError>,
    signature: Result<(), HalError>,
    decided: Result<(), HalError>,
)
    requires
        call_ensures(verify_token::<V>, (verifier, token, required, now_ns), r),
        call_ensures(token_outcome, (token, required, now_ns, signature), decided),
    ensures
        r is Ok ==> token.scope == required && now_ns < token.expires_at_ns && call_ensures(
            V::verify_signature,
            (verifier, token),
            r,
        ),
        token.scope == required && now_ns < token.expires_at_ns ==> call_ensures(
            V::verify_signature,
            (verifier, token),
            r,
        ),
        token.scope != required || now_ns >= token.expires_at_ns ==> r == Err::<(), HalError>(
            HalError::InvalidCapabilityToken,
        ),
        decided == (if token.scope == required && now_ns < token.expires_at_ns {
            signature
        } else {
            Err(HalError::InvalidCapabilityToken)
        }),
{
}

/// A token covers its own scope alone and expires at its time, not before.
pub proof fn inspect_token(
    token: &CapabilityToken,
    requested: CapabilityScope,
    now_ns: u64,
    covers: bool,
    expired: bool,
)
    requires
        call_ensures(CapabilityToken::covers, (token, requested), covers),
        call_ensures(CapabilityToken::is_expired, (token, now_ns), expired),
    ensures
        covers <==> token.scope == requested,
        expired <==> now_ns >= token.expires_at_ns,
{
}

/// A token holds what it was made with, and the signature that it was given, of up
/// to 64 bytes.
pub proof fn make_token(
    subject: u64,
    scope: CapabilityScope,
    expires_at_ns: u64,
    token: CapabilityToken,
    signature: &[u8],
    signed: CapabilityToken,
    bytes: &[u8],
)
    requires
        signature@.len() <= 64,
        call_ensures(CapabilityToken::new, (subject, scope, expires_at_ns), token),
        call_ensures(CapabilityToken::with_signature, (token, signature), signed),
        call_ensures(CapabilityToken::signature_bytes, (&signed,), bytes),
    ensures
        token.subject_id == subject && token.scope == scope && token.expires_at_ns == expires_at_ns,
        token.signature_len == 0,
        signed.subject_id == subject && signed.scope == scope && signed.expires_at_ns
            == expires_at_ns,
        signed.signature_len == signature@.len(),
        bytes@ == signature@,
{
    assert(token.signed_with().len() == token.signature_len);
    assert(signed.signed_with().len() == signed.signature_len);
}

/// Each request is granted only for a token that names it: the same range, counter
/// or core.
pub proof fn grant_operations<V: TokenVerifier>(
    verifier: &V,
    token: &CapabilityToken,
    phys: PhysAddr,
    size: usize,
    counter: PerfCounterId,
    core: usize,
    policy: NumaPolicy,
    now_ns: u64,
    a: Result<(), HalError>,
    b: Result<(), HalError>,
    c: Result<(), HalError>,
    d: Result<(), HalError>,
)
    requires
        call_ensures(authorize_mmio::<V>, (verifier, token, phys, size, now_ns), a),
        call_ensures(authorize_counter::<V>, (verifier, token, counter, now_ns), b),
        call_ensures(authorize_affinity::<V>, (verifier, token, core, now_ns), c),
        call_ensures(authorize_numa_policy::<V>, (verifier, token, policy, now_ns), d),
    ensures
        a is Ok ==> (token.scope matches CapabilityScope::MmioRegion { phys_base, size: s }
            && phys_base == phys.0 && s == size),
        b is Ok ==> (token.scope matches CapabilityScope::PerformanceCounter { counter_id }
            && counter_id == counter.0),
        c is Ok && core < 0x1_0000_0000 ==> (
        token.scope matches CapabilityScope::ThreadAffinity { core_id } && core_id == core),
        d is Ok ==> token.scope is NumaPolicy,
        a is Ok || b is Ok || c is Ok || d is Ok ==> now_ns < token.expires_at_ns,
        a is Ok ==> call_ensures(V::verify_signature, (verifier, token), a),
        b is Ok ==> call_ensures(V::verify_signature, (verifier, token), b),
        c is Ok ==> call_ensures(V::verify_signature, (verifier, token), c),
        d is Ok ==> call_ensures(V::verify_signature, (verifier, token), d),
        now_ns >= token.expires_at_ns ==> a is Err && b is Err && c is Err && d is Err,
        now_ns < token.expires_at_ns && token.scope == (CapabilityScope::MmioRegion {
            phys_base: phys.0 as u64,
            size: size as u64,
        }) ==> call_ensures(V::verify_signature, (verifier, token), a),
        now_ns < token.expires_at_ns && token.scope == (CapabilityScope::PerformanceCounter {
            counter_id: counter.0,
        }) ==> call_ensures(V::verify_signature, (verifier, token), b),
        now_ns < token.expires_at_ns && token.scope == (CapabilityScope::ThreadAffinity {
            core_id: core as u32,
        }) ==> call_ensures(V::verify_signature, (verifier, token), c),
        now_ns < token.expires_at_ns && token.scope is NumaPolicy ==> call_ensures(
            V::verify_signature,
            (verifier, token),
            d,
        ),
{
}

/// The token is for the range of registers at `phys`.
pub open spec fn names_range(token: CapabilityToken, phys: PhysAddr, size: usize) -> bool {
    token.scope matches CapabilityScope::MmioRegion { phys_base, size: s } && phys_base == phys.0
        && s == size
}

/// The token is for the counter.
pub open spec fn names_counter(token: CapabilityToken, counter: PerfCounterId) -> bool {
    token.scope matches CapabilityScope::PerformanceCounter { counter_id } && counter_id
        == counter.0
}

/// The token is for the core.
pub open spec fn names_core(token: CapabilityToken, core: usize) -> bool {
    token.scope matches CapabilityScope::ThreadAffinity { core_id } && core_id == core
}

/// Readable, writable, never executed, never cached.
pub open spec fn register_permissions() -> MapPermissions {
    MapPermissions { readable: true, writable: true, executable: false, device_uncached: true }
}

/// Device registers are mapped on x86_64 for a token that names their range, has not
/// expired and is vouched for, if the tables can map them, and for no other; then they
/// can be written, are not cached where that can be told, and are never executed.
/// Where the token is refused, the tables stay as they are.
pub proof fn map_registers_on_x86_64<V: TokenVerifier, C>(
    access: &crate::x86_64::direct::DirectAccess<'_, V, C>,
    tables: &mut PageTables,
    token: CapabilityToken,
    phys: PhysAddr,
    size: usize,
    ticks: u64,
    r: Result<VirtAddr, HalError>,
    page: int,
)
    requires
        old(tables).format == PageFormat::X86_64,
        call_ensures(
            crate::x86_64::direct::DirectAccess::<V, C>::map_mmio_region,
            (access, tables, token, phys, size, ticks),
            r,
        ),
        0 <= page < 0x10_0000_0000,
    ensures
        r is Ok ==> names_range(token, phys, size) && access.time(ticks) < token.expires_at_ns,
        r is Ok && page * 4096 < phys.0 + size && phys.0 < (page + 1) * 4096 ==> {
            let found = final(tables).lookup(page);
            let w = found->0;
            &&& found is Some
            &&& w & 0x000F_FFFF_FFFF_F000 == page * 4096
            &&& w & 0x8000_0000_0000_0000 != 0
            &&& w & 0x2 != 0 && w & 0x10 != 0 && w & 0x8 != 0
        },
        !names_range(token, phys, size) || access.time(ticks) >= token.expires_at_ns ==> {
            &&& *final(tables) == *old(tables)
            &&& r == Err::<VirtAddr, HalError>(HalError::InvalidCapabilityToken)
        },
        names_range(token, phys, size) && access.time(ticks) < token.expires_at_ns && (forall|
            v: Result<(), HalError>|
            call_ensures(V::verify_signature, (&access.verifier, &token), v) ==> v is Ok) ==> (r
            is Ok <==> old(tables).can_map_identity(
            phys.0 as u64,
            size as u64,
            crate::x86_64::memory::flags_of(register_permissions()),
        )),
{
    let region = MemoryRegionRaw::of(
        phys.0 as u64,
        size as u64,
        MemoryRegionKindRaw::Mmio,
        access.memory.iommu_present,
    );
    if let Ok(start) = r {
        assert(old(tables).identity_setup(
            *final(tables),
            region,
            crate::x86_64::memory::flags_of(register_permissions()),
            Ok(start),
        ));
        if touches(region, page) {
            mapped_page_is_as_asked_on_x86_64(
                *old(tables),
                *final(tables),
                region,
                register_permissions(),
                start,
                page,
            );
        }
    }
}

/// Device registers are mapped on ARM64 for a token that names their range, has not
/// expired and is vouched for, if the tables can map them, and for no other; then they
/// can be written, are not cached where that can be told, and are never executed.
/// Where the token is refused, the tables stay as they are.
pub proof fn map_registers_on_arm64<V: TokenVerifier, C>(
    access: &crate::arm64::direct::DirectAccess<'_, V, C>,
    tables: &mut PageTables,
    token: CapabilityToken,
    phys: PhysAddr,
    size: usize,
    ticks: u64,
    r: Result<VirtAddr, HalError>,
    page: int,
)
    requires
        old(tables).format == PageFormat::Arm64,
        call_ensures(
            crate::arm64::direct::DirectAccess::<V, C>::map_mmio_region,
            (access, tables, token, phys, size, ticks),
            r,
        ),
        0 <= page < 0x10_0000_0000,
    ensures
        r is Ok ==> names_range(token, phys, size) && access.time(ticks) < token.expires_at_ns,
        r is Ok && page * 4096 < phys.0 + size && phys.0 < (page + 1) * 4096 ==> {
            let found = final(tables).lookup(page);
            let w = found->0;
            &&& found is Some
            &&& w & 0x0000_FFFF_FFFF_F000 == page * 4096
            &&& w & 0x0020_0000_0000_0000 != 0 && w & 0x0040_0000_0000_0000 != 0
            &&& w & 0x80 == 0 && w & 0x4 != 0
        },
        !names_range(token, phys, size) || access.time(ticks) >= token.expires_at_ns ==> {
            &&& *final(tables) == *old(tables)
            &&& r == Err::<VirtAddr, HalError>(HalError::InvalidCapabilityToken)
        },
        names_range(token, phys, size) && access.time(ticks) < token.expires_at_ns && (forall|
            v: Result<(), HalError>|
            call_ensures(V::verify_signature, (&access.verifier, &token), v) ==> v is Ok) ==> (r
            is Ok <==> old(tables).can_map_identity(
            phys.0 as u64,
            size as u64,
            crate::arm64::memory::flags_of(register_permissions()),
        )),
{
    let region = MemoryRegionRaw::of(
        phys.0 as u64,
        size as u64,
        MemoryRegionKindRaw::Mmio,
        access.memory.iommu_present,
    );
    if let Ok(start) = r {
        assert(old(tables).identity_setup(
            *final(tables),
            region,
            crate::arm64::memory::flags_of(register_permissions()),
            Ok(start),
        ));
        if touches(region, page) {
            mapped_page_is_as_asked_on_arm64(
                *old(tables),
                *final(tables),
                region,
                register_permissions(),
                start,
                page,
            );
        }
    }
}

/// Device registers are mapped on RISC-V for a token that names their range, has not
/// expired and is vouched for, if the tables can map them, and for no other; then they
/// can be written, are not cached where that can be told, and are never executed.
/// Where the token is refused, the tables stay as they are.
pub proof fn map_registers_on_riscv64<V: TokenVerifier, C>(
    access: &crate::riscv64::direct::DirectAccess<'_, V, C>,
    tables: &mut PageTables,
    token: CapabilityToken,
    phys: PhysAddr,
    size: usize,
    ticks: u64,
    r: Result<VirtAddr, HalError>,
    page: int,
)
    requires
        old(tables).format == PageFormat::Sv39,
        call_ensures(
            crate::riscv64::direct::DirectAccess::<V, C>::map_mmio_region,
            (access, tables, token, phys, size, ticks),
            r,
        ),
        0 <= page < 0x800_0000,
    ensures
        r is Ok ==> names_range(token, phys, size) && access.time(ticks) < token.expires_at_ns,
        r is Ok && page * 4096 < phys.0 + size && phys.0 < (page + 1) * 4096 ==> {
            let found = final(tables).lookup(page);
            let w = found->0;
            &&& found is Some
            &&& (w & 0x003F_FFFF_FFFF_FC00) * 4 == page * 4096
            &&& w & 0x8 == 0 && w & 0x4 != 0
        },
        !names_range(token, phys, size) || access.time(ticks) >= token.expires_at_ns ==> {
            &&& *final(tables) == *old(tables)
            &&& r == Err::<VirtAddr, HalError>(HalError::InvalidCapabilityToken)
        },
        names_range(token, phys, size) && access.time(ticks) < token.expires_at_ns && (forall|
            v: Result<(), HalError>|
            call_ensures(V::verify_signature, (&access.verifier, &token), v) ==> v is Ok) ==> (r
            is Ok <==> old(tables).can_map_identity(
            phys.0 as u64,
            size as u64,
            crate::riscv64::memory::flags_of(register_permissions()),
        )),
{
    let region = MemoryRegionRaw::of(
        phys.0 as u64,
        size as u64,
        MemoryRegionKindRaw::Mmio,
        access.memory.iommu_present,
    );
    if let Ok(start) = r {
        assert(old(tables).identity_setup(
            *final(tables),
            region,
            crate::riscv64::memory::flags_of(register_permissions()),
            Ok(start),
        ));
        if touches(region, page) {
            mapped_page_is_as_asked_on_riscv64(
                *old(tables),
                *final(tables),
                region,
                register_permissions(),
                start,
                page,
            );
        }
    }
}

/// A counter is read, a thread pinned and a policy chosen on x86_64 for a token that
/// names the operation, has not expired and is vouched for, and for no other.
pub proof fn use_tokens_on_x86_64<V: TokenVerifier, C>(
    access: &crate::x86_64::direct::DirectAccess<'_, V, C>,
    token: CapabilityToken,
    counter: PerfCounterId,
    core: usize,
    policy: NumaPolicy,
    ticks: u64,
    index: Result<u32, HalError>,
    pinned: Result<(), HalError>,
    chosen: Result<(), HalError>,
)
    requires
        core < 0x1_0000_0000,
        call_ensures(
            crate::x86_64::direct::DirectAccess::<V, C>::read_performance_counter,
            (access, token, counter, ticks),
            index,
        ),
        call_ensures(
            crate::x86_64::direct::DirectAccess::<V, C>::pin_thread_to_core,
            (access, token, core, ticks),
            pinned,
        ),
        call_ensures(
            crate::x86_64::direct::DirectAccess::<V, C>::set_numa_policy,
            (access, token, policy, ticks),
            chosen,
        ),
    ensures
        index matches Ok(i) ==> i == counter.0,
        index is Ok ==> names_counter(token, counter),
        pinned is Ok ==> names_core(token, core),
        chosen is Ok ==> token.scope is NumaPolicy,
        index is Ok || pinned is Ok || chosen is Ok ==> access.time(ticks) < token.expires_at_ns,
        access.time(ticks) < token.expires_at_ns && (forall|v: Result<(), HalError>|
            call_ensures(V::verify_signature, (&access.verifier, &token), v) ==> v is Ok) ==> {
            &&& names_counter(token, counter) ==> index is Ok
            &&& names_core(token, core) ==> pinned is Ok
            &&& token.scope is NumaPolicy ==> chosen is Ok
        },
{
}

/// A counter is read, a thread pinned and a policy chosen on ARM64 for a token that
/// names the operation, has not expired and is vouched for, and for no other.
pub proof fn use_tokens_on_arm64<V: TokenVerifier, C>(
    access: &crate::arm64::direct::DirectAccess<'_, V, C>,
    token: CapabilityToken,
    counter: PerfCounterId,
    core: usize,
    policy: NumaPolicy,
    ticks: u64,
    index: Result<u32, HalError>,
    pinned: Result<(), HalError>,
    chosen: Result<(), HalError>,
)
    requires
        core < 0x1_0000_0000,
        call_ensures(
            crate::arm64::direct::DirectAccess::<V, C>::read_performance_counter,
            (access, token, counter, ticks),
            index,
        ),
        call_ensures(
            crate::arm64::direct::DirectAccess::<V, C>::pin_thread_to_core,
            (access, token, core, ticks),
            pinned,
        ),
        call_ensures(
            crate::arm64::direct::DirectAccess::<V, C>::set_numa_policy,
            (access, token, policy, ticks),
            chosen,
        ),
    ensures
        index matches Ok(i) ==> i == counter.0,
        index is Ok ==> names_counter(token, counter),
        pinned is Ok ==> names_core(token, core),
        chosen is Ok ==> token.scope is NumaPolicy,
        index is Ok || pinned is Ok || chosen is Ok ==> access.time(ticks) < token.expires_at_ns,
        access.time(ticks) < token.expires_at_ns && (forall|v: Result<(), HalError>|
            call_ensures(V::verify_signature, (&access.verifier, &token), v) ==> v is Ok) ==> {
            &&& names_counter(token, counter) ==> index is Ok
            &&& names_core(token, core) ==> pinned is Ok
            &&& token.scope is NumaPolicy ==> chosen is Ok
        },
{
}

/// A counter is read, a thread pinned and a policy chosen on RISC-V for a token that
/// names the operation, has not expired and is vouched for, and for no other.
pub proof fn use_tokens_on_riscv64<V: TokenVerifier, C>(
    access: &crate::riscv64::direct::DirectAccess<'_, V, C>,
    token: CapabilityToken,
    counter: PerfCounterId,
    core: usize,
    policy: NumaPolicy,
    ticks: u64,
    index: Result<CounterRegister, HalError>,
    pinned: Result<(), HalError>,
    chosen: Result<(), HalError>,
)
    requires
        core < 0x1_0000_0000,
        call_ensures(
            crate::riscv64::direct::DirectAccess::<V, C>::read_performance_counter,
            (access, token, counter, ticks),
            index,
        ),
        call_ensures(
            crate::riscv64::direct::DirectAccess::<V, C>::pin_thread_to_core,
            (access, token, core, ticks),
            pinned,
        ),
        call_ensures(
            crate::riscv64::direct::DirectAccess::<V, C>::set_numa_policy,
            (access, token, policy, ticks),
            chosen,
        ),
    ensures
        index matches Ok(i) ==> (i is Cycle <==> counter.0 == 0),
        index matches Ok(i) ==> (i is Instret <==> counter.0 == 2),
        index is Ok ==> names_counter(token, counter),
        pinned is Ok ==> names_core(token, core),
        chosen is Ok ==> token.scope is NumaPolicy,
        index is Ok || pinned is Ok || chosen is Ok ==> access.time(ticks) < token.expires_at_ns,
        access.time(ticks) < token.expires_at_ns && (forall|v: Result<(), HalError>|
            call_ensures(V::verify_signature, (&access.verifier, &token), v) ==> v is Ok) ==> {
            &&& names_counter(token, counter) && (counter.0 == 0 || counter.0 == 2) ==> index is Ok
            &&& names_core(token, core) ==> pinned is Ok
            &&& token.scope is NumaPolicy ==> chosen is Ok
        },
{
}

/// Direct access is made of the parts that it is given, and tells the time of its
/// timer.
pub proof fn make_access<V: TokenVerifier, C>(
    verifier: V,
    a: (&crate::x86_64::memory::Memory, &crate::x86_64::timer::Timer<C>),
    b: (&crate::arm64::memory::Memory, &crate::arm64::timer::Timer<C>),
    c: (&crate::riscv64::memory::Memory, &crate::riscv64::timer::Timer<C>),
    ra: crate::x86_64::direct::DirectAccess<'_, V, C>,
    rb: crate::arm64::direct::DirectAccess<'_, V, C>,
    rc: crate::riscv64::direct::DirectAccess<'_, V, C>,
    ticks: u64,
    now: (u64, u64, u64),
)
    requires
        call_ensures(crate::x86_64::direct::DirectAccess::<V, C>::new, (verifier, a.0, a.1), ra),
        call_ensures(crate::arm64::direct::DirectAccess::<V, C>::new, (verifier, b.0, b.1), rb),
        call_ensures(crate::riscv64::direct::DirectAccess::<V, C>::new, (verifier, c.0, c.1), rc),
        call_ensures(crate::x86_64::direct::DirectAccess::<V, C>::now_ns, (&ra, ticks), now.0),
        call_ensures(crate::arm64::direct::DirectAccess::<V, C>::now_ns, (&rb, ticks), now.1),
        call_ensures(crate::riscv64::direct::DirectAccess::<V, C>::now_ns, (&rc, ticks), now.2),
    ensures
        ra.verifier == verifier && rb.verifier == verifier && rc.verifier == verifier,
        ra.memory == a.0 && rb.memory == b.0 && rc.memory == c.0,
        ra.timer == a.1 && rb.timer == b.1 && rc.timer == c.1,
        now == (ra.time(ticks), rb.time(ticks), rc.time(ticks)),
{
}

} // verus!
