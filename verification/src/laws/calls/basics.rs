//! Calls on small values: numbers in bytes, addresses, lines, errors, saved words and
//! tables of handlers.

use vstd::prelude::*;

use crate::bits::test_bit;
use crate::bytes::{read_u32_be, read_u32_le, read_u64_be, read_u64_le};
use crate::context::{read_words, write_words};
use crate::hal::cpu::{CpuAbstraction, CpuContext, CpuFeatureFlags};
use crate::hal::error::HalError;
use crate::hal::interface::{build_interface, HalInterface};
use crate::hal::interrupt::IrqId;
use crate::hal::memory::{PhysAddr, VirtAddr};
use crate::hal::power::MilliCelsius;
use crate::hal::timer::TimerAbstraction;
use crate::irq_table::IrqTable;
use crate::laws::words::{
    big_endian_bytes_add_up, bits_are_binary_digits, little_endian_bytes_add_up,
    masks_add_their_bits,
};

verus! {

/// A number is read from the bytes at its place: the little-endian one weighs each
/// byte 256 times the one before it, the big-endian one 256 times the one after it.
pub proof fn read_numbers(bytes: &[u8], at: usize, a: u32, b: u64, c: u32, d: u64)
    requires
        at + 8 <= bytes@.len(),
        call_ensures(read_u32_le, (bytes, at), a),
        call_ensures(read_u64_le, (bytes, at), b),
        call_ensures(read_u32_be, (bytes, at), c),
        call_ensures(read_u64_be, (bytes, at), d),
    ensures
        ({
            let s = |i: int| bytes@[at + i];
            &&& a == s(0) + 0x100 * s(1) + 0x1_0000 * s(2) + 0x100_0000 * s(3)
            &&& b == a + 0x1_0000_0000 * (s(4) + 0x100 * s(5) + 0x1_0000 * s(6) + 0x100_0000 * s(7))
            &&& c == 0x100_0000 * s(0) + 0x1_0000 * s(1) + 0x100 * s(2) + s(3)
            &&& d == 0x1_0000_0000 * c + 0x100_0000 * s(4) + 0x1_0000 * s(5) + 0x100 * s(6) + s(7)
        }),
{
    little_endian_bytes_add_up(bytes@, at as int);
    big_endian_bytes_add_up(bytes@, at as int);
}

/// The lowest bit tells odd from even, and each other bit is the bit below it of half
/// the number.
pub proof fn test_bits(x: u64, n: u64, lowest: bool, r: bool, below: bool)
    requires
        0 < n < 64,
        call_ensures(test_bit, (x, 0), lowest),
        call_ensures(test_bit, (x, n), r),
        call_ensures(test_bit, (x / 2, (n - 1) as u64), below),
    ensures
        lowest <==> x % 2 == 1,
        r == below,
{
    bits_are_binary_digits(x);
}

/// Addresses, lines and temperatures give back the number that they were made from.
pub proof fn name_numbers(
    n: usize,
    phys: PhysAddr,
    phys_n: usize,
    virt: VirtAddr,
    virt_n: usize,
    line: u32,
    irq: IrqId,
    irq_n: u32,
    t: MilliCelsius,
    t_n: i32,
)
    requires
        call_ensures(PhysAddr::new, (n,), phys),
        call_ensures(PhysAddr::as_usize, (phys,), phys_n),
        call_ensures(VirtAddr::new, (n,), virt),
        call_ensures(VirtAddr::as_usize, (virt,), virt_n),
        call_ensures(IrqId::new, (line,), irq),
        call_ensures(IrqId::as_u32, (irq,), irq_n),
        call_ensures(MilliCelsius::as_millicelsius, (t,), t_n),
    ensures
        phys_n == n && virt_n == n,
        irq_n == line,
        t_n == t.0,
{
}

/// Each error is worded in its own way.
pub proof fn word_errors(e: HalError, r: &'static str)
    requires
        call_ensures(HalError::message, (&e,), r),
    ensures
        e is UnsupportedPrivilegeLevel ==> r@ == "unsupported CPU privilege level transition"@,
        e is InvalidCoreId ==> r@ == "invalid CPU core id"@,
        e is MemoryMapUnavailable ==> r@ == "firmware memory map unavailable or malformed"@,
        e is TooManyMemoryRegions ==> r@ == "more memory regions than manifest capacity allows"@,
        e is InvalidMemoryRegion ==> r@ == "invalid or overlapping memory region"@,
        e is NoTimerSource ==> r@ == "no hardware timer source detected"@,
        e is TicklessModeUnsupported ==> r@ == "tickless timer mode not supported by hardware"@,
        e is InvalidTimerDeadline ==> r@ == "invalid timer deadline"@,
        e is InvalidIrqId ==> r@ == "invalid IRQ id for detected interrupt controller"@,
        e is IrqAlreadyRegistered ==> r@ == "IRQ line already has a registered handler"@,
        e is InvalidIpiTarget ==> r@ == "invalid inter-processor interrupt target core"@,
        e is ComputeDiscoveryFailed ==> r@ == "heterogeneous compute device discovery failed"@,
        e is TooManyComputeDevices ==> r@ == "more compute devices than manifest capacity allows"@,
        e is InvalidPowerDomain ==> r@ == "invalid power domain id"@,
        e is DvfsUnsupported ==> r@ == "power domain does not support DVFS"@,
        e is ThermalSensorUnavailable ==> r@ == "power domain has no thermal sensor"@,
        e is BootProtocolUnrecognized ==> r@ == "no recognizable boot protocol found"@,
        e is MalformedBootInfo ==> r@ == "malformed boot info structure from bootloader/firmware"@,
        e is InvalidCapabilityToken ==> r@ == "capability token failed hal-direct verification"@,
        e is HardwareFault ==> r@ == "unspecified hardware fault"@,
{
}

/// The words that are written into a saved context are read back from it, each from
/// its own eight bytes, the lowest byte first.
pub proof fn write_and_read_words(
    ctx: &mut CpuContext<160>,
    words: &[u64; 20],
    back: [u64; 20],
    i: int,
)
    requires
        call_ensures(write_words, (ctx, words), ()),
        call_ensures(read_words, (final(ctx),), back),
        0 <= i < 20,
    ensures
        back@[i] == words@[i],
        final(ctx).bytes@[8 * i] == words@[i] % 0x100,
        final(ctx).bytes@[8 * i + 7] == words@[i] / 0x100_0000_0000_0000,
{
    crate::laws::contexts::words_of_a_context_are_eight_bytes(*final(ctx), i);
    little_endian_bytes_add_up(final(ctx).bytes@, 8 * i);
    assert(words@[i] == crate::context::context_word(*final(ctx), i));
    assert(back@[i] == crate::context::context_word(*final(ctx), i));
}

/// A new context is all zeros, and its bytes are those that it gives out.
pub proof fn make_contexts<const N: usize>(
    fresh: CpuContext<N>,
    ctx: CpuContext<N>,
    bytes: &[u8; N],
    i: int,
)
    requires
        call_ensures(CpuContext::<N>::zeroed, (), fresh),
        call_ensures(CpuContext::<N>::as_bytes, (&ctx,), bytes),
        0 <= i < N,
    ensures
        fresh.bytes@[i] == 0,
        *bytes == ctx.bytes,
{
}

/// Adding a feature that is there sets its bit alone, and one that is not there
/// changes no bit.
pub proof fn add_features(flags: &mut CpuFeatureFlags, n: u64, present: bool, k: u64)
    requires
        n < 64,
        k < 64,
        call_ensures(CpuFeatureFlags::add_feature, (flags, n, present), ()),
    ensures
        k == n && present ==> final(flags).has(k),
        k != n || !present ==> final(flags).has(k) == old(flags).has(k),
{
    crate::bits::lemma_set_bit(old(flags).0, n);
    if present {
        assert(final(flags).has(k) == (k == n || old(flags).has(k)));
    }
}

/// Inserting a mask sets its bits and keeps the others.
pub proof fn insert_features(flags: &mut CpuFeatureFlags, mask: u64)
    requires
        call_ensures(CpuFeatureFlags::insert, (flags, mask), ()),
    ensures
        final(flags).0 & mask == mask,
        final(flags).0 & !mask == old(flags).0 & !mask,
{
    masks_add_their_bits(old(flags).0, mask);
}

/// A new table has no handler. A line without one takes one; a line with one keeps
/// it. No other line changes.
pub proof fn keep_handlers<H: Copy, const N: usize>(
    fresh: IrqTable<H, N>,
    table: &mut IrqTable<H, N>,
    line: usize,
    handler: H,
    r: Result<(), HalError>,
    found: Option<H>,
    i: int,
)
    requires
        line < N,
        0 <= i < N,
        call_ensures(IrqTable::<H, N>::new, (), fresh),
        call_ensures(IrqTable::<H, N>::register, (table, line, handler), r),
        call_ensures(IrqTable::<H, N>::handler, (final(table), line), found),
    ensures
        fresh.slots@[i] is None,
        r is Ok <==> old(table).slots@[line as int] is None,
        r matches Err(e) ==> e == HalError::IrqAlreadyRegistered,
        r is Ok ==> found == Some(handler),
        r is Err ==> found == old(table).slots@[line as int],
        i != line ==> final(table).slots@[i] == old(table).slots@[i],
{
    assert(fresh@[i] is None);
}

/// A line whose handler is taken away has none, and no other line changes.
pub proof fn drop_handlers<H: Copy, const N: usize>(
    table: &mut IrqTable<H, N>,
    line: usize,
    found: Option<H>,
    i: int,
)
    requires
        line < N,
        0 <= i < N,
        call_ensures(IrqTable::<H, N>::unregister, (table, line), ()),
        call_ensures(IrqTable::<H, N>::handler, (final(table), line), found),
    ensures
        found is None,
        i != line ==> final(table).slots@[i] == old(table).slots@[i],
{
}

/// The kernel's handle answers what the CPU and the timer behind it answer.
pub proof fn ask_through_the_handle<'a, const N: usize, C: CpuAbstraction<N>, T: TimerAbstraction>(
    cpu: &'a C,
    timer: &'a T,
    hal: HalInterface<'a, N, C, T>,
    cores: usize,
    core: usize,
    features: u64,
    now: u64,
    frequency: u64,
)
    requires
        call_ensures(build_interface::<N, C, T>, (cpu, timer), hal),
        call_ensures(HalInterface::<'a, N, C, T>::core_count, (&hal,), cores),
        call_ensures(HalInterface::<'a, N, C, T>::current_core_id, (&hal,), core),
        call_ensures(HalInterface::<'a, N, C, T>::cpu_feature_flags_bits, (&hal,), features),
        call_ensures(HalInterface::<'a, N, C, T>::now_ns, (&hal,), now),
        call_ensures(HalInterface::<'a, N, C, T>::frequency_hz, (&hal,), frequency),
    ensures
        call_ensures(<C as CpuAbstraction<N>>::core_count, (cpu,), cores),
        call_ensures(<C as CpuAbstraction<N>>::current_core_id, (cpu,), core),
        call_ensures(
            <C as CpuAbstraction<N>>::feature_flags,
            (cpu,),
            CpuFeatureFlags(features),
        ),
        call_ensures(T::now_ns, (timer,), now),
        call_ensures(T::frequency_hz, (timer,), frequency),
{
}

} // verus!
