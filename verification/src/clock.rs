//! Conversion between counter ticks and nanoseconds.

use vstd::prelude::*;

verus! {

/// Nanoseconds in a second.
pub const NS_PER_SECOND: u64 = 1_000_000_000;

/// The nanoseconds that `ticks` take, rounded down.
pub open spec fn ns_of_ticks(ticks: int, frequency_hz: int) -> int {
    ticks * NS_PER_SECOND / frequency_hz
}

/// The ticks that `ns` nanoseconds take, rounded down.
pub open spec fn ticks_of_ns(ns: int, frequency_hz: int) -> int {
    ns * frequency_hz / (NS_PER_SECOND as int)
}

/// The first tick at which `ns` nanoseconds have passed: the ticks that they
/// take, rounded up.
pub open spec fn tick_at(ns: int, frequency_hz: int) -> int {
    (ns * frequency_hz + NS_PER_SECOND - 1) / (NS_PER_SECOND as int)
}

/// Converts ticks to nanoseconds; the result wraps after 2^64.
pub fn ticks_to_ns(ticks: u64, frequency_hz: u64) -> (r: u64)
    requires
        frequency_hz > 0,
    ensures
        r == ns_of_ticks(ticks as int, frequency_hz as int) as u64,
{
    proof {
        lemma_product_fits(ticks, NS_PER_SECOND);
    }
    (ticks as u128 * NS_PER_SECOND as u128 / frequency_hz as u128) as u64
}

/// Converts nanoseconds to ticks.
pub fn ns_to_ticks(ns: u64, frequency_hz: u64) -> (r: u128)
    ensures
        r == ticks_of_ns(ns as int, frequency_hz as int),
{
    proof {
        lemma_product_fits(ns, frequency_hz);
    }
    ns as u128 * frequency_hz as u128 / NS_PER_SECOND as u128
}

/// Finds the first tick at which `ns` nanoseconds have passed.
pub fn first_tick_at(ns: u64, frequency_hz: u64) -> (r: u128)
    ensures
        r == tick_at(ns as int, frequency_hz as int),
        r * NS_PER_SECOND >= ns * frequency_hz,
        (r - 1) * NS_PER_SECOND < ns * frequency_hz,
{
    proof {
        lemma_product_fits(ns, frequency_hz);
        vstd::arithmetic::div_mod::lemma_fundamental_div_mod(
            ns * frequency_hz + NS_PER_SECOND - 1,
            NS_PER_SECOND as int,
        );
    }
    (ns as u128 * frequency_hz as u128 + (NS_PER_SECOND as u128 - 1)) / NS_PER_SECOND as u128
}

proof fn lemma_product_fits(a: u64, b: u64)
    ensures
        0 <= a as int * b as int <= u128::MAX - NS_PER_SECOND,
{
    assert(0 <= a as int * b as int <= 0xFFFF_FFFF_FFFF_FFFF * 0xFFFF_FFFF_FFFF_FFFF)
        by (nonlinear_arith)
        requires
            0 <= a <= 0xFFFF_FFFF_FFFF_FFFF,
            0 <= b <= 0xFFFF_FFFF_FFFF_FFFF,
    ;
}

/// Time never runs backwards: a counter that has not decreased gives a time
/// that has not decreased.
pub proof fn time_is_monotonic(earlier: int, later: int, frequency_hz: int)
    requires
        0 <= earlier <= later,
        frequency_hz > 0,
    ensures
        ns_of_ticks(earlier, frequency_hz) <= ns_of_ticks(later, frequency_hz),
{
    vstd::arithmetic::mul::lemma_mul_inequality(earlier, later, NS_PER_SECOND as int);
    vstd::arithmetic::div_mod::lemma_div_is_ordered(
        earlier * NS_PER_SECOND,
        later * NS_PER_SECOND,
        frequency_hz,
    );
}

/// A later deadline is never armed at an earlier tick.
pub proof fn deadlines_are_monotonic(earlier: int, later: int, frequency_hz: int)
    requires
        0 <= earlier <= later,
        frequency_hz >= 0,
    ensures
        tick_at(earlier, frequency_hz) <= tick_at(later, frequency_hz),
{
    vstd::arithmetic::mul::lemma_mul_inequality(earlier, later, frequency_hz);
    vstd::arithmetic::div_mod::lemma_div_is_ordered(
        earlier * frequency_hz + NS_PER_SECOND - 1,
        later * frequency_hz + NS_PER_SECOND - 1,
        NS_PER_SECOND as int,
    );
}

/// The tick at which a deadline is armed is never before the deadline, and less
/// than one tick after it: the clock has reached the deadline at that tick, and
/// at no earlier one.
pub proof fn deadline_is_met_within_a_tick(ns: int, frequency_hz: int, earlier: int)
    requires
        0 <= ns,
        0 < frequency_hz,
        earlier < tick_at(ns, frequency_hz),
    ensures
        tick_at(ns, frequency_hz) * NS_PER_SECOND >= ns * frequency_hz,
        (tick_at(ns, frequency_hz) - 1) * NS_PER_SECOND < ns * frequency_hz,
        ns_of_ticks(tick_at(ns, frequency_hz), frequency_hz) >= ns,
        ns_of_ticks(earlier, frequency_hz) < ns,
{
    let n = NS_PER_SECOND as int;
    let f = frequency_hz;
    let t = tick_at(ns, f);
    vstd::arithmetic::div_mod::lemma_fundamental_div_mod(ns * f + n - 1, n);
    vstd::arithmetic::div_mod::lemma_mod_bound(ns * f + n - 1, n);
    assert(ns * f <= t * n < ns * f + n);
    vstd::arithmetic::div_mod::lemma_div_multiples_vanish(ns, f);
    vstd::arithmetic::mul::lemma_mul_is_commutative(ns, f);
    vstd::arithmetic::div_mod::lemma_div_is_ordered(ns * f, t * n, f);
    assert(earlier * n <= (t - 1) * n) by (nonlinear_arith)
        requires
            earlier <= t - 1,
            n > 0,
    ;
    let b = ns_of_ticks(earlier, f);
    vstd::arithmetic::div_mod::lemma_fundamental_div_mod(earlier * n, f);
    vstd::arithmetic::div_mod::lemma_mod_bound(earlier * n, f);
    assert(b < ns) by (nonlinear_arith)
        requires
            f * b < ns * f,
            f > 0,
    ;
}

/// A deadline that the clock has not reached is armed at a tick that the counter
/// has not reached, and never at zero.
pub proof fn future_deadline_is_armed_in_the_future(ns: int, frequency_hz: int, ticks: int)
    requires
        0 <= ticks,
        0 < frequency_hz,
        ns_of_ticks(ticks, frequency_hz) < ns,
    ensures
        tick_at(ns, frequency_hz) > ticks,
        tick_at(ns, frequency_hz) > 0,
{
    vstd::arithmetic::div_mod::lemma_div_pos_is_pos(ticks * NS_PER_SECOND, frequency_hz);
    if tick_at(ns, frequency_hz) <= ticks {
        deadline_is_met_within_a_tick(
            ns,
            frequency_hz,
            tick_at(ns, frequency_hz) - 1,
        );
        vstd::arithmetic::div_mod::lemma_div_pos_is_pos(
            ns * frequency_hz + NS_PER_SECOND - 1,
            NS_PER_SECOND as int,
        );
        time_is_monotonic(tick_at(ns, frequency_hz), ticks, frequency_hz);
    }
}

} // verus!
