//! Laws of power domains and temperatures.

use vstd::prelude::*;

use crate::hal::compute::ComputeDevice;
use crate::hal::error::HalError;
use crate::hal::power::{
    hot, DomainsAboveThresholdIter, MilliCelsius, PowerDomain, PowerThermal,
};
use crate::power::{domain_with_id, domains_of};
use crate::x86_64::power::{
    celsius_below_in, ratio_in, temperature_of, throttle_celsius_in, PowerThermalImpl,
    APPROX_BUS_CLOCK_KHZ,
};

verus! {

/// The first domain is the package's, with the asked abilities and no device of
/// its own; each further one is that of the next device, by the device's index,
/// and can neither be scaled nor read. There are as many as fit in sixteen, each
/// with its place as its id.
pub proof fn package_comes_first_then_each_device(
    devices: Seq<ComputeDevice>,
    scales: bool,
    has_sensor: bool,
    i: int,
)
    requires
        0 <= i,
    ensures
        ({
            let domains = domains_of(devices, scales, has_sensor);
            &&& i < domains.len() <==> i < 16 && i < 1 + devices.len()
            &&& i < domains.len() ==> domains[i].domain_id == i
            &&& domains[0].associated_compute_device_index == 0xFFFF_FFFF
            &&& domains[0].supports_dvfs == scales
            &&& domains[0].has_thermal_sensor == has_sensor
            &&& 1 <= i < domains.len() ==> domains[i].associated_compute_device_index == devices[i
                - 1].device_index && !domains[i].supports_dvfs && !domains[i].has_thermal_sensor
        }),
{
}

/// An id finds the first domain that has it, and nothing if none has.
pub proof fn id_finds_the_first_of_its_name(domains: Seq<PowerDomain>, domain_id: u32)
    ensures
        match domain_with_id(domains, domain_id) {
            Some(domain) => exists|i: int|
                0 <= i < domains.len() && #[trigger] domains[i] == domain && domain.domain_id
                    == domain_id && forall|j: int|
                    0 <= j < i ==> (#[trigger] domains[j]).domain_id != domain_id,
            None => forall|j: int|
                0 <= j < domains.len() ==> (#[trigger] domains[j]).domain_id != domain_id,
        },
    decreases domains.len(),
{
    if domains.len() > 0 && domains[0].domain_id != domain_id {
        let rest = domains.skip(1);
        id_finds_the_first_of_its_name(rest, domain_id);
        match domain_with_id(rest, domain_id) {
            Some(domain) => {
                let i = choose|i: int|
                    0 <= i < rest.len() && #[trigger] rest[i] == domain && forall|j: int|
                        0 <= j < i ==> (#[trigger] rest[j]).domain_id != domain_id;
                assert(domains[i + 1] == domain);
                assert forall|j: int| 0 <= j < i + 1 implies (#[trigger] domains[j]).domain_id
                    != domain_id by {
                    if j > 0 {
                        assert(rest[j - 1] == domains[j]);
                    }
                }
            },
            None => {
                assert forall|j: int| 0 <= j < domains.len() implies (
                #[trigger] domains[j]).domain_id != domain_id by {
                    if j > 0 {
                        assert(rest[j - 1] == domains[j]);
                    }
                }
            },
        }
    } else if domains.len() > 0 {
        assert(domains[0] == domain_with_id(domains, domain_id)->0);
    }
}

proof fn lemma_validity_bit(x: u64)
    ensures
        crate::x86_64::power::reading_valid(x) == (x / 0x8000_0000 % 2 == 1),
{
    assert(((x >> 31u64) & 1 == 1) == (x / 0x8000_0000 % 2 == 1)) by (bit_vector);
}

/// A valid reading says how many degrees the package is below the temperature at
/// which it throttles itself: the reading is valid if bit 31 is set, the degrees
/// are in bits 16 to 22, and the throttling temperature in bits 16 to 23 of its own
/// register. An invalid reading is no temperature.
pub proof fn temperature_is_the_distance_to_throttling(temp_target: u64, therm_status: u64)
    ensures
        throttle_celsius_in(temp_target) == temp_target / 0x1_0000 % 0x100,
        celsius_below_in(therm_status) == therm_status / 0x1_0000 % 0x80,
        match temperature_of(throttle_celsius_in(temp_target), therm_status) {
            Ok(t) => therm_status / 0x8000_0000 % 2 == 1 && t.0 == 1000 * (temp_target / 0x1_0000
                % 0x100 - therm_status / 0x1_0000 % 0x80),
            Err(e) => therm_status / 0x8000_0000 % 2 == 0 && e == HalError::ThermalSensorUnavailable,
        },
{
    lemma_validity_bit(therm_status);
}

/// A domain's temperature can be read exactly if there is such a domain, it has a
/// sensor, and the reading is valid; else the error says which of these fails.
pub proof fn reading_needs_a_domain_a_sensor_and_validity(
    power: PowerThermalImpl,
    domain_id: u32,
    therm_status: u64,
)
    requires
        power.well_formed(),
    ensures
        match power.reading(domain_id, therm_status) {
            Ok(t) => {
                &&& domain_with_id(power.domains(), domain_id) matches Some(d)
                    && d.has_thermal_sensor
                &&& therm_status / 0x8000_0000 % 2 == 1
                &&& t.0 == 1000 * (power.tcc_activation_temp_c - therm_status / 0x1_0000 % 0x80)
            },
            Err(e) => if domain_with_id(power.domains(), domain_id) is None {
                e == HalError::InvalidPowerDomain
            } else {
                &&& e == HalError::ThermalSensorUnavailable
                &&& !domain_with_id(power.domains(), domain_id)->0.has_thermal_sensor
                    || therm_status / 0x8000_0000 % 2 == 0
            },
        },
{
    lemma_validity_bit(therm_status);
}

/// An operating point is a number of steps of 100 MHz, in bits 8 to 15.
pub proof fn operating_point_counts_steps(perf_status: u64)
    ensures
        ratio_in(perf_status) * APPROX_BUS_CLOCK_KHZ == perf_status / 0x100 % 0x100 * 100_000,
{
}

/// A reading is hot if it succeeded and is not below the threshold.
pub proof fn hot_is_at_or_above_the_threshold(
    reading: Result<MilliCelsius, HalError>,
    threshold: MilliCelsius,
)
    ensures
        hot(reading, threshold) <==> match reading {
            Ok(t) => threshold.0 <= t.0,
            Err(_) => false,
        },
{
}

/// Where each sensor gives one reading, a walk yields, in order, the ids of exactly
/// the domains that have a sensor reading the threshold or more.
pub proof fn walk_yields_exactly_the_hot_domains<T: PowerThermal>(
    walk: DomainsAboveThresholdIter<'_, T>,
    picked: Seq<int>,
    ids: Seq<u32>,
    readings: Seq<Result<MilliCelsius, HalError>>,
    i: int,
)
    requires
        walk.selection(picked, ids),
        forall|j: int, reading: Result<MilliCelsius, HalError>| #[trigger]
            call_ensures(
                T::read_temperature,
                (walk.controller, walk.domains@[j].domain_id),
                reading,
            ) ==> reading == readings[j],
        walk.position <= i < walk.domains@.len(),
    ensures
        picked.contains(i) <==> walk.domains@[i].has_thermal_sensor && (readings[i] matches Ok(t)
            && t.0 >= walk.threshold.0),
        picked.len() == ids.len(),
        forall|n: int|
            0 <= n < ids.len() ==> #[trigger] ids[n] == walk.domains@[picked[n]].domain_id,
        forall|n: int, m: int| 0 <= n < m < picked.len() ==> picked[n] < picked[m],
{
    if picked.contains(i) {
        let n = choose|n: int| 0 <= n < picked.len() && picked[n] == i;
        assert(walk.read_hot(picked[n]));
    } else {
        assert(walk.read_cool(i));
    }
    assert forall|n: int| 0 <= n < ids.len() implies #[trigger] ids[n]
        == walk.domains@[picked[n]].domain_id by {
        assert(walk.read_hot(picked[n]));
    }
}

} // verus!
