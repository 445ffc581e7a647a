//! Calls of power and thermal support.

use vstd::prelude::*;

use crate::hal::compute::ComputeDevice;
use crate::hal::error::HalError;
use crate::hal::power::{
    is_hot, DomainsAboveThresholdIter, DvfsRequest, DvfsState, MilliCelsius, PowerDomain,
    PowerThermal,
};
use crate::laws::power::{
    id_finds_the_first_of_its_name, package_comes_first_then_each_device,
    reading_needs_a_domain_a_sensor_and_validity, walk_yields_exactly_the_hot_domains,
};
use crate::power::{domain_with_id, DomainList, PowerThermalImpl as Passive};
use crate::x86_64::power::PowerThermalImpl;

verus! {

/// A machine's domains are its package's and its devices', with the abilities that
/// the machine has; the package throttles at the temperature in bits 16 to 23.
pub proof fn discover_domains(
    devices: &[ComputeDevice],
    temp_target: u64,
    rapl_units: u64,
    power: PowerThermalImpl,
    passive: Passive,
    i: int,
)
    requires
        call_ensures(PowerThermalImpl::new, (devices, temp_target, rapl_units), power),
        call_ensures(Passive::new, (devices,), passive),
        0 <= i,
    ensures
        power.well_formed(),
        power.tcc_activation_temp_c == temp_target / 0x1_0000 % 0x100,
        power.rapl_supported <==> rapl_units != 0,
        i < power.domains().len() <==> i < 16 && i < 1 + devices@.len(),
        power.domains()[0].supports_dvfs <==> rapl_units != 0,
        power.domains()[0].has_thermal_sensor,
        power.domains()[0].domain_id == 0,
        1 <= i < power.domains().len() ==> power.domains()[i].domain_id == i
            && power.domains()[i].associated_compute_device_index == devices@[i - 1].device_index
            && !power.domains()[i].supports_dvfs && !power.domains()[i].has_thermal_sensor,
        i < passive.domains().len() <==> i < 16 && i < 1 + devices@.len(),
        i < passive.domains().len() ==> !passive.domains()[i].supports_dvfs
            && !passive.domains()[i].has_thermal_sensor && passive.domains()[i].domain_id == i,
{
    package_comes_first_then_each_device(devices@, rapl_units != 0, true, i);
    package_comes_first_then_each_device(devices@, false, false, i);
}

/// A temperature is read from a domain with a sensor when the reading is valid.
pub proof fn read_temperature(
    power: &PowerThermalImpl,
    domain_id: u32,
    therm_status: u64,
    r: Result<MilliCelsius, HalError>,
)
    requires
        power.well_formed(),
        call_ensures(PowerThermalImpl::read_temperature, (power, domain_id, therm_status), r),
    ensures
        match r {
            Ok(t) => {
                &&& domain_with_id(power.domains(), domain_id) matches Some(d)
                    && d.has_thermal_sensor
                &&& therm_status / 0x8000_0000 % 2 == 1
                &&& t.0 == 1000 * (power.tcc_activation_temp_c - therm_status / 0x1_0000 % 0x80)
            },
            Err(e) => if domain_with_id(power.domains(), domain_id) is None {
                e == HalError::InvalidPowerDomain
            } else {
                e == HalError::ThermalSensorUnavailable && (!domain_with_id(
                    power.domains(),
                    domain_id,
                )->0.has_thermal_sensor || therm_status / 0x8000_0000 % 2 == 0)
            },
        },
{
    reading_needs_a_domain_a_sensor_and_validity(*power, domain_id, therm_status);
}

/// An operating point is read from a domain that can be scaled: its ratio in steps
/// of 100 MHz, and whether it reads the throttling temperature or more.
pub proof fn read_operating_point(
    power: &PowerThermalImpl,
    domain_id: u32,
    perf_status: u64,
    therm_status: u64,
    request: DvfsRequest,
    r: Result<DvfsState, HalError>,
    accepted: Result<(), HalError>,
    scales: Result<(), HalError>,
    senses: Result<(), HalError>,
)
    requires
        power.well_formed(),
        call_ensures(
            PowerThermalImpl::read_dvfs_state,
            (power, domain_id, perf_status, therm_status),
            r,
        ),
        call_ensures(PowerThermalImpl::request_dvfs, (power, domain_id, request), accepted),
        call_ensures(PowerThermalImpl::check_dvfs, (power, domain_id), scales),
        call_ensures(PowerThermalImpl::check_sensor, (power, domain_id), senses),
    ensures
        r is Ok <==> (domain_with_id(power.domains(), domain_id) matches Some(d)
            && d.supports_dvfs),
        r matches Ok(state) ==> {
            &&& state.current_frequency_khz == perf_status / 0x100 % 0x100 * 100_000
            &&& state.current_voltage_mv is None
            &&& state.throttled <==> domain_with_id(power.domains(), domain_id)->0.has_thermal_sensor
                && therm_status / 0x8000_0000 % 2 == 1 && therm_status / 0x1_0000 % 0x80 == 0
        },
        r matches Err(e) ==> e == if domain_with_id(power.domains(), domain_id) is None {
            HalError::InvalidPowerDomain
        } else {
            HalError::DvfsUnsupported
        },
        accepted is Ok <==> r is Ok,
        scales is Ok <==> r is Ok,
        senses is Ok <==> (domain_with_id(power.domains(), domain_id) matches Some(d)
            && d.has_thermal_sensor),
        accepted matches Err(e) ==> r matches Err(f) && e == f,
        scales matches Err(e) ==> r matches Err(f) && e == f,
        senses matches Err(e) ==> e == if domain_with_id(power.domains(), domain_id) is None {
            HalError::InvalidPowerDomain
        } else {
            HalError::ThermalSensorUnavailable
        },
{
    reading_needs_a_domain_a_sensor_and_validity(*power, domain_id, therm_status);
}

/// Where no domain can be scaled or read, every request for one that exists is
/// refused as unsupported, and any other as naming no domain.
pub proof fn use_passive_domains(
    power: &Passive,
    domain_id: u32,
    request: DvfsRequest,
    state: Result<DvfsState, HalError>,
    set: Result<(), HalError>,
    reading: Result<MilliCelsius, HalError>,
    listed: &[PowerDomain],
)
    requires
        call_ensures(<Passive as PowerThermal>::read_dvfs_state, (power, domain_id), state),
        call_ensures(<Passive as PowerThermal>::request_dvfs, (power, domain_id, request), set),
        call_ensures(<Passive as PowerThermal>::read_temperature, (power, domain_id), reading),
        call_ensures(<Passive as PowerThermal>::enumerate_power_domains, (power,), listed),
    ensures
        listed@ == power.domains(),
        listed@.len() <= 16,
        ({
            let there = domain_with_id(power.domains(), domain_id) is Some;
            &&& state matches Err(e) && e == if there {
                HalError::DvfsUnsupported
            } else {
                HalError::InvalidPowerDomain
            }
            &&& set matches Err(e) && e == if there {
                HalError::DvfsUnsupported
            } else {
                HalError::InvalidPowerDomain
            }
            &&& reading matches Err(e) && e == if there {
                HalError::ThermalSensorUnavailable
            } else {
                HalError::InvalidPowerDomain
            }
        }),
{
}

/// A temperature in degrees is a thousand times as many thousandths, and hot if it
/// is the threshold or more.
pub proof fn compare_temperatures(
    celsius: i32,
    t: MilliCelsius,
    threshold: MilliCelsius,
    warm: bool,
    failed: bool,
    e: HalError,
)
    requires
        i32::MIN <= celsius * 1000 <= i32::MAX,
        call_ensures(MilliCelsius::from_celsius, (celsius,), t),
        call_ensures(is_hot, (Ok(t), threshold), warm),
        call_ensures(is_hot, (Err(e), threshold), failed),
    ensures
        t.0 == celsius * 1000,
        warm <==> celsius * 1000 >= threshold.0,
        !failed,
{
}

/// The domains of a list are handed out in its order, and found by their ids, the first
/// that has the id.
pub proof fn list_domains(
    list: &DomainList,
    listed: &[PowerDomain],
    id: u32,
    r: Option<PowerDomain>,
    p: Passive,
)
    requires
        list.well_formed(),
        call_ensures(DomainList::as_slice, (list,), listed),
        call_ensures(DomainList::find_domain, (list, id), r),
        call_ensures(Passive::with_domains, (*list,), p),
    ensures
        listed@ == list.seq(),
        p.domains() == list.seq(),
        match r {
            Some(domain) => exists|i: int|
                0 <= i < listed@.len() && #[trigger] listed@[i] == domain && domain.domain_id == id
                    && forall|j: int| 0 <= j < i ==> (#[trigger] listed@[j]).domain_id != id,
            None => forall|j: int|
                0 <= j < listed@.len() ==> (#[trigger] listed@[j]).domain_id != id,
        },
{
    id_finds_the_first_of_its_name(list.seq(), id);
}

/// Where each sensor gives one reading, the walk from the first domain on collects, in
/// order, the ids of exactly the domains that have a sensor reading the threshold or
/// more.
pub proof fn collect_hot_domains<T: PowerThermal>(
    controller: &T,
    threshold: MilliCelsius,
    walk: DomainsAboveThresholdIter<'_, T>,
    ids: Vec<u32>,
    readings: Seq<Result<MilliCelsius, HalError>>,
)
    requires
        call_ensures(DomainsAboveThresholdIter::<T>::new, (controller, threshold), walk),
        call_ensures(DomainsAboveThresholdIter::<T>::collect, (walk,), ids),
        forall|j: int, reading: Result<MilliCelsius, HalError>| #[trigger]
            call_ensures(
                T::read_temperature,
                (walk.controller, walk.domains@[j].domain_id),
                reading,
            ) ==> reading == readings[j],
    ensures
        walk.controller == controller && walk.threshold == threshold && walk.position == 0,
        call_ensures(T::enumerate_power_domains, (controller,), walk.domains),
        exists|picked: Seq<int>| #[trigger]
            walk.selection(picked, ids@) && {
                &&& forall|i: int|
                    0 <= i < walk.domains@.len() ==> (#[trigger] picked.contains(i)
                        <==> walk.domains@[i].has_thermal_sensor && (readings[i] matches Ok(t) && t.0
                        >= threshold.0))
                &&& picked.len() == ids@.len()
                &&& forall|n: int|
                    0 <= n < ids@.len() ==> #[trigger] ids@[n]
                        == walk.domains@[picked[n]].domain_id
                &&& forall|n: int, m: int| 0 <= n < m < picked.len() ==> picked[n] < picked[m]
            },
{
    let picked = choose|picked: Seq<int>| #[trigger] walk.selection(picked, ids@);
    assert forall|i: int| 0 <= i < walk.domains@.len() implies (#[trigger] picked.contains(i)
        <==> walk.domains@[i].has_thermal_sensor && (readings[i] matches Ok(t) && t.0
        >= threshold.0)) by {
        walk_yields_exactly_the_hot_domains(walk, picked, ids@, readings, i);
    }
    assert forall|n: int| 0 <= n < ids@.len() implies #[trigger] ids@[n]
        == walk.domains@[picked[n]].domain_id by {
        assert(walk.read_hot(picked[n]));
    }
}

/// Where each sensor gives one reading, the walk stops at the next domain that has a
/// sensor reading the threshold or more, and ends if there is none.
pub proof fn step_to_the_next_hot_domain<T: PowerThermal>(
    walk: &mut DomainsAboveThresholdIter<'_, T>,
    r: Option<u32>,
    readings: Seq<Result<MilliCelsius, HalError>>,
    i: int,
)
    requires
        call_ensures(DomainsAboveThresholdIter::<T>::next, (walk,), r),
        forall|j: int, reading: Result<MilliCelsius, HalError>| #[trigger]
            call_ensures(
                T::read_temperature,
                (old(walk).controller, old(walk).domains@[j].domain_id),
                reading,
            ) ==> reading == readings[j],
        old(walk).position <= i < old(walk).domains@.len(),
    ensures
        ({
            let sees = old(walk).domains@[i].has_thermal_sensor && (readings[i] matches Ok(t) && t.0
                >= old(walk).threshold.0);
            &&& r is None ==> !sees && final(walk).position == old(walk).domains@.len()
            &&& r matches Some(id) ==> {
                &&& i < final(walk).position - 1 ==> !sees
                &&& i == final(walk).position - 1 ==> sees && id == old(walk).domains@[i].domain_id
                &&& old(walk).position < final(walk).position
            }
        }),
        final(walk).domains == old(walk).domains,
        final(walk).threshold == old(walk).threshold,
        final(walk).controller == old(walk).controller,
{
    let start = *old(walk);
    if r is None || i < final(walk).position - 1 {
        assert(start.read_cool(i));
    } else if i == final(walk).position - 1 {
        assert(start.read_hot(i));
    }
}

/// The domains that are discovered are the package's and the devices'; they are handed
/// out as they are, and where none can be read the walk over them starts at the first.
pub proof fn hand_out_domains(
    devices: &[ComputeDevice],
    scales: bool,
    senses: bool,
    list: DomainList,
    power: &PowerThermalImpl,
    listed: &[PowerDomain],
    passive: &Passive,
    threshold: MilliCelsius,
    walk: DomainsAboveThresholdIter<'_, Passive>,
    i: int,
)
    requires
        0 <= i,
        power.well_formed(),
        call_ensures(DomainList::discover, (devices, scales, senses), list),
        call_ensures(PowerThermalImpl::enumerate_power_domains, (power,), listed),
        call_ensures(
            <Passive as PowerThermal>::domains_above_threshold,
            (passive, threshold),
            walk,
        ),
    ensures
        i < list.seq().len() <==> i < 16 && i < 1 + devices@.len(),
        list.seq()[0].supports_dvfs == scales && list.seq()[0].has_thermal_sensor == senses,
        list.seq()[0].associated_compute_device_index == 0xFFFF_FFFF,
        1 <= i < list.seq().len() ==> list.seq()[i].domain_id == i
            && list.seq()[i].associated_compute_device_index == devices@[i - 1].device_index,
        listed@ == power.domains(),
        walk.domains@ == passive.domains() && walk.position == 0 && walk.threshold == threshold,
        walk.controller == passive,
{
    package_comes_first_then_each_device(devices@, scales, senses, i);
}

} // verus!
