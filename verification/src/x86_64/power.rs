//! Power and thermal support through model-specific registers.

use vstd::prelude::*;

use crate::bits::{bit, test_bit};
use crate::hal::compute::ComputeDevice;
use crate::hal::error::HalError;
use crate::hal::power::{DvfsRequest, DvfsState, MilliCelsius, PowerDomain};
use crate::manifest::raw::MAX_POWER_DOMAINS;
use crate::power::{domain_with_id, domains_of, DomainList};

verus! {

/// The register with the current temperature.
pub const IA32_THERM_STATUS: u32 = 0x19C;

/// The register with the current operating point.
pub const IA32_PERF_STATUS: u32 = 0x198;

/// The register with the temperature at which the CPU throttles itself.
pub const MSR_TEMPERATURE_TARGET: u32 = 0x1A2;

/// The register with the units of the power limits; zero without support.
pub const MSR_RAPL_POWER_UNIT: u32 = 0x606;

/// The kHz that one step of the operating point stands for.
pub const APPROX_BUS_CLOCK_KHZ: u32 = 100_000;

/// The temperature in degrees at which the CPU throttles itself: bits 16 to 23.
pub open spec fn throttle_celsius_in(temp_target: u64) -> int {
    temp_target as int / 0x1_0000 % 0x100
}

/// How many degrees the CPU is below that temperature: bits 16 to 22.
pub open spec fn celsius_below_in(therm_status: u64) -> int {
    therm_status as int / 0x1_0000 % 0x80
}

/// The reading is valid: bit 31.
pub open spec fn reading_valid(therm_status: u64) -> bool {
    bit(therm_status, 31)
}

/// The operating point's ratio: bits 8 to 15.
pub open spec fn ratio_in(perf_status: u64) -> int {
    perf_status as int / 0x100 % 0x100
}

/// The temperature that a thermal status stands for.
pub open spec fn temperature_of(throttle_celsius: int, therm_status: u64) -> Result<
    MilliCelsius,
    HalError,
> {
    if reading_valid(therm_status) {
        Ok(MilliCelsius(((throttle_celsius - celsius_below_in(therm_status)) * 1000) as i32))
    } else {
        Err(HalError::ThermalSensorUnavailable)
    }
}

/// The power support of the machine.
pub struct PowerThermalImpl {
    pub list: DomainList,
    /// The temperature in degrees at which the CPU throttles itself.
    pub tcc_activation_temp_c: i32,
    /// Power limits are supported.
    pub rapl_supported: bool,
}

impl PowerThermalImpl {
    /// The list is well formed, and the throttling temperature is one that the
    /// register can give.
    pub open spec fn well_formed(self) -> bool {
        self.list.well_formed() && 0 <= self.tcc_activation_temp_c <= 0xFF
    }

    /// The domains.
    pub open spec fn domains(self) -> Seq<PowerDomain> {
        self.list.seq()
    }

    /// The domains of a machine with the given compute devices, whose CPU
    /// package has a sensor and can be scaled if it has power limits.
    pub fn new(devices: &[ComputeDevice], temp_target: u64, rapl_units: u64) -> (r: Self)
        ensures
            r.well_formed(),
            r.domains() == domains_of(devices@, rapl_units != 0, true),
            r.tcc_activation_temp_c == throttle_celsius_in(temp_target),
            r.rapl_supported == (rapl_units != 0),
    {
        let rapl_supported = rapl_units != 0;
        PowerThermalImpl {
            list: DomainList::discover(devices, rapl_supported, true),
            tcc_activation_temp_c: (temp_target / 0x1_0000 % 0x100) as i32,
            rapl_supported,
        }
    }

    /// Every power domain.
    pub fn enumerate_power_domains(&self) -> (r: &[PowerDomain])
        requires
            self.well_formed(),
        ensures
            r@ == self.domains(),
            r@.len() <= MAX_POWER_DOMAINS,
    {
        self.list.as_slice()
    }

    /// Whether a domain has a sensor that can be read.
    pub fn check_sensor(&self, domain_id: u32) -> (r: Result<(), HalError>)
        requires
            self.well_formed(),
        ensures
            r == match domain_with_id(self.domains(), domain_id) {
                None => Err::<(), HalError>(HalError::InvalidPowerDomain),
                Some(domain) => if domain.has_thermal_sensor {
                    Ok::<(), HalError>(())
                } else {
                    Err::<(), HalError>(HalError::ThermalSensorUnavailable)
                },
            },
    {
        match self.list.find_domain(domain_id) {
            None => Err(HalError::InvalidPowerDomain),
            Some(domain) => if domain.has_thermal_sensor {
                Ok(())
            } else {
                Err(HalError::ThermalSensorUnavailable)
            },
        }
    }

    /// Whether the operating point of a domain can be read and set.
    pub fn check_dvfs(&self, domain_id: u32) -> (r: Result<(), HalError>)
        requires
            self.well_formed(),
        ensures
            r == match domain_with_id(self.domains(), domain_id) {
                None => Err::<(), HalError>(HalError::InvalidPowerDomain),
                Some(domain) => if domain.supports_dvfs {
                    Ok::<(), HalError>(())
                } else {
                    Err::<(), HalError>(HalError::DvfsUnsupported)
                },
            },
    {
        match self.list.find_domain(domain_id) {
            None => Err(HalError::InvalidPowerDomain),
            Some(domain) => if domain.supports_dvfs {
                Ok(())
            } else {
                Err(HalError::DvfsUnsupported)
            },
        }
    }

    /// What reading the temperature of a domain gives.
    pub open spec fn reading(self, domain_id: u32, therm_status: u64) -> Result<
        MilliCelsius,
        HalError,
    > {
        match domain_with_id(self.domains(), domain_id) {
            None => Err(HalError::InvalidPowerDomain),
            Some(domain) => if domain.has_thermal_sensor {
                temperature_of(self.tcc_activation_temp_c as int, therm_status)
            } else {
                Err(HalError::ThermalSensorUnavailable)
            },
        }
    }

    /// The temperature of a domain when the thermal status is `therm_status`.
    pub fn read_temperature(&self, domain_id: u32, therm_status: u64) -> (r: Result<
        MilliCelsius,
        HalError,
    >)
        requires
            self.well_formed(),
        ensures
            r == self.reading(domain_id, therm_status),
    {
        if let Err(e) = self.check_sensor(domain_id) {
            return Err(e);
        }
        if !test_bit(therm_status, 31) {
            return Err(HalError::ThermalSensorUnavailable);
        }
        let below: i32 = (therm_status / 0x1_0000 % 0x80) as i32;
        Ok(MilliCelsius::from_celsius(self.tcc_activation_temp_c - below))
    }

    /// The operating point of a domain when the registers hold `perf_status` and
    /// `therm_status`. It throttles if it reads at least the temperature at
    /// which the CPU does so.
    pub fn read_dvfs_state(&self, domain_id: u32, perf_status: u64, therm_status: u64) -> (r:
        Result<DvfsState, HalError>)
        requires
            self.well_formed(),
        ensures
            r == match domain_with_id(self.domains(), domain_id) {
                None => Err::<DvfsState, HalError>(HalError::InvalidPowerDomain),
                Some(domain) => if !domain.supports_dvfs {
                    Err::<DvfsState, HalError>(HalError::DvfsUnsupported)
                } else {
                    Ok::<DvfsState, HalError>(
                        DvfsState {
                            current_frequency_khz: (ratio_in(perf_status) * APPROX_BUS_CLOCK_KHZ) as u32,
                            current_voltage_mv: None,
                            throttled: (self.reading(domain_id, therm_status) matches Ok(t) && t.0
                                >= self.tcc_activation_temp_c * 1000),
                        },
                    )
                },
            },
    {
        if let Err(e) = self.check_dvfs(domain_id) {
            return Err(e);
        }
        let ratio: u32 = (perf_status / 0x100 % 0x100) as u32;
        let throttled = match self.read_temperature(domain_id, therm_status) {
            Ok(t) => t.as_millicelsius() >= MilliCelsius::from_celsius(
                self.tcc_activation_temp_c,
            ).as_millicelsius(),
            Err(_) => false,
        };
        Ok(
            DvfsState {
                current_frequency_khz: ratio * APPROX_BUS_CLOCK_KHZ,
                current_voltage_mv: None,
                throttled,
            },
        )
    }

    /// Accepts a requested operating point of a domain that can be scaled. Power
    /// limits stand for no frequency, so nothing is to be written.
    pub fn request_dvfs(&self, domain_id: u32, request: DvfsRequest) -> (r: Result<(), HalError>)
        requires
            self.well_formed(),
        ensures
            r == match domain_with_id(self.domains(), domain_id) {
                None => Err::<(), HalError>(HalError::InvalidPowerDomain),
                Some(domain) => if domain.supports_dvfs {
                    Ok::<(), HalError>(())
                } else {
                    Err::<(), HalError>(HalError::DvfsUnsupported)
                },
            },
    {
        self.check_dvfs(domain_id)
    }
}

} // verus!
