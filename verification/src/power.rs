//! The power domains of a machine: one for the CPU package, and one for each
//! compute device.

use vstd::prelude::*;

use crate::hal::compute::ComputeDevice;
use crate::hal::error::HalError;
use crate::hal::power::{
    DomainsAboveThresholdIter, DvfsRequest, DvfsState, MilliCelsius, PowerDomain, PowerThermal,
};
use crate::manifest::raw::MAX_POWER_DOMAINS;

verus! {

/// The id of the CPU package's domain.
pub const CPU_PACKAGE_DOMAIN_ID: u32 = 0;

/// How many domains there are with `devices` compute devices; those beyond the
/// capacity have none.
pub open spec fn domain_count(devices: int) -> int {
    if 1 + devices < MAX_POWER_DOMAINS {
        1 + devices
    } else {
        MAX_POWER_DOMAINS as int
    }
}

/// Domain `i`: the CPU package comes first, then the compute devices in order,
/// whose domains can neither be scaled nor read.
pub open spec fn domain_at(
    devices: Seq<ComputeDevice>,
    cpu_scales: bool,
    cpu_has_sensor: bool,
    i: int,
) -> PowerDomain {
    if i == 0 {
        PowerDomain::of(
            CPU_PACKAGE_DOMAIN_ID,
            PowerDomain::NO_ASSOCIATED_DEVICE,
            cpu_scales,
            cpu_has_sensor,
        )
    } else {
        PowerDomain::of(i as u32, devices[i - 1].device_index, false, false)
    }
}

/// The power domains of a machine with the given compute devices.
pub open spec fn domains_of(
    devices: Seq<ComputeDevice>,
    cpu_scales: bool,
    cpu_has_sensor: bool,
) -> Seq<PowerDomain> {
    Seq::new(
        domain_count(devices.len() as int) as nat,
        |i: int| domain_at(devices, cpu_scales, cpu_has_sensor, i),
    )
}

/// The first domain with the given id.
pub open spec fn domain_with_id(domains: Seq<PowerDomain>, domain_id: u32) -> Option<PowerDomain>
    decreases domains.len(),
{
    if domains.len() == 0 {
        None
    } else if domains[0].domain_id == domain_id {
        Some(domains[0])
    } else {
        domain_with_id(domains.skip(1), domain_id)
    }
}

proof fn lemma_first_with_id(domains: Seq<PowerDomain>, domain_id: u32, i: int)
    requires
        0 <= i <= domains.len(),
        forall|j: int| 0 <= j < i ==> (#[trigger] domains[j]).domain_id != domain_id,
        i < domains.len() ==> domains[i].domain_id == domain_id,
    ensures
        domain_with_id(domains, domain_id) == (if i < domains.len() {
            Some(domains[i])
        } else {
            None
        }),
    decreases domains.len(),
{
    if domains.len() > 0 && i > 0 {
        assert(domains[0].domain_id != domain_id);
        let rest = domains.skip(1);
        assert forall|j: int| 0 <= j < i - 1 implies (#[trigger] rest[j]).domain_id
            != domain_id by {
            assert(rest[j] == domains[j + 1]);
        }
        lemma_first_with_id(rest, domain_id, i - 1);
    }
}

/// The domains of a machine are found by their position, and no other id is
/// found.
pub proof fn domain_ids_are_positions(
    devices: Seq<ComputeDevice>,
    cpu_scales: bool,
    cpu_has_sensor: bool,
    domain_id: u32,
)
    ensures
        domain_with_id(domains_of(devices, cpu_scales, cpu_has_sensor), domain_id) == (if domain_id
            < domain_count(devices.len() as int) {
            Some(domain_at(devices, cpu_scales, cpu_has_sensor, domain_id as int))
        } else {
            None
        }),
{
    let domains = domains_of(devices, cpu_scales, cpu_has_sensor);
    let i = if domain_id < domains.len() {
        domain_id as int
    } else {
        domains.len() as int
    };
    assert forall|j: int| 0 <= j < domains.len() implies (#[trigger] domains[j]).domain_id == j by {
    }
    lemma_first_with_id(domains, domain_id, i);
}

/// Power domains in a fixed array.
#[derive(Clone, Copy)]
pub struct DomainList {
    pub domains: [PowerDomain; MAX_POWER_DOMAINS],
    pub count: usize,
}

impl DomainList {
    /// The count is within the array.
    pub open spec fn well_formed(self) -> bool {
        self.count <= MAX_POWER_DOMAINS
    }

    /// The domains in the list.
    pub open spec fn seq(self) -> Seq<PowerDomain> {
        self.domains@.take(self.count as int)
    }

    /// The domains of a machine with the given compute devices.
    pub fn discover(devices: &[ComputeDevice], cpu_scales: bool, cpu_has_sensor: bool) -> (r: Self)
        ensures
            r.well_formed(),
            r.seq() == domains_of(devices@, cpu_scales, cpu_has_sensor),
    {
        let mut domains: [PowerDomain; MAX_POWER_DOMAINS] = [PowerDomain::zero(); 16];
        domains[0] = PowerDomain::new(
            CPU_PACKAGE_DOMAIN_ID,
            PowerDomain::NO_ASSOCIATED_DEVICE,
            cpu_scales,
            cpu_has_sensor,
        );
        let mut count: usize = 1;
        while count < MAX_POWER_DOMAINS && count - 1 < devices.len()
            invariant
                1 <= count <= MAX_POWER_DOMAINS,
                count <= 1 + devices@.len(),
                forall|i: int|
                    0 <= i < count ==> #[trigger] domains@[i] == domain_at(
                        devices@,
                        cpu_scales,
                        cpu_has_sensor,
                        i,
                    ),
            decreases MAX_POWER_DOMAINS - count,
        {
            domains[count] = PowerDomain::new(
                count as u32,
                devices[count - 1].device_index,
                false,
                false,
            );
            count = count + 1;
        }
        let r = DomainList { domains, count };
        assert(r.seq() =~= domains_of(devices@, cpu_scales, cpu_has_sensor));
        r
    }

    /// The domains in the list.
    pub fn as_slice(&self) -> (r: &[PowerDomain])
        requires
            self.well_formed(),
        ensures
            r@ == self.seq(),
    {
        vstd::slice::slice_subrange(self.domains.as_slice(), 0, self.count)
    }

    /// The first domain with the given id.
    pub fn find_domain(&self, domain_id: u32) -> (r: Option<PowerDomain>)
        requires
            self.well_formed(),
        ensures
            r == domain_with_id(self.seq(), domain_id),
    {
        let mut i: usize = 0;
        while i < self.count
            invariant
                self.well_formed(),
                i <= self.count,
                forall|j: int| 0 <= j < i ==> (#[trigger] self.seq()[j]).domain_id != domain_id,
            decreases self.count - i,
        {
            if self.domains[i].domain_id == domain_id {
                proof {
                    lemma_first_with_id(self.seq(), domain_id, i as int);
                }
                return Some(self.domains[i]);
            }
            i = i + 1;
        }
        proof {
            lemma_first_with_id(self.seq(), domain_id, i as int);
        }
        None
    }
}

/// Domains that can neither be scaled nor read.
pub open spec fn passive(domains: Seq<PowerDomain>) -> bool {
    forall|i: int|
        0 <= i < domains.len() ==> !(#[trigger] domains[i]).supports_dvfs
            && !domains[i].has_thermal_sensor
}

/// The power support of a machine whose domains can neither be scaled nor read.
pub struct PowerThermalImpl {
    list: DomainList,
}

impl PowerThermalImpl {
    #[verifier::type_invariant]
    spec fn inv(self) -> bool {
        self.list.well_formed() && passive(self.list.seq())
    }

    /// The domains.
    pub closed spec fn domains(self) -> Seq<PowerDomain> {
        self.list.seq()
    }

    /// The domains of a machine with the given compute devices.
    pub fn new(devices: &[ComputeDevice]) -> (r: Self)
        ensures
            r.domains() == domains_of(devices@, false, false),
    {
        PowerThermalImpl { list: DomainList::discover(devices, false, false) }
    }

    /// The given domains.
    pub fn with_domains(list: DomainList) -> (r: Self)
        requires
            list.well_formed(),
            passive(list.seq()),
        ensures
            r.domains() == list.seq(),
    {
        PowerThermalImpl { list }
    }
}

impl PowerThermal for PowerThermalImpl {
    fn enumerate_power_domains(&self) -> (r: &[PowerDomain])
        ensures
            r@ == self.domains(),
            r@.len() <= MAX_POWER_DOMAINS,
            passive(r@),
    {
        proof {
            use_type_invariant(self);
        }
        self.list.as_slice()
    }

    fn read_dvfs_state(&self, domain_id: u32) -> (r: Result<DvfsState, HalError>)
        ensures
            r == (if domain_with_id(self.domains(), domain_id) is None {
                Err::<DvfsState, HalError>(HalError::InvalidPowerDomain)
            } else {
                Err::<DvfsState, HalError>(HalError::DvfsUnsupported)
            }),
    {
        proof {
            use_type_invariant(self);
        }
        match self.list.find_domain(domain_id) {
            None => Err(HalError::InvalidPowerDomain),
            Some(_) => Err(HalError::DvfsUnsupported),
        }
    }

    fn request_dvfs(&self, domain_id: u32, request: DvfsRequest) -> (r: Result<(), HalError>)
        ensures
            r == (if domain_with_id(self.domains(), domain_id) is None {
                Err::<(), HalError>(HalError::InvalidPowerDomain)
            } else {
                Err::<(), HalError>(HalError::DvfsUnsupported)
            }),
    {
        proof {
            use_type_invariant(self);
        }
        match self.list.find_domain(domain_id) {
            None => Err(HalError::InvalidPowerDomain),
            Some(_) => Err(HalError::DvfsUnsupported),
        }
    }

    fn read_temperature(&self, domain_id: u32) -> (r: Result<MilliCelsius, HalError>)
        ensures
            r == (if domain_with_id(self.domains(), domain_id) is None {
                Err::<MilliCelsius, HalError>(HalError::InvalidPowerDomain)
            } else {
                Err::<MilliCelsius, HalError>(HalError::ThermalSensorUnavailable)
            }),
    {
        proof {
            use_type_invariant(self);
        }
        match self.list.find_domain(domain_id) {
            None => Err(HalError::InvalidPowerDomain),
            Some(_) => Err(HalError::ThermalSensorUnavailable),
        }
    }

    fn domains_above_threshold(&self, threshold: MilliCelsius) -> (r: DomainsAboveThresholdIter<
        '_,
        Self,
    >)
        ensures
            r.controller == self,
            r.domains@ == self.domains(),
            r.domains@.len() <= MAX_POWER_DOMAINS,
            passive(r.domains@),
            r.position == 0,
            r.threshold == threshold,
    {
        DomainsAboveThresholdIter {
            controller: self,
            domains: self.enumerate_power_domains(),
            position: 0,
            threshold,
        }
    }
}

/// Where no domain has a sensor, a walk over those that read hot yields none.
pub proof fn passive_domains_are_never_hot<T: PowerThermal>(
    walk: DomainsAboveThresholdIter<'_, T>,
    picked: Seq<int>,
    ids: Seq<u32>,
)
    requires
        passive(walk.domains@),
        walk.selection(picked, ids),
    ensures
        ids.len() == 0,
{
    if ids.len() > 0 {
        assert(walk.read_hot(picked[0]));
        assert(walk.position <= picked[0] < walk.domains@.len());
        assert(!walk.domains@[picked[0]].has_thermal_sensor);
    }
}

} // verus!
