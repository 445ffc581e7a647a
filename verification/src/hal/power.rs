//! Frequency scaling, temperatures, and the power capability trait.

use vstd::prelude::*;

use crate::hal::error::HalError;

pub use crate::manifest::raw::PowerDomainRaw as PowerDomain;

verus! {

/// A requested operating point.
#[derive(Debug, Clone, Copy, PartialEq, Eq, Structural)]
pub struct DvfsRequest {
    pub target_frequency_khz: u32,
}

/// The operating point that the hardware reports.
#[derive(Debug, Clone, Copy, PartialEq, Eq)]
pub struct DvfsState {
    pub current_frequency_khz: u32,
    pub current_voltage_mv: Option<u32>,
    /// The hardware runs below the last request on its own account.
    pub throttled: bool,
}

/// A temperature in thousandths of a degree Celsius.
#[derive(Debug, Clone, Copy, PartialEq, Eq, PartialOrd, Ord, Structural)]
pub struct MilliCelsius(pub i32);

impl MilliCelsius {
    /// The temperature of `c` degrees.
    pub fn from_celsius(c: i32) -> (r: Self)
        requires
            i32::MIN <= c * 1000 <= i32::MAX,
        ensures
            r.0 == c * 1000,
    {
        MilliCelsius(c * 1000)
    }

    /// The temperature in thousandths of a degree.
    pub fn as_millicelsius(self) -> (r: i32)
        ensures
            r == self.0,
    {
        self.0
    }
}

/// What each architecture's power support must offer.
pub trait PowerThermal {
    /// Every power domain of the machine.
    fn enumerate_power_domains(&self) -> &[PowerDomain];

    /// The operating point of a domain.
    fn read_dvfs_state(&self, domain_id: u32) -> Result<DvfsState, HalError>;

    /// Requests an operating point for a domain.
    fn request_dvfs(&self, domain_id: u32, request: DvfsRequest) -> Result<(), HalError>;

    /// The temperature of a domain.
    fn read_temperature(&self, domain_id: u32) -> Result<MilliCelsius, HalError>;

    /// The domains at or above `threshold`.
    fn domains_above_threshold(
        &self,
        threshold: MilliCelsius,
    ) -> DomainsAboveThresholdIter<'_, Self> where Self: Sized;
}

/// A reading that succeeded at `threshold` or above.
pub open spec fn hot(reading: Result<MilliCelsius, HalError>, threshold: MilliCelsius) -> bool {
    reading matches Ok(t) && t.0 >= threshold.0
}

/// Whether a reading succeeded at `threshold` or above.
pub fn is_hot(reading: Result<MilliCelsius, HalError>, threshold: MilliCelsius) -> (r: bool)
    ensures
        r == hot(reading, threshold),
{
    match reading {
        Ok(t) => t.0 >= threshold.0,
        Err(_) => false,
    }
}

/// Walks the power domains of a controller and yields those that read hot.
pub struct DomainsAboveThresholdIter<'a, T: PowerThermal> {
    pub controller: &'a T,
    pub domains: &'a [PowerDomain],
    pub position: usize,
    pub threshold: MilliCelsius,
}

impl<'a, T: PowerThermal> DomainsAboveThresholdIter<'a, T> {
    /// The position is within the domains.
    pub open spec fn well_formed(self) -> bool {
        self.position <= self.domains@.len()
    }

    /// `reading` is an outcome that the controller's sensor may give for
    /// domain `i`.
    pub open spec fn outcome(self, i: int, reading: Result<MilliCelsius, HalError>) -> bool {
        call_ensures(T::read_temperature, (self.controller, self.domains@[i].domain_id), reading)
    }

    /// Domain `i` has a sensor, and it gave a hot reading.
    pub open spec fn read_hot(self, i: int) -> bool {
        &&& self.domains@[i].has_thermal_sensor
        &&& exists|reading: Result<MilliCelsius, HalError>| #[trigger]
            self.outcome(i, reading) && hot(reading, self.threshold)
    }

    /// Domain `i` has no sensor, or it gave a reading that is not hot.
    pub open spec fn read_cool(self, i: int) -> bool {
        ||| !self.domains@[i].has_thermal_sensor
        ||| exists|reading: Result<MilliCelsius, HalError>| #[trigger]
            self.outcome(i, reading) && !hot(reading, self.threshold)
    }

    /// Starts the walk at the controller's first domain.
    pub fn new(controller: &'a T, threshold: MilliCelsius) -> (r: Self)
        requires
            call_requires(T::enumerate_power_domains, (controller,)),
        ensures
            r.controller == controller,
            call_ensures(T::enumerate_power_domains, (controller,), r.domains),
            r.position == 0,
            r.threshold == threshold,
    {
        DomainsAboveThresholdIter {
            controller,
            domains: controller.enumerate_power_domains(),
            position: 0,
            threshold,
        }
    }

    /// The id of the next domain that reads hot.
    pub fn next(&mut self) -> (r: Option<u32>)
        requires
            old(self).well_formed(),
            forall|id: u32| call_requires(T::read_temperature, (old(self).controller, id)),
        ensures
            final(self).well_formed(),
            final(self).controller == old(self).controller,
            final(self).domains == old(self).domains,
            final(self).threshold == old(self).threshold,
            match r {
                Some(id) => {
                    &&& old(self).position < final(self).position
                    &&& id == old(self).domains@[final(self).position - 1].domain_id
                    &&& old(self).read_hot(final(self).position - 1)
                    &&& forall|j: int|
                        old(self).position <= j < final(self).position - 1 ==> #[trigger] old(
                            self,
                        ).read_cool(j)
                },
                None => {
                    &&& final(self).position == old(self).domains@.len()
                    &&& forall|j: int|
                        old(self).position <= j < old(self).domains@.len() ==> #[trigger] old(
                            self,
                        ).read_cool(j)
                },
            },
    {
        let ghost start = *self;
        while self.position < self.domains.len()
            invariant
                start == *old(self),
                self.well_formed(),
                self.controller == start.controller,
                self.domains == start.domains,
                self.threshold == start.threshold,
                start.position <= self.position,
                forall|id: u32| call_requires(T::read_temperature, (start.controller, id)),
                forall|j: int| start.position <= j < self.position ==> #[trigger] start.read_cool(j),
            decreases self.domains@.len() - self.position,
        {
            let domain: &PowerDomain = &self.domains[self.position];
            let ghost i = self.position as int;
            self.position = self.position + 1;
            if domain.has_thermal_sensor {
                let reading = self.controller.read_temperature(domain.domain_id);
                assert(start.outcome(i, reading));
                if is_hot(reading, self.threshold) {
                    return Some(domain.domain_id);
                }
            }
            assert(start.read_cool(i));
        }
        None
    }

    /// The ids of all remaining domains that read hot, in order.
    pub fn collect(self) -> (ids: Vec<u32>)
        requires
            self.well_formed(),
            forall|id: u32| call_requires(T::read_temperature, (self.controller, id)),
        ensures
            exists|picked: Seq<int>| #[trigger] self.selection(picked, ids@),
    {
        let ghost start = self;
        let mut walk = self;
        let mut ids: Vec<u32> = Vec::new();
        let ghost mut picked: Seq<int> = Seq::empty();
        loop
            invariant
                walk.well_formed(),
                walk.controller == start.controller,
                walk.domains == start.domains,
                walk.threshold == start.threshold,
                start.position <= walk.position,
                forall|id: u32| call_requires(T::read_temperature, (start.controller, id)),
                start.selection_up_to(picked, ids@, walk.position as int),
            ensures
                start.selection(picked, ids@),
            decreases walk.domains@.len() - walk.position,
        {
            let ghost before = walk;
            match walk.next() {
                Some(id) => {
                    proof {
                        let k = walk.position - 1;
                        assert(start.read_hot(k)) by {
                            let reading = choose|reading: Result<MilliCelsius, HalError>| #[trigger]
                                before.outcome(k, reading) && hot(reading, before.threshold);
                            assert(start.outcome(k, reading));
                        }
                        assert forall|j: int| before.position <= j < k implies #[trigger]
                            start.read_cool(j) by {
                            assert(before.read_cool(j));
                            if before.domains@[j].has_thermal_sensor {
                                let reading = choose|reading: Result<MilliCelsius, HalError>|
                                    #[trigger]
                                    before.outcome(j, reading) && !hot(reading, before.threshold);
                                assert(start.outcome(j, reading));
                            }
                        }
                        let earlier = picked;
                        picked = picked.push(k);
                        assert forall|j: int|
                            start.position <= j < walk.position && !picked.contains(
                                j,
                            ) implies #[trigger] start.read_cool(j) by {
                            assert(picked[picked.len() - 1] == k);
                            if earlier.contains(j) {
                                let n = choose|n: int| 0 <= n < earlier.len() && earlier[n] == j;
                                assert(picked[n] == j);
                            }
                        }
                    }
                    ids.push(id);
                },
                None => {
                    proof {
                        assert forall|j: int| before.position <= j < start.domains@.len() implies
                            #[trigger] start.read_cool(j) by {
                            assert(before.read_cool(j));
                            if before.domains@[j].has_thermal_sensor {
                                let reading = choose|reading: Result<MilliCelsius, HalError>|
                                    #[trigger]
                                    before.outcome(j, reading) && !hot(reading, before.threshold);
                                assert(start.outcome(j, reading));
                            }
                        }
                    }
                    break;
                },
            }
        }
        ids
    }

    /// `picked` are the domains below `end` that read hot, and `ids` are their
    /// ids: the picked domains are in order and read hot, every other domain
    /// read cool.
    pub open spec fn selection_up_to(self, picked: Seq<int>, ids: Seq<u32>, end: int) -> bool {
        &&& picked.len() == ids.len()
        &&& forall|n: int| #![trigger picked[n]]
            0 <= n < picked.len() ==> self.position <= picked[n] < end && self.read_hot(picked[n])
                && ids[n] == self.domains@[picked[n]].domain_id
        &&& forall|n: int, m: int| 0 <= n < m < picked.len() ==> picked[n] < picked[m]
        &&& forall|j: int|
            self.position <= j < end && !picked.contains(j) ==> #[trigger] self.read_cool(j)
    }

    /// `picked` and `ids` describe the whole rest of the walk.
    pub open spec fn selection(self, picked: Seq<int>, ids: Seq<u32>) -> bool {
        self.selection_up_to(picked, ids, self.domains@.len() as int)
    }
}

} // verus!
