//! Immutable disease parameters, and the curves derived from them.
use crate::constants::PPM;
use crate::random_wrapper::RandomWrapper;
use vstd::prelude::*;

verus! {

/// The parameters of one disease. Days count from the start of an infection; rates and
/// shares are probabilities in parts per million.
#[derive(Copy, Clone, Debug, PartialEq, Eq)]
pub struct Disease {
    pub regular_transmission_start_day: u32,
    pub high_transmission_start_day: u32,
    pub last_day: u32,
    pub asymptomatic_last_day: u32,
    pub mild_infected_last_day: u32,
    pub regular_transmission_rate: u32,
    pub high_transmission_rate: u32,
    pub death_rate: u32,
    pub percentage_asymptomatic_population: u32,
    pub percentage_severe_infected_population: u32,
    pub exposed_duration: u32,
    pub pre_symptomatic_duration: u32,
}

/// Transmission rate (parts per million) of a case on effective infection day `day`:
/// the regular rate after the regular start day, the high rate after the high start day,
/// and zero before both and after the last day.
pub open spec fn transmission_rate_on(d: Disease, day: int) -> u32 {
    if d.regular_transmission_start_day < day && day <= d.high_transmission_start_day {
        d.regular_transmission_rate
    } else if d.high_transmission_start_day < day && day <= d.last_day {
        d.high_transmission_rate
    } else {
        0
    }
}

/// A severe case is hospitalized on the effective days of high transmission.
pub open spec fn hospitalized_on(d: Disease, day: int) -> bool {
    d.high_transmission_start_day < day && day <= d.last_day
}

impl Disease {
    /// Every probability lies between 0 and 1.
    pub open spec fn wf(&self) -> bool {
        &&& self.regular_transmission_rate <= PPM
        &&& self.high_transmission_rate <= PPM
        &&& self.death_rate <= PPM
        &&& self.percentage_asymptomatic_population <= PPM
        &&& self.percentage_severe_infected_population <= PPM
    }

    pub fn new(
        regular_transmission_start_day: u32,
        high_transmission_start_day: u32,
        last_day: u32,
        asymptomatic_last_day: u32,
        mild_infected_last_day: u32,
        regular_transmission_rate: u32,
        high_transmission_rate: u32,
        death_rate: u32,
        percentage_asymptomatic_population: u32,
        percentage_severe_infected_population: u32,
        exposed_duration: u32,
        pre_symptomatic_duration: u32,
    ) -> (r: Disease)
        requires
            regular_transmission_rate <= PPM,
            high_transmission_rate <= PPM,
            death_rate <= PPM,
            percentage_asymptomatic_population <= PPM,
            percentage_severe_infected_population <= PPM,
        ensures
            r.wf(),
            r == (Disease {
                regular_transmission_start_day,
                high_transmission_start_day,
                last_day,
                asymptomatic_last_day,
                mild_infected_last_day,
                regular_transmission_rate,
                high_transmission_rate,
                death_rate,
                percentage_asymptomatic_population,
                percentage_severe_infected_population,
                exposed_duration,
                pre_symptomatic_duration,
            }),
    {
        Disease {
            regular_transmission_start_day,
            high_transmission_start_day,
            last_day,
            asymptomatic_last_day,
            mild_infected_last_day,
            regular_transmission_rate,
            high_transmission_rate,
            death_rate,
            percentage_asymptomatic_population,
            percentage_severe_infected_population,
            exposed_duration,
            pre_symptomatic_duration,
        }
    }

    pub fn get_exposed_duration(&self) -> (r: u32)
        ensures
            r == self.exposed_duration,
    {
        self.exposed_duration
    }

    pub fn get_pre_symptomatic_duration(&self) -> (r: u32)
        ensures
            r == self.pre_symptomatic_duration,
    {
        self.pre_symptomatic_duration
    }

    pub fn get_disease_last_day(&self) -> (r: u32)
        ensures
            r == self.last_day,
    {
        self.last_day
    }

    pub fn get_percentage_asymptomatic_population(&self) -> (r: u32)
        ensures
            r == self.percentage_asymptomatic_population,
    {
        self.percentage_asymptomatic_population
    }

    pub fn get_percentage_severe_infected_population(&self) -> (r: u32)
        ensures
            r == self.percentage_severe_infected_population,
    {
        self.percentage_severe_infected_population
    }

    /// Transmission rate on effective infection day `day`; zero outside the infectious days.
    pub fn get_current_transmission_rate(&self, day: i64) -> (r: u32)
        ensures
            r == transmission_rate_on(*self, day as int),
    {
        if (self.regular_transmission_start_day as i64) < day && day <= self.high_transmission_start_day as i64 {
            self.regular_transmission_rate
        } else if (self.high_transmission_start_day as i64) < day && day <= self.last_day as i64 {
            self.high_transmission_rate
        } else {
            0
        }
    }

    /// Whether a severe case on effective infection day `day` is to be hospitalized.
    pub fn is_to_be_hospitalized(&self, day: i64) -> (r: bool)
        ensures
            r == hospitalized_on(*self, day as int),
    {
        (self.high_transmission_start_day as i64) < day && day <= self.last_day as i64
    }

    /// Draws whether a severe case ends in death, with the disease's death rate.
    pub fn is_to_be_deceased(&self, rng: &mut RandomWrapper) -> (r: bool)
        requires
            self.wf(),
        ensures
            self.death_rate == 0 ==> !r,
            self.death_rate == PPM ==> r,
    {
        rng.gen_ratio(self.death_rate, PPM)
    }
}

} // verus!
