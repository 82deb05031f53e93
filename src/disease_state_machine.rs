//! The per-citizen disease automaton: susceptible, exposed, infected (pre-symptomatic,
//! mild or severe), recovered, deceased.
use crate::constants::{
    ASYMPTOMATIC_LAST_DAY, EXPOSED_OFFSET_MAX, EXPOSED_OFFSET_MIN, MILD_INFECTED_LAST_DAY, PPM,
};
use crate::disease::{hospitalized_on, Disease};
use crate::random_wrapper::RandomWrapper;
use vstd::prelude::*;

verus! {

#[derive(Copy, Clone, Debug, PartialEq, Eq, Structural)]
pub enum InfectionSeverity {
    Pre { at_hour: u32 },
    Mild,
    Severe,
}

#[derive(Copy, Clone, Debug, PartialEq, Eq, Structural)]
pub enum State {
    Susceptible,
    Exposed { at_hour: u32 },
    Infected { symptoms: bool, severity: InfectionSeverity },
    Recovered,
    Deceased,
}

#[derive(Copy, Clone, Debug, PartialEq, Eq, Structural)]
pub struct DiseaseStateMachine {
    pub state: State,
    /// Days since the infection began; read only while infected.
    pub infection_day: u32,
}

impl State {
    pub open spec fn spec_is_infected(self) -> bool {
        self is Infected
    }

    pub open spec fn spec_is_symptomatic(self) -> bool {
        match self {
            State::Infected { symptoms: true, severity } => !(severity is Pre),
            _ => false,
        }
    }

    /// An exposure or an infection is under way.
    pub open spec fn is_active(self) -> bool {
        self is Exposed || self is Infected
    }

    pub open spec fn spec_is_severe(self) -> bool {
        self == (State::Infected { symptoms: true, severity: InfectionSeverity::Severe })
    }
}

/// The outcome of an exposure that has run its course at hour `sim_hr`.
pub open spec fn infected_state(sim_hr: u32, s: State) -> bool {
    s == (State::Infected { symptoms: true, severity: InfectionSeverity::Pre { at_hour: sim_hr } })
        || s == (State::Infected { symptoms: false, severity: InfectionSeverity::Mild })
}

/// The effective day of an infection: the infection day shifted by the citizen's immunity.
pub open spec fn effective_day(infection_day: u32, immunity: i32) -> int {
    infection_day + immunity
}

impl DiseaseStateMachine {
    pub fn new() -> (r: DiseaseStateMachine)
        ensures
            r.state == State::Susceptible,
            r.infection_day == 0,
    {
        DiseaseStateMachine { state: State::Susceptible, infection_day: 0 }
    }

    /// The infection day while infected, else 0.
    pub fn get_infection_day(self) -> (r: u32)
        ensures
            r == if self.state is Infected { self.infection_day } else { 0 },
    {
        match self.state {
            State::Infected { .. } => self.infection_day,
            _ => 0,
        }
    }

    pub fn expose(&mut self, current_hour: u32)
        requires
            old(self).state == State::Susceptible,
        ensures
            final(self).state == (State::Exposed { at_hour: current_hour }),
            final(self).infection_day == old(self).infection_day,
    {
        self.state = State::Exposed { at_hour: current_hour };
    }

    /// Ends the exposure once `sim_hr - at_hour` reaches the exposure duration plus a random
    /// offset; the new case is symptomatic (pre-symptomatic since `sim_hr`) with probability
    /// one minus the asymptomatic share, else mild and asymptomatic. Returns whether it ended.
    pub fn infect(&mut self, rng: &mut RandomWrapper, sim_hr: u32, disease: &Disease) -> (r: bool)
        requires
            old(self).state is Exposed,
            disease.wf(),
        ensures
            final(self).infection_day == old(self).infection_day,
            ({
                let elapsed = sim_hr - old(self).state->Exposed_at_hour;
                &&& elapsed >= disease.exposed_duration + EXPOSED_OFFSET_MAX ==> r
                &&& elapsed < disease.exposed_duration + EXPOSED_OFFSET_MIN ==> !r
            }),
            r ==> infected_state(sim_hr, final(self).state),
            r && disease.percentage_asymptomatic_population == 0 ==> final(self).state
                == (State::Infected { symptoms: true, severity: InfectionSeverity::Pre { at_hour: sim_hr } }),
            r && disease.percentage_asymptomatic_population == PPM ==> final(self).state
                == (State::Infected { symptoms: false, severity: InfectionSeverity::Mild }),
            !r ==> final(self).state == old(self).state,
    {
        let at_hour = match self.state {
            State::Exposed { at_hour } => at_hour,
            _ => 0,
        };
        let span: u64 = (EXPOSED_OFFSET_MAX - EXPOSED_OFFSET_MIN + 1) as u64;
        let random_factor: i32 = EXPOSED_OFFSET_MIN + rng.gen_index(span) as i32;
        if sim_hr as i64 - at_hour as i64 >= disease.exposed_duration as i64 + random_factor as i64 {
            let symptoms = rng.gen_ratio(PPM - disease.percentage_asymptomatic_population, PPM);
            let severity = if symptoms {
                InfectionSeverity::Pre { at_hour: sim_hr }
            } else {
                InfectionSeverity::Mild
            };
            self.state = State::Infected { symptoms, severity };
            return true;
        }
        false
    }

    /// Ends the pre-symptomatic phase once `current_hour - at_hour` reaches the
    /// pre-symptomatic duration: severe with the disease's severe share, else mild.
    pub fn change_infection_severity(
        &mut self,
        current_hour: u32,
        rng: &mut RandomWrapper,
        disease: &Disease,
    )
        requires
            old(self).state matches State::Infected { symptoms: true, severity: InfectionSeverity::Pre { .. } },
            disease.wf(),
        ensures
            final(self).infection_day == old(self).infection_day,
            ({
                let at_hour = old(self).state->severity->Pre_at_hour;
                if current_hour - at_hour >= disease.pre_symptomatic_duration {
                    &&& (final(self).state == (State::Infected { symptoms: true, severity: InfectionSeverity::Mild })
                        || final(self).state == (State::Infected { symptoms: true, severity: InfectionSeverity::Severe }))
                    &&& disease.percentage_severe_infected_population == 0 ==> final(self).state
                        == (State::Infected { symptoms: true, severity: InfectionSeverity::Mild })
                    &&& disease.percentage_severe_infected_population == PPM ==> final(self).state
                        == (State::Infected { symptoms: true, severity: InfectionSeverity::Severe })
                } else {
                    final(self).state == old(self).state
                }
            }),
    {
        if let State::Infected { symptoms: true, severity: InfectionSeverity::Pre { at_hour } } = self.state {
            if current_hour as i64 - at_hour as i64 >= disease.pre_symptomatic_duration as i64 {
                let severe = rng.gen_ratio(disease.percentage_severe_infected_population, PPM);
                let severity = if severe {
                    InfectionSeverity::Severe
                } else {
                    InfectionSeverity::Mild
                };
                self.state = State::Infected { symptoms: true, severity };
            }
        }
    }

    /// Whether an infected citizen with the given immunity is to be hospitalized now:
    /// only severe cases, on the disease's hospitalization days.
    pub fn hospitalize(&mut self, disease: &Disease, immunity: i32) -> (r: bool)
        requires
            old(self).state is Infected,
        ensures
            *final(self) == *old(self),
            r == (old(self).state.spec_is_severe() && hospitalized_on(
                *disease,
                effective_day(old(self).infection_day, immunity),
            )),
    {
        match self.state {
            State::Infected { symptoms: true, severity: InfectionSeverity::Severe } => {
                disease.is_to_be_hospitalized(self.infection_day as i64 + immunity as i64)
            },
            _ => false,
        }
    }

    /// Ends an infection on its last day: a severe case dies with the death rate or else
    /// recovers on the disease's last day; a mild symptomatic case and an asymptomatic case
    /// recover on their fixed last days. Returns (deaths, recoveries).
    pub fn decease(&mut self, rng: &mut RandomWrapper, disease: &Disease) -> (r: (i32, i32))
        requires
            old(self).state is Infected,
            disease.wf(),
        ensures
            final(self).infection_day == old(self).infection_day,
            ({
                let day = old(self).infection_day;
                let last = if old(self).state.spec_is_severe() {
                    disease.last_day
                } else if old(self).state == (State::Infected { symptoms: true, severity: InfectionSeverity::Mild }) {
                    MILD_INFECTED_LAST_DAY
                } else {
                    ASYMPTOMATIC_LAST_DAY
                };
                if day == last {
                    &&& r == (1i32, 0i32) ==> final(self).state == State::Deceased
                    &&& r == (0i32, 1i32) ==> final(self).state == State::Recovered
                    &&& (r == (1i32, 0i32) || r == (0i32, 1i32))
                    &&& r == (1i32, 0i32) ==> old(self).state.spec_is_severe()
                    &&& old(self).state.spec_is_severe() && disease.death_rate == 0 ==> r == (0i32, 1i32)
                    &&& old(self).state.spec_is_severe() && disease.death_rate == PPM ==> r == (1i32, 0i32)
                } else {
                    r == (0i32, 0i32) && final(self).state == old(self).state
                }
            }),
    {
        match self.state {
            State::Infected { symptoms: true, severity: InfectionSeverity::Severe } => {
                if self.infection_day == disease.last_day {
                    if disease.is_to_be_deceased(rng) {
                        self.state = State::Deceased;
                        return (1, 0);
                    }
                    self.state = State::Recovered;
                    return (0, 1);
                }
            },
            State::Infected { symptoms: true, severity: InfectionSeverity::Mild } => {
                if self.infection_day == MILD_INFECTED_LAST_DAY {
                    self.state = State::Recovered;
                    return (0, 1);
                }
            },
            _ => {
                if self.infection_day == ASYMPTOMATIC_LAST_DAY {
                    self.state = State::Recovered;
                    return (0, 1);
                }
            },
        }
        (0, 0)
    }

    pub fn is_susceptible(&self) -> (r: bool)
        ensures
            r == (self.state == State::Susceptible),
    {
        matches!(self.state, State::Susceptible)
    }

    pub fn is_exposed(&self) -> (r: bool)
        ensures
            r == (self.state is Exposed),
    {
        matches!(self.state, State::Exposed { .. })
    }

    pub fn is_infected(&self) -> (r: bool)
        ensures
            r == (self.state is Infected),
    {
        matches!(self.state, State::Infected { .. })
    }

    pub fn is_pre_symptomatic(&self) -> (r: bool)
        ensures
            r == (self.state matches State::Infected { severity: InfectionSeverity::Pre { .. }, .. }),
    {
        matches!(self.state, State::Infected { severity: InfectionSeverity::Pre { .. }, .. })
    }

    pub fn is_symptomatic(&self) -> (r: bool)
        ensures
            r == self.state.spec_is_symptomatic(),
    {
        match self.state {
            State::Infected { symptoms: true, severity } => !matches!(severity, InfectionSeverity::Pre { .. }),
            _ => false,
        }
    }

    pub fn is_deceased(&self) -> (r: bool)
        ensures
            r == (self.state == State::Deceased),
    {
        matches!(self.state, State::Deceased)
    }

    /// Advances the infection by one day (saturating at the largest day).
    pub fn increment_infection_day(&mut self)
        ensures
            final(self).state == old(self).state,
            final(self).infection_day == if old(self).infection_day < u32::MAX {
                (old(self).infection_day + 1) as u32
            } else {
                old(self).infection_day
            },
    {
        if self.infection_day < u32::MAX {
            self.infection_day = self.infection_day + 1;
        }
    }

    /// Starts a mild asymptomatic infection on day 1; meant for initialization.
    pub fn set_mild_asymptomatic(&mut self)
        ensures
            final(self).state == (State::Infected { symptoms: false, severity: InfectionSeverity::Mild }),
            final(self).infection_day == 1,
    {
        self.state = State::Infected { symptoms: false, severity: InfectionSeverity::Mild };
        self.infection_day = 1;
    }

    /// Starts a mild symptomatic infection on day 1; meant for initialization.
    pub fn set_mild_symptomatic(&mut self)
        ensures
            final(self).state == (State::Infected { symptoms: true, severity: InfectionSeverity::Mild }),
            final(self).infection_day == 1,
    {
        self.state = State::Infected { symptoms: true, severity: InfectionSeverity::Mild };
        self.infection_day = 1;
    }

    /// Starts a severe infection on day 1; meant for initialization.
    pub fn set_severe_infected(&mut self)
        ensures
            final(self).state == (State::Infected { symptoms: true, severity: InfectionSeverity::Severe }),
            final(self).infection_day == 1,
    {
        self.state = State::Infected { symptoms: true, severity: InfectionSeverity::Severe };
        self.infection_day = 1;
    }

    pub fn is_mild_asymptomatic(&self) -> (r: bool)
        ensures
            r == (self.state == (State::Infected { symptoms: false, severity: InfectionSeverity::Mild })),
    {
        matches!(self.state, State::Infected { symptoms: false, severity: InfectionSeverity::Mild })
    }

    pub fn is_mild_symptomatic(&self) -> (r: bool)
        ensures
            r == (self.state == (State::Infected { symptoms: true, severity: InfectionSeverity::Mild })),
    {
        matches!(self.state, State::Infected { symptoms: true, severity: InfectionSeverity::Mild })
    }

    pub fn is_infected_severe(&self) -> (r: bool)
        ensures
            r == self.state.spec_is_severe(),
    {
        matches!(self.state, State::Infected { symptoms: true, severity: InfectionSeverity::Severe })
    }
}

} // verus!
