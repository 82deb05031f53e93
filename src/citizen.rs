//! A citizen: its attributes, its hour-of-day routine, and how it catches the disease.
use crate::allocation_map::AgentLocationMap;
use crate::constants::{
    HOSPITAL_STAFF_PPM, HOURS_IN_A_DAY, IMMUNITY_MAX, IMMUNITY_MIN, NON_WORKING_TRAVEL_END_TIME,
    NUMBER_OF_HOURS, PPM, QUARANTINE_DAYS, ROUTINE_END_TIME, ROUTINE_START_TIME,
    ROUTINE_TRAVEL_END_TIME, ROUTINE_TRAVEL_START_TIME, ROUTINE_WORK_END_TIME, ROUTINE_WORK_TIME,
    SLEEP_END_TIME, SLEEP_START_TIME,
};
use crate::disease::{transmission_rate_on, Disease};
use crate::disease_state_machine::{effective_day, DiseaseStateMachine, InfectionSeverity, State};
use crate::geography::{adjacent, Area, Point};
use crate::random_wrapper::RandomWrapper;
use crate::travel::{CommutePlan, Commuter, Migrator};
use vstd::prelude::*;

verus! {

/// Reads a population file's boolean column: exactly `True` or `False`.
pub fn bool_from_string(value: &String) -> (r: Option<bool>)
    ensures
        r == if value@ == seq!['T', 'r', 'u', 'e'] {
            Some(true)
        } else if value@ == seq!['F', 'a', 'l', 's', 'e'] {
            Some(false)
        } else {
            None::<bool>
        },
{
    let yes = "True".to_owned();
    let no = "False".to_owned();
    proof {
        reveal_strlit("True");
        reveal_strlit("False");
        assert(yes@ =~= seq!['T', 'r', 'u', 'e']);
        assert(no@ =~= seq!['F', 'a', 'l', 's', 'e']);
    }
    if *value == yes {
        Some(true)
    } else if *value == no {
        Some(false)
    } else {
        None
    }
}

/// One row of a population file.
pub struct PopulationRecord {
    pub ind: u32,
    pub age: String,
    pub working: bool,
    pub pub_transport: bool,
}

#[derive(Copy, Clone, Debug, PartialEq, Eq, Structural)]
pub enum WorkStatus {
    Normal,
    Essential,
    HospitalStaff { work_start_at: u32 },
    NA,
}

#[derive(Clone, Debug)]
pub struct Citizen {
    pub id: u128,
    /// Offset, in days, added to the infection day in every lookup of the disease curves.
    pub immunity: i32,
    pub home_location: Area,
    pub work_location: Area,
    pub vaccinated: bool,
    pub uses_public_transport: bool,
    pub working: bool,
    pub hospitalized: bool,
    pub transport_location: Point,
    pub state_machine: DiseaseStateMachine,
    pub isolated: bool,
    pub current_area: Area,
    pub work_status: WorkStatus,
    pub work_quarantined: bool,
}

/// Relies on `uuid::Uuid::new_v4`: a random identifier, as its 128-bit value.
#[verifier::external_body]
fn random_id() -> u128 {
    uuid::Uuid::new_v4().as_u128()
}

/// An infected, non-hospitalized citizen with a positive transmission rate stands on a
/// cell of `area` adjacent to `cell`.
pub open spec fn has_infectious_neighbor(map: &AgentLocationMap, area: Area, cell: Point, disease: Disease) -> bool {
    exists|k: int|
        0 <= k < map.agents@.len() && adjacent(cell, (#[trigger] map.agents@[k]).0)
            && area.spec_contains(map.agents@[k].0) && map.agents@[k].1.is_infectious(disease)
}

/// Some citizen of the map can spread the disease.
pub open spec fn any_infectious(map: &AgentLocationMap, disease: Disease) -> bool {
    exists|k: int| 0 <= k < map.agents@.len() && (#[trigger] map.agents@[k]).1.is_infectious(disease)
}

/// The disease moved from `before` to `after` along a permitted path in one hour: no
/// change, a change of an exposure or infection already under way, or a susceptible
/// citizen caught the disease while some citizen of the map was infectious.
pub open spec fn legal_step(before: State, after: State, map: &AgentLocationMap, disease: Disease) -> bool {
    ||| after == before
    ||| before.is_active()
    ||| (before == State::Susceptible && after.is_active() && any_infectious(map, disease))
}

/// What a migrator carries of a citizen.
pub open spec fn migrator_of(c: Citizen) -> Migrator {
    Migrator {
        id: c.id,
        immunity: c.immunity,
        vaccinated: c.vaccinated,
        uses_public_transport: c.uses_public_transport,
        state_machine: c.state_machine,
    }
}

/// What a commuter carries of a citizen.
pub open spec fn commuter_of(c: Citizen) -> Commuter {
    Commuter {
        id: c.id,
        immunity: c.immunity,
        home_location: c.home_location,
        work_location: c.work_location,
        vaccinated: c.vaccinated,
        uses_public_transport: c.uses_public_transport,
        state_machine: c.state_machine,
    }
}

/// The citizen a region makes of an arriving migrator, with geometry of its own.
pub open spec fn citizen_from_migrator(
    m: Migrator,
    home_location: Area,
    work_location: Area,
    transport_location: Point,
    current_area: Area,
) -> Citizen {
    Citizen {
        id: m.id,
        immunity: m.immunity,
        home_location,
        work_location,
        vaccinated: m.vaccinated,
        uses_public_transport: m.uses_public_transport,
        working: false,
        hospitalized: false,
        transport_location,
        state_machine: m.state_machine,
        isolated: false,
        current_area,
        work_status: WorkStatus::NA,
        work_quarantined: false,
    }
}

/// The citizen a region makes of an arriving commuter; it keeps its home and work areas.
pub open spec fn citizen_from_commuter(c: Commuter, transport_location: Point, current_area: Area) -> Citizen {
    Citizen {
        id: c.id,
        immunity: c.immunity,
        home_location: c.home_location,
        work_location: c.work_location,
        vaccinated: c.vaccinated,
        uses_public_transport: c.uses_public_transport,
        working: true,
        hospitalized: false,
        transport_location,
        state_machine: c.state_machine,
        isolated: false,
        current_area,
        work_status: WorkStatus::Normal,
        work_quarantined: false,
    }
}

/// A migrator taken in by a region and sent on again carries the same id, immunity,
/// vaccination, transport use and disease state.
pub proof fn lemma_migrator_round_trip(
    m: Migrator,
    home_location: Area,
    work_location: Area,
    transport_location: Point,
    current_area: Area,
)
    ensures
        migrator_of(citizen_from_migrator(m, home_location, work_location, transport_location, current_area)) == m,
{
}

/// A commuter taken in by a region and sent back carries the same id, immunity,
/// vaccination, transport use, disease state, home and work areas.
pub proof fn lemma_commuter_round_trip(c: Commuter, transport_location: Point, current_area: Area)
    ensures
        commuter_of(citizen_from_commuter(c, transport_location, current_area)) == c,
{
}

/// The machine's infection day after the daily advance: one more while infected.
pub open spec fn advanced_day(m: DiseaseStateMachine) -> u32 {
    if m.state is Infected && m.infection_day < u32::MAX {
        (m.infection_day + 1) as u32
    } else {
        m.infection_day
    }
}

/// A severe case, not yet in hospital, on a day of its disease's hospitalization window.
pub open spec fn admission_due(c: Citizen, disease: Disease) -> bool {
    &&& c.state_machine.state.spec_is_severe()
    &&& !c.hospitalized
    &&& crate::disease::hospitalized_on(disease, effective_day(c.state_machine.infection_day, c.immunity))
}

/// An infected, non-hospitalized citizen whose transmission rate is certain stands on a
/// cell of `area` adjacent to `cell`.
pub open spec fn has_certain_neighbor(map: &AgentLocationMap, area: Area, cell: Point, disease: Disease) -> bool {
    exists|k: int|
        0 <= k < map.agents@.len() && adjacent(cell, (#[trigger] map.agents@[k]).0)
            && area.spec_contains(map.agents@[k].0) && map.agents@[k].1.transmits_surely(disease)
}

/// The citizen at `q`, if any, is infected, out of hospital, and transmits for certain.
pub open spec fn certain_at(map: &AgentLocationMap, q: Point, disease: Disease) -> bool {
    exists|k: int| 0 <= k < map.agents@.len() && (#[trigger] map.agents@[k]).0 == q && map.agents@[k].1.transmits_surely(disease)
}

/// Hours since a hospital staff member's shift started (zero before it starts).
pub open spec fn hours_since(simulation_hr: u32, work_start_at: u32) -> int {
    if simulation_hr >= work_start_at { simulation_hr - work_start_at } else { 0 }
}

impl Citizen {
    pub open spec fn transmits_surely(&self, disease: Disease) -> bool {
        &&& self.state_machine.state is Infected
        &&& !self.hospitalized
        &&& transmission_rate_on(disease, self.effective_day()) == PPM
    }

    /// A symptomatic worker standing at work may still head home.
    pub open spec fn may_go_home_sick(&self, target: Area, cell: Point) -> bool {
        &&& (self.work_status == WorkStatus::Normal || self.work_status == WorkStatus::Essential)
        &&& self.work_location.spec_contains(cell)
        &&& target.same(self.home_location)
        &&& (self.state_machine.state == (State::Infected { symptoms: true, severity: InfectionSeverity::Mild })
            || self.state_machine.state.spec_is_severe())
    }

    /// Only the disease state differs.
    pub open spec fn only_disease_changed(&self, before: &Citizen) -> bool {
        *self == (Citizen { state_machine: self.state_machine, ..*before })
    }

    pub open spec fn immunity_in_range(&self) -> bool {
        IMMUNITY_MIN <= self.immunity <= IMMUNITY_MAX
    }

    /// The citizen can spread the disease now.
    pub open spec fn is_infectious(&self, disease: Disease) -> bool {
        &&& self.state_machine.state is Infected
        &&& !self.hospitalized
        &&& transmission_rate_on(disease, self.effective_day()) > 0
    }

    pub open spec fn effective_day(&self) -> int {
        effective_day(
            if self.state_machine.state is Infected { self.state_machine.infection_day } else { 0 },
            self.immunity,
        )
    }

    /// Immunity in range, and every area it may head for has cells.
    pub open spec fn wf(&self) -> bool {
        &&& self.immunity_in_range()
        &&& self.home_location.is_nonempty()
        &&& self.work_location.is_nonempty()
        &&& self.current_area.is_nonempty()
    }

    pub open spec fn spec_can_move(&self) -> bool {
        !(self.state_machine.state.spec_is_symptomatic() || self.hospitalized
            || self.state_machine.state == State::Deceased || self.isolated)
    }

    pub open spec fn spec_is_hospital_staff(&self) -> bool {
        self.work_status is HospitalStaff
    }

    /// What the hour leaves unchanged: identity, immunity, the areas it belongs to.
    pub open spec fn same_person(&self, other: &Citizen) -> bool {
        &&& self.id == other.id
        &&& self.immunity == other.immunity
        &&& self.home_location == other.home_location
        &&& self.work_location == other.work_location
        &&& self.vaccinated == other.vaccinated
        &&& self.isolated == other.isolated
        &&& self.working == other.working
        &&& self.uses_public_transport == other.uses_public_transport
    }

    /// A copy equal to this citizen.
    pub fn copy(&self) -> (r: Citizen)
        ensures
            r == *self,
    {
        Citizen {
            id: self.id,
            immunity: self.immunity,
            home_location: self.home_location.copy(),
            work_location: self.work_location.copy(),
            vaccinated: self.vaccinated,
            uses_public_transport: self.uses_public_transport,
            working: self.working,
            hospitalized: self.hospitalized,
            transport_location: self.transport_location,
            state_machine: self.state_machine,
            isolated: self.isolated,
            current_area: self.current_area.copy(),
            work_status: self.work_status,
            work_quarantined: self.work_quarantined,
        }
    }

    pub fn to_migrator(&self) -> (r: Migrator)
        ensures
            r == migrator_of(*self),
    {
        Migrator {
            id: self.id,
            immunity: self.immunity,
            vaccinated: self.vaccinated,
            uses_public_transport: self.uses_public_transport,
            state_machine: self.state_machine,
        }
    }

    pub fn to_commuter(&self) -> (r: Commuter)
        ensures
            r == commuter_of(*self),
    {
        Commuter {
            id: self.id,
            immunity: self.immunity,
            home_location: self.home_location.copy(),
            work_location: self.work_location.copy(),
            vaccinated: self.vaccinated,
            uses_public_transport: self.uses_public_transport,
            state_machine: self.state_machine,
        }
    }

    pub fn from_migrator(
        migrator: &Migrator,
        home_location: Area,
        work_location: Area,
        transport_location: Point,
        current_area: Area,
    ) -> (r: Citizen)
        ensures
            r == citizen_from_migrator(*migrator, home_location, work_location, transport_location, current_area),
    {
        Citizen {
            id: migrator.id,
            immunity: migrator.immunity,
            home_location,
            work_location,
            vaccinated: migrator.vaccinated,
            uses_public_transport: migrator.uses_public_transport,
            working: false,
            hospitalized: false,
            transport_location,
            state_machine: migrator.state_machine,
            isolated: false,
            current_area,
            work_status: WorkStatus::NA,
            work_quarantined: false,
        }
    }

    pub fn from_commuter(commuter: &Commuter, transport_location: Point, current_area: Area) -> (r: Citizen)
        ensures
            r == citizen_from_commuter(*commuter, transport_location, current_area),
    {
        Citizen {
            id: commuter.id,
            immunity: commuter.immunity,
            home_location: commuter.home_location.copy(),
            work_location: commuter.work_location.copy(),
            vaccinated: commuter.vaccinated,
            uses_public_transport: commuter.uses_public_transport,
            working: true,
            hospitalized: false,
            transport_location,
            state_machine: commuter.state_machine,
            isolated: false,
            current_area,
            work_status: WorkStatus::Normal,
            work_quarantined: false,
        }
    }

    /// Draws an immunity offset uniformly from the immunity range.
    fn generate_disease_randomness_factor(rng: &mut RandomWrapper) -> (r: i32)
        ensures
            IMMUNITY_MIN <= r <= IMMUNITY_MAX,
    {
        let span: u64 = (IMMUNITY_MAX - IMMUNITY_MIN + 1) as u64;
        IMMUNITY_MIN + rng.gen_index(span) as i32
    }

    pub fn new(
        home_location: Area,
        work_location: Area,
        transport_location: Point,
        uses_public_transport: bool,
        working: bool,
        work_status: WorkStatus,
        rng: &mut RandomWrapper,
    ) -> (r: Citizen)
        ensures
            r.immunity_in_range(),
            r.home_location == home_location,
            r.work_location == work_location,
            r.current_area == home_location,
            r.transport_location == transport_location,
            r.uses_public_transport == uses_public_transport,
            r.working == working,
            r.work_status == work_status,
            r.state_machine == (DiseaseStateMachine { state: State::Susceptible, infection_day: 0 }),
            !r.vaccinated && !r.hospitalized && !r.isolated && !r.work_quarantined,
    {
        Citizen::new_with_id(random_id(), home_location, work_location, transport_location, uses_public_transport, working, work_status, rng)
    }

    pub fn new_with_id(
        id: u128,
        home_location: Area,
        work_location: Area,
        transport_location: Point,
        uses_public_transport: bool,
        working: bool,
        work_status: WorkStatus,
        rng: &mut RandomWrapper,
    ) -> (r: Citizen)
        ensures
            r.id == id,
            r.immunity_in_range(),
            r.home_location == home_location,
            r.work_location == work_location,
            r.current_area == home_location,
            r.transport_location == transport_location,
            r.uses_public_transport == uses_public_transport,
            r.working == working,
            r.work_status == work_status,
            r.state_machine == (DiseaseStateMachine { state: State::Susceptible, infection_day: 0 }),
            !r.vaccinated && !r.hospitalized && !r.isolated && !r.work_quarantined,
    {
        let immunity = Citizen::generate_disease_randomness_factor(rng);
        Citizen {
            id,
            immunity,
            current_area: home_location.copy(),
            home_location,
            work_location,
            transport_location,
            vaccinated: false,
            uses_public_transport,
            working,
            hospitalized: false,
            state_machine: DiseaseStateMachine::new(),
            isolated: false,
            work_status,
            work_quarantined: false,
        }
    }

    pub fn from_record(
        record: PopulationRecord,
        home_location: Area,
        work_location: Area,
        transport_location: Point,
        rng: &mut RandomWrapper,
    ) -> (r: Citizen)
        ensures
            r.immunity_in_range(),
            r.home_location == home_location,
            r.work_location == work_location,
            r.current_area == home_location,
            r.transport_location == transport_location,
            r.uses_public_transport == record.pub_transport,
            r.working == record.working,
            record.working ==> (r.work_status == WorkStatus::Normal || r.work_status
                == (WorkStatus::HospitalStaff { work_start_at: ROUTINE_WORK_TIME })),
            !record.working ==> r.work_status == WorkStatus::NA,
            r.state_machine.state == State::Susceptible,
            !r.vaccinated && !r.hospitalized && !r.isolated && !r.work_quarantined,
    {
        let immunity = Citizen::generate_disease_randomness_factor(rng);
        let work_status = Citizen::derive_work_status(record.working, rng);
        Citizen {
            id: random_id(),
            immunity,
            current_area: home_location.copy(),
            home_location,
            work_location,
            transport_location,
            vaccinated: false,
            uses_public_transport: record.pub_transport,
            working: record.working,
            hospitalized: false,
            state_machine: DiseaseStateMachine::new(),
            isolated: false,
            work_status,
            work_quarantined: false,
        }
    }

    /// A working citizen is hospital staff with the hospital staff share, else a normal
    /// worker; a citizen who does not work has no work status.
    fn derive_work_status(is_working: bool, rng: &mut RandomWrapper) -> (r: WorkStatus)
        ensures
            is_working ==> (r == WorkStatus::Normal || r == (WorkStatus::HospitalStaff { work_start_at: ROUTINE_WORK_TIME })),
            !is_working ==> r == WorkStatus::NA,
    {
        if is_working {
            if rng.gen_ratio(HOSPITAL_STAFF_PPM, PPM) {
                return WorkStatus::HospitalStaff { work_start_at: ROUTINE_WORK_TIME };
            }
            return WorkStatus::Normal;
        }
        WorkStatus::NA
    }

    /// The transmission rate (parts per million) of this citizen's infection today.
    pub fn get_infection_transmission_rate(&self, disease: &Disease) -> (r: u32)
        ensures
            r == transmission_rate_on(*disease, self.effective_day()),
    {
        disease.get_current_transmission_rate(self.state_machine.get_infection_day() as i64 + self.immunity as i64)
    }

    pub fn set_vaccination(&mut self, vaccinated: bool)
        ensures
            *final(self) == (Citizen { vaccinated, ..*old(self) }),
    {
        self.vaccinated = vaccinated;
    }

    /// Symptomatic, hospitalized, deceased and isolated citizens stay where they are.
    pub fn can_move(&self) -> (r: bool)
        ensures
            r == self.spec_can_move(),
    {
        if self.state_machine.is_symptomatic() || self.hospitalized || self.state_machine.is_deceased() || self.isolated {
            return false;
        }
        true
    }

    pub fn set_isolation(&mut self, state: bool)
        ensures
            *final(self) == (Citizen { isolated: state, ..*old(self) }),
    {
        self.isolated = state;
    }

    pub fn is_isolated(&self) -> (r: bool)
        ensures
            r == self.isolated,
    {
        self.isolated
    }

    pub fn is_working(&self) -> (r: bool)
        ensures
            r == self.working,
    {
        self.working
    }

    pub fn get_immunity(&self) -> (r: i32)
        ensures
            r == self.immunity,
    {
        self.immunity
    }

    pub fn is_vaccinated(&self) -> (r: bool)
        ensures
            r == self.vaccinated,
    {
        self.vaccinated
    }

    pub fn is_hospitalized(&self) -> (r: bool)
        ensures
            r == self.hospitalized,
    {
        self.hospitalized
    }

    pub fn is_exposed(&self) -> (r: bool)
        ensures
            r == (self.state_machine.state is Exposed),
    {
        self.state_machine.is_exposed()
    }

    pub fn is_mild_asymptomatic(&self) -> (r: bool)
        ensures
            r == (self.state_machine.state == (State::Infected { symptoms: false, severity: InfectionSeverity::Mild })),
    {
        self.state_machine.is_mild_asymptomatic()
    }

    pub fn is_mild_symptomatic(&self) -> (r: bool)
        ensures
            r == (self.state_machine.state == (State::Infected { symptoms: true, severity: InfectionSeverity::Mild })),
    {
        self.state_machine.is_mild_symptomatic()
    }

    pub fn is_infected_severe(&self) -> (r: bool)
        ensures
            r == self.state_machine.state.spec_is_severe(),
    {
        self.state_machine.is_infected_severe()
    }

    pub fn is_hospital_staff(&self) -> (r: bool)
        ensures
            r == self.spec_is_hospital_staff(),
    {
        matches!(self.work_status, WorkStatus::HospitalStaff { .. })
    }

    pub fn is_essential_worker(&self) -> (r: bool)
        ensures
            r == (self.work_status == WorkStatus::Essential),
    {
        matches!(self.work_status, WorkStatus::Essential)
    }

    /// A normal worker becomes an essential worker with the given share (parts per million).
    pub fn assign_essential_worker(&mut self, essential_workers_ppm: u32, rng: &mut RandomWrapper)
        requires
            essential_workers_ppm <= PPM,
        ensures
            old(self).work_status != WorkStatus::Normal ==> *final(self) == *old(self),
            old(self).work_status == WorkStatus::Normal ==> {
                ||| *final(self) == *old(self)
                ||| *final(self) == (Citizen { work_status: WorkStatus::Essential, ..*old(self) })
            },
            old(self).work_status == WorkStatus::Normal && essential_workers_ppm == 0 ==> *final(self) == *old(self),
            old(self).work_status == WorkStatus::Normal && essential_workers_ppm == PPM ==> final(self).work_status
                == WorkStatus::Essential,
    {
        if matches!(self.work_status, WorkStatus::Normal) {
            if rng.gen_ratio(essential_workers_ppm, PPM) {
                self.work_status = WorkStatus::Essential;
            }
        }
    }

    /// Carries out the citizen's routine for `simulation_hour` against the hour's snapshot
    /// `map`, and returns the cell it ends the hour on.
    pub fn perform_operation(
        &mut self,
        cell: Point,
        simulation_hour: u32,
        map: &AgentLocationMap,
        rng: &mut RandomWrapper,
        disease: &Disease,
    ) -> (r: Point)
        requires
            map.wf(),
            disease.wf(),
        ensures
            map.lands(cell, r),
            final(self).same_person(old(self)),
            legal_step(old(self).state_machine.state, final(self).state_machine.state, map, *disease),
            old(self).isolated ==> (r == cell || old(self).home_location.spec_contains(r) || (
            map.grid.hospital_area.spec_contains(r) && old(self).state_machine.state.spec_is_severe()
                && final(self).hospitalized)),
            final(self).hospitalized && !old(self).hospitalized ==> map.grid.hospital_area.spec_contains(r),
            ({
                let h = simulation_hour % NUMBER_OF_HOURS;
                &&& h == ROUTINE_START_TIME ==> {
                    &&& final(self).state_machine == (DiseaseStateMachine {
                        infection_day: advanced_day(old(self).state_machine),
                        ..old(self).state_machine
                    })
                    &&& final(self).current_area == old(self).current_area
                    &&& final(self).hospitalized != old(self).hospitalized ==> final(self).hospitalized
                        && admission_due(Citizen { state_machine: final(self).state_machine, ..*old(self) }, *disease)
                        && map.grid.hospital_area.spec_contains(r) && map.spec_free(r)
                    &&& !final(self).hospitalized ==> r == cell
                }
                &&& SLEEP_START_TIME <= h <= SLEEP_END_TIME ==> {
                    &&& r == cell
                    &&& final(self).state_machine == old(self).state_machine
                    &&& final(self).hospitalized == old(self).hospitalized
                    &&& !old(self).spec_is_hospital_staff() ==> final(self).current_area == old(self).home_location
                    &&& old(self).spec_is_hospital_staff() ==> final(self).current_area == old(self).current_area
                }
                &&& h == ROUTINE_END_TIME ==> {
                    &&& final(self).state_machine.state == old(self).state_machine.state || (old(self).state_machine.state is Infected && (
                    final(self).state_machine.state == State::Recovered || final(self).state_machine.state == State::Deceased))
                    &&& final(self).state_machine.state == State::Deceased && old(self).state_machine.state != State::Deceased
                        ==> old(self).state_machine.state.spec_is_severe()
                    &&& r == cell || old(self).home_location.spec_contains(r)
                }
            }),
    {
        self.routine(cell, simulation_hour, map, rng, disease)
    }

    fn routine(
        &mut self,
        cell: Point,
        simulation_hour: u32,
        map: &AgentLocationMap,
        rng: &mut RandomWrapper,
        disease: &Disease,
    ) -> (r: Point)
        requires
            map.wf(),
            disease.wf(),
        ensures
            map.lands(cell, r),
            final(self).same_person(old(self)),
            legal_step(old(self).state_machine.state, final(self).state_machine.state, map, *disease),
            old(self).isolated ==> (r == cell || old(self).home_location.spec_contains(r) || (
            map.grid.hospital_area.spec_contains(r) && old(self).state_machine.state.spec_is_severe()
                && final(self).hospitalized)),
            final(self).hospitalized && !old(self).hospitalized ==> map.grid.hospital_area.spec_contains(r),
            ({
                let h = simulation_hour % NUMBER_OF_HOURS;
                &&& h == ROUTINE_START_TIME ==> {
                    &&& final(self).state_machine == (DiseaseStateMachine {
                        infection_day: advanced_day(old(self).state_machine),
                        ..old(self).state_machine
                    })
                    &&& final(self).current_area == old(self).current_area
                    &&& final(self).hospitalized != old(self).hospitalized ==> final(self).hospitalized
                        && admission_due(Citizen { state_machine: final(self).state_machine, ..*old(self) }, *disease)
                        && map.grid.hospital_area.spec_contains(r) && map.spec_free(r)
                    &&& !final(self).hospitalized ==> r == cell
                }
                &&& SLEEP_START_TIME <= h <= SLEEP_END_TIME ==> {
                    &&& r == cell
                    &&& final(self).state_machine == old(self).state_machine
                    &&& final(self).hospitalized == old(self).hospitalized
                    &&& !old(self).spec_is_hospital_staff() ==> final(self).current_area == old(self).home_location
                    &&& old(self).spec_is_hospital_staff() ==> final(self).current_area == old(self).current_area
                }
                &&& h == ROUTINE_END_TIME ==> {
                    &&& final(self).state_machine.state == old(self).state_machine.state || (old(self).state_machine.state is Infected && (
                    final(self).state_machine.state == State::Recovered || final(self).state_machine.state == State::Deceased))
                    &&& final(self).state_machine.state == State::Deceased && old(self).state_machine.state != State::Deceased
                        ==> old(self).state_machine.state.spec_is_severe()
                    &&& r == cell || old(self).home_location.spec_contains(r)
                }
            }),
    {
        let current_hour = simulation_hour % NUMBER_OF_HOURS;
        if current_hour == ROUTINE_START_TIME {
            self.update_infection_day();
            self.hospitalize(cell, map, disease)
        } else if SLEEP_START_TIME <= current_hour && current_hour <= SLEEP_END_TIME {
            if !self.is_hospital_staff() {
                self.current_area = self.home_location.copy();
            }
            cell
        } else if current_hour == ROUTINE_END_TIME {
            self.deceased(map, cell, rng, disease)
        } else {
            self.perform_movements(cell, current_hour, simulation_hour, map, rng, disease)
        }
    }

    fn perform_movements(
        &mut self,
        cell: Point,
        hour_of_day: u32,
        simulation_hr: u32,
        map: &AgentLocationMap,
        rng: &mut RandomWrapper,
        disease: &Disease,
    ) -> (r: Point)
        requires
            map.wf(),
            disease.wf(),
        ensures
            map.lands(cell, r),
            final(self).same_person(old(self)),
            legal_step(old(self).state_machine.state, final(self).state_machine.state, map, *disease),
            final(self).hospitalized == old(self).hospitalized,
            old(self).isolated ==> (r == cell || old(self).home_location.spec_contains(r)),
            (old(self).work_status == WorkStatus::Normal || old(self).work_status == WorkStatus::Essential)
                && hour_of_day == ROUTINE_WORK_TIME ==> final(self).current_area == old(self).work_location && (
            old(self).working ==> r == cell || old(self).work_location.spec_contains(r)),
            (old(self).work_status == WorkStatus::Normal || old(self).work_status == WorkStatus::Essential)
                && hour_of_day == ROUTINE_WORK_END_TIME ==> final(self).current_area == old(self).home_location && (
            old(self).working ==> r == cell || old(self).home_location.spec_contains(r)),
            old(self).work_status is HospitalStaff && hours_since(simulation_hr, old(self).work_status->work_start_at)
                == HOURS_IN_A_DAY * QUARANTINE_DAYS ==> final(self).work_quarantined && r == cell
                && final(self).state_machine == old(self).state_machine,
            old(self).work_status is HospitalStaff && hour_of_day == ROUTINE_WORK_END_TIME && hours_since(
                simulation_hr,
                old(self).work_status->work_start_at,
            ) != 2 * HOURS_IN_A_DAY * QUARANTINE_DAYS ==> final(self).work_quarantined,
    {
        let mut new_cell = cell;
        match self.work_status {
            WorkStatus::Normal | WorkStatus::Essential => {
                if hour_of_day == ROUTINE_TRAVEL_START_TIME || hour_of_day == ROUTINE_TRAVEL_END_TIME {
                    if self.uses_public_transport {
                        new_cell = self.goto_area(&map.grid.transport_area, map, cell, rng);
                        self.current_area = map.grid.transport_area.copy();
                    } else {
                        new_cell = self.move_agent_from(map, cell, rng);
                    }
                } else if hour_of_day == ROUTINE_WORK_TIME {
                    new_cell = self.goto_area(&self.work_location, map, cell, rng);
                    self.current_area = self.work_location.copy();
                } else if hour_of_day == ROUTINE_WORK_END_TIME {
                    new_cell = self.goto_area(&self.home_location, map, cell, rng);
                    self.current_area = self.home_location.copy();
                } else {
                    new_cell = self.move_agent_from(map, cell, rng);
                }
                self.update_infection_dynamics(new_cell, map, simulation_hr, rng, disease);
            },
            WorkStatus::HospitalStaff { work_start_at } => {
                let shift: u32 = HOURS_IN_A_DAY * QUARANTINE_DAYS;
                let since_start: u32 = if simulation_hr >= work_start_at {
                    simulation_hr - work_start_at
                } else {
                    0
                };
                if since_start == shift {
                    self.work_quarantined = true;
                    return new_cell;
                }
                if since_start == shift * 2 {
                    new_cell = self.goto_area(&self.home_location, map, cell, rng);
                    self.current_area = self.home_location.copy();
                    let next_start: u32 = if simulation_hr <= u32::MAX - shift {
                        simulation_hr + shift
                    } else {
                        u32::MAX
                    };
                    self.work_status = WorkStatus::HospitalStaff { work_start_at: next_start };
                    return new_cell;
                }
                if hour_of_day == ROUTINE_WORK_TIME {
                    if !self.current_area.same_area(&map.grid.hospital_area) && work_start_at <= simulation_hr {
                        new_cell = self.goto_area(&map.grid.hospital_area, map, cell, rng);
                        self.current_area = map.grid.hospital_area.copy();
                        self.work_status = WorkStatus::HospitalStaff { work_start_at: simulation_hr };
                    }
                    self.work_quarantined = false;
                } else if hour_of_day == ROUTINE_WORK_END_TIME {
                    self.work_quarantined = true;
                } else {
                    if !self.work_quarantined && self.can_move() {
                        new_cell = self.move_agent_from(map, cell, rng);
                    }
                }
                self.update_infection_dynamics(new_cell, map, simulation_hr, rng, disease);
            },
            WorkStatus::NA => {
                if hour_of_day == ROUTINE_WORK_TIME {
                    new_cell = self.goto_area(&map.grid.housing_area, map, cell, rng);
                    self.current_area = map.grid.housing_area.copy();
                } else if hour_of_day == NON_WORKING_TRAVEL_END_TIME {
                    new_cell = self.goto_area(&self.home_location, map, cell, rng);
                    self.current_area = self.home_location.copy();
                } else {
                    new_cell = self.move_agent_from(map, cell, rng);
                }
                self.update_infection_dynamics(new_cell, map, simulation_hr, rng, disease);
            },
        }
        new_cell
    }

    fn update_infection_dynamics(
        &mut self,
        cell: Point,
        map: &AgentLocationMap,
        sim_hr: u32,
        rng: &mut RandomWrapper,
        disease: &Disease,
    )
        requires
            map.wf(),
            disease.wf(),
        ensures
            final(self).only_disease_changed(old(self)),
            final(self).same_person(old(self)),
            legal_step(old(self).state_machine.state, final(self).state_machine.state, map, *disease),
    {
        let ghost before = *self;
        self.update_exposure(cell, map, sim_hr, rng, disease);
        proof {
            if has_infectious_neighbor(map, before.current_area, cell, *disease) {
                let k = choose|k: int|
                    0 <= k < map.agents@.len() && adjacent(cell, (#[trigger] map.agents@[k]).0)
                        && before.current_area.spec_contains(map.agents@[k].0)
                        && map.agents@[k].1.is_infectious(*disease);
                assert(map.agents@[k].1.is_infectious(*disease));
            }
        }
        self.update_infection(sim_hr, rng, disease);
        self.update_infection_severity(sim_hr, rng, disease);
    }

    fn update_infection_day(&mut self)
        ensures
            *final(self) == (Citizen {
                state_machine: DiseaseStateMachine { infection_day: advanced_day(old(self).state_machine), ..old(self).state_machine },
                ..*old(self)
            }),
    {
        if self.state_machine.is_infected() {
            self.state_machine.increment_infection_day();
        }
    }

    /// A severe case due for hospitalization moves to the first free hospital cell, if any.
    fn hospitalize(&mut self, cell: Point, map: &AgentLocationMap, disease: &Disease) -> (r: Point)
        requires
            map.wf(),
        ensures
            map.lands(cell, r),
            *final(self) == (Citizen { hospitalized: final(self).hospitalized, ..*old(self) }),
            final(self).hospitalized != old(self).hospitalized ==> final(self).hospitalized && admission_due(*old(self), *disease)
                && map.grid.hospital_area.spec_contains(r) && map.spec_free(r),
            !final(self).hospitalized ==> r == cell,
            old(self).hospitalized ==> r == cell,
            admission_due(*old(self), *disease) && (exists|p: Point| map.grid.hospital_area.spec_contains(p) && map.spec_free(p))
                ==> final(self).hospitalized,
    {
        let mut new_cell = cell;
        if self.state_machine.is_infected() && !self.hospitalized {
            let immunity = self.immunity;
            if self.state_machine.hospitalize(disease, immunity) {
                let (admitted, p) = map.goto_hospital(cell);
                new_cell = p;
                if admitted {
                    self.hospitalized = true;
                }
            }
        }
        new_cell
    }

    fn update_infection_severity(&mut self, sim_hr: u32, rng: &mut RandomWrapper, disease: &Disease)
        requires
            disease.wf(),
        ensures
            final(self).only_disease_changed(old(self)),
            final(self).state_machine.state == old(self).state_machine.state || old(self).state_machine.state.is_active(),
            old(self).state_machine.state.is_active() ==> final(self).state_machine.state.is_active(),
    {
        if let State::Infected { symptoms: true, severity: InfectionSeverity::Pre { .. } } = self.state_machine.state {
            self.state_machine.change_infection_severity(sim_hr, rng, disease);
        }
    }

    fn update_infection(&mut self, sim_hr: u32, rng: &mut RandomWrapper, disease: &Disease)
        requires
            disease.wf(),
        ensures
            final(self).only_disease_changed(old(self)),
            final(self).state_machine.state == old(self).state_machine.state || old(self).state_machine.state.is_active(),
            old(self).state_machine.state.is_active() ==> final(self).state_machine.state.is_active(),
    {
        if self.state_machine.is_exposed() {
            self.state_machine.infect(rng, sim_hr, disease);
        }
    }

    /// A susceptible citizen who is neither quarantined at work nor vaccinated looks at the
    /// cells around `cell` in its current area; for each infected, non-hospitalized
    /// neighbor in turn it is exposed with that neighbor's transmission rate, and stops at
    /// the first exposure.
    pub fn update_exposure(
        &mut self,
        cell: Point,
        map: &AgentLocationMap,
        sim_hr: u32,
        rng: &mut RandomWrapper,
        disease: &Disease,
    )
        requires
            map.wf(),
            disease.wf(),
        ensures
            old(self).state_machine.state == State::Susceptible && !old(self).work_quarantined && !old(self).vaccinated
                && has_certain_neighbor(map, old(self).current_area, cell, *disease) ==> final(self).state_machine.state
                == (State::Exposed { at_hour: sim_hr }),
            ({
                ||| *final(self) == *old(self)
                ||| {
                    &&& old(self).state_machine.state == State::Susceptible
                    &&& !old(self).work_quarantined
                    &&& !old(self).vaccinated
                    &&& has_infectious_neighbor(map, old(self).current_area, cell, *disease)
                    &&& *final(self) == (Citizen {
                        state_machine: DiseaseStateMachine {
                            state: State::Exposed { at_hour: sim_hr },
                            ..old(self).state_machine
                        },
                        ..*old(self)
                    })
                }
            }),
    {
        if self.state_machine.is_susceptible() && !self.work_quarantined && !self.vaccinated {
            let neighbours = self.current_area.get_neighbors_of(cell);
            let mut k: usize = 0;
            while k < neighbours.len()
                invariant
                    *self == *old(self),
                    disease.wf(),
                    k <= neighbours@.len(),
                    self.state_machine.state == State::Susceptible,
                    !self.work_quarantined,
                    !self.vaccinated,
                    forall|q: Point| #[trigger] neighbours@.contains(q) <==> (adjacent(cell, q) && self.current_area.spec_contains(q)),
                    map.wf(),
                    forall|j: int| 0 <= j < k ==> !certain_at(map, #[trigger] neighbours@[j], *disease),
                decreases neighbours@.len() - k,
            {
                let p = neighbours[k];
                proof {
                    assert(neighbours@[k as int] == p);
                }
                if map.grid.is_point_in_grid(&p) {
                    if let Some(agent) = map.get_agent_for(&p) {
                        let ghost w0 = choose|w: int|
                            0 <= w < map.agents@.len() && (#[trigger] map.agents@[w]).0 == p && map.agents@[w].1 == *agent;
                        proof {
                            assert forall|w: int| 0 <= w < map.agents@.len() && (#[trigger] map.agents@[w]).0 == p implies map.agents@[w].1
                                == *agent by {
                                if w != w0 {
                                    assert(map.agents@[w].0 != map.agents@[w0].0);
                                }
                            }
                        }
                        if agent.state_machine.is_infected() && !agent.hospitalized {
                            let rate = agent.get_infection_transmission_rate(disease);
                            if rng.gen_ratio(rate, PPM) {
                                proof {
                                    assert(neighbours@[k as int] == p);
                                    assert(neighbours@.contains(p));
                                    let w = choose|w: int|
                                        0 <= w < map.agents@.len() && (#[trigger] map.agents@[w]).0 == p
                                            && map.agents@[w].1 == *agent;
                                    assert(map.agents@[w].1.is_infectious(*disease));
                                }
                                self.state_machine.expose(sim_hr);
                                return;
                            }
                        }
                    }
                }
                proof {
                    assert(!certain_at(map, p, *disease)) by {
                        if certain_at(map, p, *disease) {
                            let w = choose|w: int| 0 <= w < map.agents@.len() && (#[trigger] map.agents@[w]).0 == p
                                && map.agents@[w].1.transmits_surely(*disease);
                            assert(map.grid.spec_in_grid(map.agents@[w].0));
                            assert(!map.spec_vacant(p));
                        }
                    }
                }
                k = k + 1;
            }
            proof {
                if has_certain_neighbor(map, old(self).current_area, cell, *disease) {
                    let w = choose|w: int|
                        0 <= w < map.agents@.len() && adjacent(cell, (#[trigger] map.agents@[w]).0)
                            && old(self).current_area.spec_contains(map.agents@[w].0) && map.agents@[w].1.transmits_surely(*disease);
                    let q = map.agents@[w].0;
                    assert(neighbours@.contains(q));
                    let j = neighbours@.index_of(q);
                    assert(certain_at(map, neighbours@[j], *disease));
                }
            }
        }
    }

    /// Heads for a random cell of `target` when working, else walks; only a citizen who may
    /// move does, except that a sick worker at work may still go home.
    fn goto_area(&self, target: &Area, map: &AgentLocationMap, cell: Point, rng: &mut RandomWrapper) -> (r: Point)
        requires
            map.wf(),
        ensures
            map.lands(cell, r),
            self.isolated ==> (r == cell || (target.same(self.home_location) && target.spec_contains(r))),
            !self.spec_can_move() && !self.may_go_home_sick(*target, cell) ==> r == cell,
            self.working ==> r == cell || target.spec_contains(r),
    {
        let mut override_movement = false;
        if matches!(self.work_status, WorkStatus::Normal | WorkStatus::Essential) {
            if self.work_location.contains(&cell) && target.same_area(&self.home_location) && (
            self.state_machine.is_mild_symptomatic() || self.state_machine.is_infected_severe()) {
                override_movement = true;
            }
        }
        if !self.can_move() && !override_movement {
            return cell;
        }
        if self.working {
            if !target.has_cells() {
                return cell;
            }
            let mut new_cell = target.get_random_point(rng);
            if !map.is_cell_vacant(&new_cell) {
                new_cell = cell;
            }
            return map.move_agent(cell, new_cell);
        }
        self.move_agent_from(map, cell, rng)
    }

    /// Ends the infection on its last day; a recovered citizen heads home and leaves the
    /// hospital.
    fn deceased(&mut self, map: &AgentLocationMap, cell: Point, rng: &mut RandomWrapper, disease: &Disease) -> (r: Point)
        requires
            map.wf(),
            disease.wf(),
        ensures
            map.lands(cell, r),
            final(self).same_person(old(self)),
            final(self).state_machine.state == old(self).state_machine.state || old(self).state_machine.state.is_active(),
            final(self).state_machine.state == old(self).state_machine.state || (old(self).state_machine.state is Infected && (
            final(self).state_machine.state == State::Recovered || final(self).state_machine.state == State::Deceased)),
            final(self).state_machine.state == State::Deceased && old(self).state_machine.state != State::Deceased
                ==> old(self).state_machine.state.spec_is_severe(),
            final(self).hospitalized ==> old(self).hospitalized,
            final(self).current_area == old(self).current_area,
            r == cell || old(self).home_location.spec_contains(r),
    {
        let mut new_cell = cell;
        if self.state_machine.is_infected() {
            let result = self.state_machine.decease(rng, disease);
            if result.1 == 1 && self.home_location.has_cells() {
                let target = self.home_location.get_random_point(rng);
                new_cell = map.move_agent(cell, target);
            }
            if (result.0 != 0 || result.1 != 0) && self.hospitalized {
                self.hospitalized = false;
            }
        }
        new_cell
    }

    /// Steps to a random free neighboring cell of the current area, or stays.
    fn move_agent_from(&self, map: &AgentLocationMap, cell: Point, rng: &mut RandomWrapper) -> (r: Point)
        requires
            map.wf(),
        ensures
            map.lands(cell, r),
            !self.spec_can_move() ==> r == cell,
    {
        if !self.can_move() || !self.current_area.has_cells() {
            return cell;
        }
        let mut current_location = cell;
        if !self.current_area.contains(&cell) {
            current_location = self.current_area.get_random_point(rng);
        }
        let neighbours = self.current_area.get_neighbors_of(current_location);
        let mut free: Vec<Point> = Vec::new();
        let mut k: usize = 0;
        while k < neighbours.len()
            invariant
                k <= neighbours@.len(),
            decreases neighbours@.len() - k,
        {
            let p = neighbours[k];
            if map.grid.is_point_in_grid(&p) && map.is_cell_vacant(&p) {
                free.push(p);
            }
            k = k + 1;
        }
        let new_cell = if free.len() == 0 {
            cell
        } else {
            free[rng.gen_index(free.len() as u64) as usize]
        };
        map.move_agent(cell, new_cell)
    }
}

/// How many citizens start in each infected state.
#[derive(Copy, Clone, Debug, PartialEq, Eq, Structural)]
pub struct StartingInfections {
    pub infected_mild_asymptomatic: u32,
    pub infected_mild_symptomatic: u32,
    pub infected_severe: u32,
    pub exposed: u32,
}

impl StartingInfections {
    pub fn new(
        infected_mild_asymptomatic: u32,
        infected_mild_symptomatic: u32,
        infected_severe: u32,
        exposed: u32,
    ) -> (r: StartingInfections)
        ensures
            r == (StartingInfections { infected_mild_asymptomatic, infected_mild_symptomatic, infected_severe, exposed }),
    {
        StartingInfections { infected_mild_asymptomatic, infected_mild_symptomatic, infected_severe, exposed }
    }

    pub open spec fn spec_total(self) -> int {
        self.exposed + self.infected_mild_asymptomatic + self.infected_mild_symptomatic + self.infected_severe
    }

    pub open spec fn spec_total_infected(self) -> int {
        self.infected_mild_asymptomatic + self.infected_mild_symptomatic + self.infected_severe
    }

    pub fn total(&self) -> (r: u64)
        ensures
            r == self.spec_total(),
    {
        self.exposed as u64 + self.infected_mild_asymptomatic as u64 + self.infected_mild_symptomatic as u64
            + self.infected_severe as u64
    }

    pub fn total_infected(&self) -> (r: u64)
        ensures
            r == self.spec_total_infected(),
    {
        self.infected_mild_asymptomatic as u64 + self.infected_mild_symptomatic as u64 + self.infected_severe as u64
    }

    pub fn get_exposed(&self) -> (r: u32)
        ensures
            r == self.exposed,
    {
        self.exposed
    }

    pub fn get_infected_mild_asymptomatic(&self) -> (r: u32)
        ensures
            r == self.infected_mild_asymptomatic,
    {
        self.infected_mild_asymptomatic
    }

    pub fn get_infected_mild_symptomatic(&self) -> (r: u32)
        ensures
            r == self.infected_mild_symptomatic,
    {
        self.infected_mild_symptomatic
    }

    pub fn get_infected_severe(&self) -> (r: u32)
        ensures
            r == self.infected_severe,
    {
        self.infected_severe
    }
}

/// The disease state that position `t` of the chosen citizens starts in: first the
/// exposed, then the mild asymptomatic, the mild symptomatic and the severe cases.
pub open spec fn starting_state(start: StartingInfections, t: int, before: DiseaseStateMachine) -> DiseaseStateMachine {
    if t < start.exposed {
        DiseaseStateMachine { state: State::Exposed { at_hour: 0 }, ..before }
    } else if t < start.exposed + start.infected_mild_asymptomatic {
        DiseaseStateMachine { state: State::Infected { symptoms: false, severity: InfectionSeverity::Mild }, infection_day: 1 }
    } else if t < start.exposed + start.infected_mild_asymptomatic + start.infected_mild_symptomatic {
        DiseaseStateMachine { state: State::Infected { symptoms: true, severity: InfectionSeverity::Mild }, infection_day: 1 }
    } else {
        DiseaseStateMachine { state: State::Infected { symptoms: true, severity: InfectionSeverity::Severe }, infection_day: 1 }
    }
}

/// `after` is `before` with the citizens at the distinct positions `chosen` put into the
/// starting states, in order, and every other citizen unchanged.
pub open spec fn infections_started(
    before: Seq<Citizen>,
    after: Seq<Citizen>,
    start: StartingInfections,
    chosen: Seq<usize>,
) -> bool {
    &&& after.len() == before.len()
    &&& chosen.len() == start.spec_total()
    &&& chosen.no_duplicates()
    &&& forall|t: int| 0 <= t < chosen.len() ==> #[trigger] chosen[t] < before.len()
    &&& forall|t: int|
        0 <= t < chosen.len() ==> after[#[trigger] chosen[t] as int] == (Citizen {
            state_machine: starting_state(start, t, before[chosen[t] as int].state_machine),
            ..before[chosen[t] as int]
        })
    &&& forall|i: int| 0 <= i < before.len() && !chosen.contains(i as usize) ==> #[trigger] after[i] == before[i]
}

/// Puts a uniformly chosen set of distinct citizens into the starting infected states.
pub fn set_starting_infections(
    agent_list: &mut Vec<Citizen>,
    start_infections: &StartingInfections,
    rng: &mut RandomWrapper,
)
    requires
        start_infections.spec_total() <= old(agent_list)@.len(),
        forall|i: int| 0 <= i < old(agent_list)@.len() ==> (#[trigger] old(agent_list)@[i]).state_machine.state == State::Susceptible,
    ensures
        exists|chosen: Seq<usize>| infections_started(old(agent_list)@, final(agent_list)@, *start_infections, chosen),
{
    let total = start_infections.total() as usize;
    let chosen = rng.sample_indices(agent_list.len(), total);
    let e = start_infections.exposed as u64;
    let a = e + start_infections.infected_mild_asymptomatic as u64;
    let m = a + start_infections.infected_mild_symptomatic as u64;
    let mut t: usize = 0;
    while t < total
        invariant
            t <= total == chosen@.len() == start_infections.spec_total(),
            e == start_infections.exposed,
            a == start_infections.exposed + start_infections.infected_mild_asymptomatic,
            m == start_infections.exposed + start_infections.infected_mild_asymptomatic + start_infections.infected_mild_symptomatic,
            agent_list@.len() == old(agent_list)@.len(),
            chosen@.no_duplicates(),
            forall|u: int| 0 <= u < chosen@.len() ==> #[trigger] chosen@[u] < old(agent_list)@.len(),
            forall|i: int| 0 <= i < old(agent_list)@.len() ==> (#[trigger] old(agent_list)@[i]).state_machine.state == State::Susceptible,
            forall|u: int|
                0 <= u < t ==> agent_list@[#[trigger] chosen@[u] as int] == (Citizen {
                    state_machine: starting_state(*start_infections, u, old(agent_list)@[chosen@[u] as int].state_machine),
                    ..old(agent_list)@[chosen@[u] as int]
                }),
            forall|i: int|
                0 <= i < old(agent_list)@.len() && !chosen@.subrange(0, t as int).contains(i as usize) ==> #[trigger] agent_list@[i]
                    == old(agent_list)@[i],
        decreases total - t,
    {
        let i = chosen[t];
        proof {
            assert(!chosen@.subrange(0, t as int).contains(i)) by {
                if chosen@.subrange(0, t as int).contains(i) {
                    let u = chosen@.subrange(0, t as int).index_of(i);
                    assert(chosen@[u] == chosen@[t as int]);
                }
            }
        }
        let mut citizen = agent_list[i].copy();
        if (t as u64) < e {
            citizen.state_machine.expose(0);
        } else if (t as u64) < a {
            citizen.state_machine.set_mild_asymptomatic();
        } else if (t as u64) < m {
            citizen.state_machine.set_mild_symptomatic();
        } else {
            citizen.state_machine.set_severe_infected();
        }
        let ghost before = agent_list@;
        agent_list.set(i, citizen);
        proof {
            assert forall|u: int| 0 <= u < t implies agent_list@[#[trigger] chosen@[u] as int] == before[chosen@[u] as int] by {
                assert(chosen@[u] != chosen@[t as int]);
            }
            assert forall|i2: int|
                0 <= i2 < old(agent_list)@.len() && !chosen@.subrange(0, t as int + 1).contains(i2 as usize) implies #[trigger] agent_list@[i2]
                    == old(agent_list)@[i2] by {
                assert(chosen@.subrange(0, t as int + 1)[t as int] == i);
                if chosen@.subrange(0, t as int).contains(i2 as usize) {
                    let u = chosen@.subrange(0, t as int).index_of(i2 as usize);
                    assert(chosen@.subrange(0, t as int + 1)[u] == i2 as usize);
                }
            }
        }
        t = t + 1;
    }
    assert(chosen@.subrange(0, total as int) =~= chosen@);
    assert(infections_started(old(agent_list)@, agent_list@, *start_infections, chosen@));
}

/// Citizen `i` of a generated population lives in home area `i` modulo the number of
/// home areas, works (if it works) in work area `i` modulo the number of work areas, and
/// rides public transport only if it works and transport point `i` exists.
pub open spec fn generated_citizen(
    c: Citizen,
    i: int,
    home_locations: Seq<Area>,
    work_locations: Seq<Area>,
    public_transport_locations: Seq<Point>,
) -> bool {
    &&& c.home_location == home_locations[i % (home_locations.len() as int)]
    &&& c.working ==> c.work_location == work_locations[i % (work_locations.len() as int)]
    &&& !c.working ==> c.work_location == c.home_location
    &&& c.uses_public_transport ==> c.working && i < public_transport_locations.len()
        && c.transport_location == public_transport_locations[i]
    &&& c.immunity_in_range()
    &&& !c.vaccinated && !c.hospitalized && !c.isolated && !c.work_quarantined
}

/// Makes `number_of_agents` citizens: each works with the working share and, if it works,
/// rides public transport with the public transport share (parts per million); then puts
/// the starting infections on a random set of them.
pub fn citizen_factory(
    number_of_agents: u32,
    home_locations: &Vec<Area>,
    work_locations: &Vec<Area>,
    public_transport_locations: &Vec<Point>,
    percentage_public_transport: u32,
    working_percentage: u32,
    rng: &mut RandomWrapper,
    starting_infections: &StartingInfections,
) -> (r: Vec<Citizen>)
    requires
        home_locations@.len() > 0,
        work_locations@.len() > 0,
        forall|k: int| 0 <= k < home_locations@.len() ==> (#[trigger] home_locations@[k]).is_nonempty(),
        percentage_public_transport <= PPM,
        working_percentage <= PPM,
        starting_infections.spec_total() <= number_of_agents,
    ensures
        r@.len() == number_of_agents,
        forall|i: int|
            0 <= i < r@.len() ==> generated_citizen(
                #[trigger] r@[i],
                i,
                home_locations@,
                work_locations@,
                public_transport_locations@,
            ),
        exists|before: Seq<Citizen>, chosen: Seq<usize>|
            {
                &&& forall|i: int| 0 <= i < before.len() ==> (#[trigger] before[i]).state_machine.state == State::Susceptible
                &&& infections_started(before, r@, *starting_infections, chosen)
            },
{
    let mut agent_list: Vec<Citizen> = Vec::new();
    let mut i: usize = 0;
    while i < number_of_agents as usize
        invariant
            i <= number_of_agents,
            agent_list@.len() == i,
            home_locations@.len() > 0,
            work_locations@.len() > 0,
            forall|k: int| 0 <= k < home_locations@.len() ==> (#[trigger] home_locations@[k]).is_nonempty(),
            percentage_public_transport <= PPM,
            working_percentage <= PPM,
            forall|j: int|
                0 <= j < i ==> generated_citizen(
                    #[trigger] agent_list@[j],
                    j,
                    home_locations@,
                    work_locations@,
                    public_transport_locations@,
                ),
            forall|j: int| 0 <= j < i ==> (#[trigger] agent_list@[j]).state_machine.state == State::Susceptible,
        decreases number_of_agents - i,
    {
        let is_a_working_citizen = rng.gen_ratio(working_percentage, PPM);
        let home_location = home_locations[i % home_locations.len()].copy();
        let work_location = work_locations[i % work_locations.len()].copy();
        let uses_public_transport = rng.gen_ratio(percentage_public_transport, PPM) && is_a_working_citizen
            && i < public_transport_locations.len();
        let public_transport_location = if uses_public_transport {
            public_transport_locations[i]
        } else {
            home_location.get_random_point(rng)
        };
        let work_location = if is_a_working_citizen {
            work_location
        } else {
            home_location.copy()
        };
        let work_status = Citizen::derive_work_status(is_a_working_citizen, rng);
        let agent = Citizen::new(home_location, work_location, public_transport_location, uses_public_transport,
            is_a_working_citizen, work_status, rng);
        agent_list.push(agent);
        i = i + 1;
    }
    let ghost before = agent_list@;
    set_starting_infections(&mut agent_list, starting_infections, rng);
    proof {
        let chosen = choose|chosen: Seq<usize>| infections_started(before, agent_list@, *starting_infections, chosen);
        assert forall|j: int| 0 <= j < agent_list@.len() implies generated_citizen(
            #[trigger] agent_list@[j],
            j,
            home_locations@,
            work_locations@,
            public_transport_locations@,
        ) by {
            if chosen.contains(j as usize) {
                let t = chosen.index_of(j as usize);
                assert(agent_list@[chosen[t] as int] == agent_list@[j]);
            } else {
                assert(agent_list@[j] == before[j]);
            }
        }
    }
    agent_list
}

/// `after` is `before`, or `before` was a worker of the region named `region` whose work
/// region is now another region of `regions`; nothing else changes.
pub open spec fn reassigned_or_same(before: Citizen, after: Citizen, region: Seq<char>, regions: Seq<String>) -> bool {
    ||| after == before
    ||| {
        &&& is_local_worker(before, region)
        &&& after == (Citizen {
            work_location: Area { location_id: after.work_location.location_id, ..before.work_location },
            ..before
        })
        &&& exists|j: int|
            0 <= j < regions.len() && (#[trigger] regions[j])@ == after.work_location.location_id@ && regions[j]@ != region
    }
}

/// The citizen works in the region named `region`.
pub open spec fn is_local_worker(c: Citizen, region: Seq<char>) -> bool {
    c.working && c.work_location.location_id@ == region
}

/// How many citizens of `s` work in the region named `region`.
pub open spec fn local_workers(s: Seq<Citizen>, region: Seq<char>) -> int
    decreases s.len(),
{
    if s.len() == 0 {
        0
    } else {
        local_workers(s.drop_last(), region) + if is_local_worker(s.last(), region) { 1int } else { 0 }
    }
}

/// How many citizens the row `row` of region `region` sends to the other regions among the
/// first `upto` of `regions`.
pub open spec fn commuters_wanted(regions: Seq<String>, row: Seq<u32>, region: Seq<char>, upto: int) -> int
    decreases upto,
{
    if upto <= 0 {
        0
    } else {
        commuters_wanted(regions, row, region, upto - 1) + if regions[upto - 1]@ != region { row[upto - 1] as int } else { 0 }
    }
}

proof fn lemma_local_workers_nonneg(s: Seq<Citizen>, region: Seq<char>)
    ensures
        local_workers(s, region) >= 0,
    decreases s.len(),
{
    if s.len() > 0 {
        lemma_local_workers_nonneg(s.drop_last(), region);
    }
}

proof fn lemma_local_workers_update(s: Seq<Citizen>, k: int, x: Citizen, region: Seq<char>)
    requires
        0 <= k < s.len(),
        is_local_worker(s[k], region),
        !is_local_worker(x, region),
    ensures
        local_workers(s.update(k, x), region) + 1 == local_workers(s, region),
    decreases s.len(),
{
    if k == s.len() - 1 {
        assert(s.update(k, x).drop_last() =~= s.drop_last());
    } else {
        lemma_local_workers_update(s.drop_last(), k, x, region);
        assert(s.update(k, x).drop_last() =~= s.drop_last().update(k, x));
    }
}

proof fn lemma_no_local_workers(s: Seq<Citizen>, region: Seq<char>)
    requires
        forall|i: int| 0 <= i < s.len() ==> !is_local_worker(#[trigger] s[i], region),
    ensures
        local_workers(s, region) == 0,
    decreases s.len(),
{
    if s.len() > 0 {
        assert forall|i: int| 0 <= i < s.drop_last().len() implies !is_local_worker(#[trigger] s.drop_last()[i], region) by {
            assert(s.drop_last()[i] == s[i]);
        }
        lemma_no_local_workers(s.drop_last(), region);
        assert(!is_local_worker(s[s.len() - 1], region));
    }
}

/// The position of the first citizen who works in the region named `region`.
fn first_local_worker(agent_list: &Vec<Citizen>, region: &String) -> (r: Option<usize>)
    ensures
        r is Some ==> r->0 < agent_list@.len() && is_local_worker(agent_list@[r->0 as int], region@),
        r is None ==> forall|i: int| 0 <= i < agent_list@.len() ==> !is_local_worker(#[trigger] agent_list@[i], region@),
{
    let mut k: usize = 0;
    while k < agent_list.len()
        invariant
            k <= agent_list@.len(),
            forall|i: int| 0 <= i < k ==> !is_local_worker(#[trigger] agent_list@[i], region@),
        decreases agent_list@.len() - k,
    {
        if agent_list[k].working && agent_list[k].work_location.location_id == *region {
            return Some(k);
        }
        k = k + 1;
    }
    None
}

/// Makes commuters of local workers: for each other region of the plan, as many citizens as
/// the plan sends there from `region_name` get that region as their work region, taking each
/// time the first citizen who still works locally, until none is left. So the local workers
/// drop by the plan's row total, or to none.
pub fn update_commuters(agent_list: &mut Vec<Citizen>, commute_plan: &CommutePlan, region_name: &String)
    requires
        commute_plan.wf(),
    ensures
        final(agent_list)@.len() == old(agent_list)@.len(),
        forall|i: int|
            0 <= i < old(agent_list)@.len() ==> reassigned_or_same(
                old(agent_list)@[i],
                #[trigger] final(agent_list)@[i],
                region_name@,
                commute_plan.regions@,
            ),
        (exists|i: int|
            0 <= i < commute_plan.regions@.len() && (#[trigger] commute_plan.regions@[i])@ == region_name@ && {
                let before = local_workers(old(agent_list)@, region_name@);
                let wanted = commuters_wanted(commute_plan.regions@, commute_plan.matrix@[i]@, region_name@, commute_plan.regions@.len() as int);
                local_workers(final(agent_list)@, region_name@) == if before > wanted { before - wanted } else { 0 }
            }) || (final(agent_list)@ == old(agent_list)@ && forall|i: int|
            0 <= i < commute_plan.regions@.len() ==> (#[trigger] commute_plan.regions@[i])@ != region_name@),
{
    let totals = commute_plan.get_total_commuters_by_region(region_name);
    if totals.len() == 0 {
        return;
    }
    let ghost me = choose|i: int|
        0 <= i < commute_plan.regions@.len() && (#[trigger] commute_plan.regions@[i])@ == region_name@ && totals@.len()
            == commute_plan.regions@.len() && forall|j: int|
            0 <= j < totals@.len() ==> (#[trigger] totals@[j]).0@ == commute_plan.regions@[j]@ && totals@[j].1
                == commute_plan.matrix@[i]@[j];
    let ghost row = commute_plan.matrix@[me]@;
    let ghost start = local_workers(old(agent_list)@, region_name@);
    proof {
        lemma_local_workers_nonneg(old(agent_list)@, region_name@);
    }
    let mut t: usize = 0;
    while t < totals.len()
        invariant
            0 <= me < commute_plan.regions@.len(),
            commute_plan.regions@[me]@ == region_name@,
            totals@.len() == commute_plan.regions@.len(),
            forall|j: int|
                0 <= j < totals@.len() ==> (#[trigger] totals@[j]).0@ == commute_plan.regions@[j]@ && totals@[j].1 == row[j],
            row == commute_plan.matrix@[me]@,
            start == local_workers(old(agent_list)@, region_name@),
            start >= 0,
            t <= totals@.len(),
            agent_list@.len() == old(agent_list)@.len(),
            forall|i: int|
                0 <= i < old(agent_list)@.len() ==> reassigned_or_same(
                    old(agent_list)@[i],
                    #[trigger] agent_list@[i],
                    region_name@,
                    commute_plan.regions@,
                ),
            local_workers(agent_list@, region_name@) == if start > commuters_wanted(commute_plan.regions@, row, region_name@, t as int) {
                start - commuters_wanted(commute_plan.regions@, row, region_name@, t as int)
            } else {
                0
            },
        decreases totals@.len() - t,
    {
        let ghost wanted_before = commuters_wanted(commute_plan.regions@, row, region_name@, t as int);
        let ghost local_before = local_workers(agent_list@, region_name@);
        if !(totals[t].0 == *region_name) {
            let count = totals[t].1;
            let mut c: u32 = 0;
            let mut exhausted = false;
            while c < count && !exhausted
                invariant
                    t < totals@.len(),
                    totals@.len() == commute_plan.regions@.len(),
                    totals@[t as int].0@ != region_name@,
                    totals@[t as int].0@ == commute_plan.regions@[t as int]@,
                    count == totals@[t as int].1,
                    c <= count,
                    agent_list@.len() == old(agent_list)@.len(),
                    forall|i: int|
                        0 <= i < old(agent_list)@.len() ==> reassigned_or_same(
                            old(agent_list)@[i],
                            #[trigger] agent_list@[i],
                            region_name@,
                            commute_plan.regions@,
                        ),
                    exhausted ==> local_workers(agent_list@, region_name@) == 0 && local_before == c,
                    !exhausted ==> local_workers(agent_list@, region_name@) == local_before - c,
                    local_before >= c,
                    local_workers(agent_list@, region_name@) >= 0,
                decreases count - c + if exhausted { 0int } else { 1int },
            {
                match first_local_worker(agent_list, region_name) {
                    Some(k) => {
                        let mut citizen = agent_list[k].copy();
                        let ghost before = citizen;
                        citizen.work_location.location_id = totals[t].0.clone();
                        proof {
                            assert(before == agent_list@[k as int]);
                            assert(is_local_worker(before, region_name@));
                            assert(commute_plan.regions@[t as int]@ == citizen.work_location.location_id@);
                            assert(commute_plan.regions@[t as int]@ != region_name@);
                            assert(!is_local_worker(citizen, region_name@));
                            lemma_local_workers_update(agent_list@, k as int, citizen, region_name@);
                            lemma_local_workers_nonneg(agent_list@.update(k as int, citizen), region_name@);
                            assert(reassigned_or_same(old(agent_list)@[k as int], before, region_name@, commute_plan.regions@));
                            assert(old(agent_list)@[k as int] == before);
                            assert(citizen == (Citizen {
                                work_location: Area { location_id: citizen.work_location.location_id, ..before.work_location },
                                ..before
                            }));
                            assert(reassigned_or_same(old(agent_list)@[k as int], citizen, region_name@, commute_plan.regions@));
                        }
                        agent_list.set(k, citizen);
                        c = c + 1;
                    },
                    None => {
                        proof {
                            lemma_no_local_workers(agent_list@, region_name@);
                        }
                        exhausted = true;
                    },
                }
            }
            assert(totals@[t as int].1 == row[t as int]);
        }
        t = t + 1;
    }
    assert(exists|i: int|
        0 <= i < commute_plan.regions@.len() && (#[trigger] commute_plan.regions@[i])@ == region_name@ && {
            let before = local_workers(old(agent_list)@, region_name@);
            let wanted = commuters_wanted(commute_plan.regions@, commute_plan.matrix@[i]@, region_name@, commute_plan.regions@.len() as int);
            local_workers(agent_list@, region_name@) == if before > wanted { before - wanted } else { 0 }
        }) by {
        assert(commute_plan.regions@[me]@ == region_name@);
    }
}

} // verus!
