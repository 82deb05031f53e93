//! A region's simulation: its set-up from a configuration, the interventions it applies
//! between hours, and the decisions of the hour-by-hour driver.
use crate::allocation_map::AgentLocationMap;
use crate::citizen::{citizen_factory, set_starting_infections, update_commuters, Citizen, PopulationRecord, StartingInfections};
use crate::constants::{
    CITY_LOCK_DOWN_THRESHOLD, PPM, ROUTINE_TRAVEL_END_TIME, ROUTINE_TRAVEL_START_TIME,
};
use crate::counts::{same_categories, Counts};
use crate::disease::Disease;
use crate::disease_state_machine::State;
use crate::geography::{define_geography, Area, Grid, Point, MAX_GRID_SIZE};
use crate::random_wrapper::RandomWrapper;
use crate::travel::CommutePlan;
use vstd::prelude::*;

verus! {

/// Parameters of a generated population; shares are in parts per million.
#[derive(Copy, Clone, Debug, PartialEq, Eq, Structural)]
pub struct AutoPopulation {
    pub number_of_agents: u32,
    pub public_transport_percentage: u32,
    pub working_percentage: u32,
}

pub enum Population {
    Csv(Vec<PopulationRecord>),
    Auto(AutoPopulation),
}

/// What a region's simulation is set up from; shares are in parts per million.
pub struct Config {
    pub population: Population,
    pub disease: Disease,
    pub grid_size: i32,
    pub hospital_beds_percentage: u32,
    pub starting_infections: StartingInfections,
    pub hours: u32,
}

pub enum RunMode {
    Standalone,
    SingleDaemon,
    MultiEngine { engine_id: String },
}

/// Vaccinate a share (parts per million) of the susceptible citizens at a given hour.
#[derive(Copy, Clone, Debug, PartialEq, Eq, Structural)]
pub struct VaccinateIntervention {
    pub at_hour: u32,
    pub percent: u32,
}

/// Build a hospital once the daily spread exceeds a threshold; carried for reporting.
#[derive(Copy, Clone, Debug, PartialEq, Eq, Structural)]
pub struct BuildNewHospital {
    pub spread_rate_threshold: u32,
}

/// The interventions a region applies between hours.
pub struct Interventions {
    pub vaccinate: Vec<VaccinateIntervention>,
    pub lockdown: LockdownIntervention,
    pub build_new_hospital: BuildNewHospital,
}

/// Which interventions an hour brought.
#[derive(Copy, Clone, Debug, PartialEq, Eq, Structural)]
pub struct AppliedInterventions {
    pub vaccinated: bool,
    pub locked_down: bool,
}

/// What one hour of a single region brought.
pub struct HourOutcome {
    /// Cells of the citizens newly infected this hour.
    pub infected_cells: Vec<Point>,
    pub applied: AppliedInterventions,
    /// Whether the run ends after this hour.
    pub stop: bool,
}

/// The lockdown state of a region.
#[derive(Copy, Clone, Debug, PartialEq, Eq, Structural)]
pub struct LockdownIntervention {
    /// Infected count at which the region locks down, if it ever does.
    pub at_number_of_infections: Option<u32>,
    pub is_locked_down: bool,
    /// The hour at which a locked-down region last saw no active case.
    pub zero_infection_hour: u32,
    /// Share of normal workers who keep working under lockdown, in parts per million.
    pub essential_workers_percentage: u32,
}

#[derive(Copy, Clone, Debug, PartialEq, Eq, Structural)]
pub enum InitError {
    /// The population does not fit in the housing area.
    NoSpace,
}

pub struct Epidemiology {
    pub agent_location_map: AgentLocationMap,
    pub disease: Disease,
    pub sim_id: String,
}

/// The coordinator's signal that an hour may begin, or that the run is over.
#[derive(Copy, Clone, Debug, PartialEq, Eq, Structural)]
pub struct Tick {
    pub hour: u32,
    pub terminate: bool,
}

/// A region's acknowledgement of an hour.
pub struct TickAck {
    pub engine_id: String,
    pub hour: u32,
    pub counts: Counts,
    pub locked_down: bool,
}

/// What the driver does with a tick received while its local hour is `h`.
#[derive(Copy, Clone, Debug, PartialEq, Eq, Structural)]
pub enum TickDecision {
    /// The tick is for an earlier hour: drop it and wait for the next.
    Discard,
    /// The tick is for this hour: run it.
    Proceed,
    /// The tick is for this hour and ends the run.
    Terminate,
    /// The tick is for a later hour: the regions are out of step.
    OutOfStep,
}

/// The decision for a tick of hour `tick_hour` (ending the run or not) at local hour `h`.
pub open spec fn decide_tick(h: u32, tick: Tick) -> TickDecision {
    if tick.hour < h {
        TickDecision::Discard
    } else if tick.hour > h {
        TickDecision::OutOfStep
    } else if tick.terminate {
        TickDecision::Terminate
    } else {
        TickDecision::Proceed
    }
}

/// Hours at which regions exchange travellers and so wait for a tick: the first hour of a
/// day when migration is on, the start and end of the working day when commuting is on.
pub open spec fn is_sync_hour(h: u32, is_commute_enabled: bool, is_migration_enabled: bool) -> bool {
    ||| (is_commute_enabled && (h % 24 == ROUTINE_TRAVEL_START_TIME || h % 24 == ROUTINE_TRAVEL_END_TIME))
    ||| (is_migration_enabled && h % 24 == 0)
}

/// The number of citizens of a configuration.
pub open spec fn population_size(p: Population) -> int {
    match p {
        Population::Auto(auto) => auto.number_of_agents as int,
        Population::Csv(records) => records@.len() as int,
    }
}

/// The number of cells of the housing area that `define_geography` lays out.
pub open spec fn housing_cells(grid_size: i32) -> int {
    (grid_size * 40 / 100) * (grid_size + 1)
}

/// A grid laid out as `define_geography` lays it out for `grid_size`, with the hospital
/// cut down to hold a bed for the beds share of `population` citizens.
pub open spec fn standard_layout(g: Grid, grid_size: i32, sim_id: Seq<char>, population: int, beds_ppm: u32) -> bool {
    let home = grid_size * 40 / 100;
    let transport = home + grid_size * 20 / 100;
    let work = transport + grid_size * 20 / 100;
    let hospital = work + grid_size * 10 / 100;
    let laid_out = Area {
        location_id: g.hospital_area.location_id,
        start_offset: Point { x: work as i32, y: 0 },
        end_offset: Point { x: (hospital - 1) as i32, y: grid_size },
    };
    &&& g.grid_size == grid_size
    &&& g.housing_area.location_id@ == sim_id
    &&& g.housing_area.start_offset == (Point { x: 0, y: 0 })
    &&& g.housing_area.end_offset == (Point { x: (home - 1) as i32, y: grid_size })
    &&& g.transport_area.location_id@ == sim_id
    &&& g.transport_area.start_offset == (Point { x: home as i32, y: 0 })
    &&& g.transport_area.end_offset == (Point { x: (transport - 1) as i32, y: grid_size })
    &&& g.work_area.location_id@ == sim_id
    &&& g.work_area.start_offset == (Point { x: transport as i32, y: 0 })
    &&& g.work_area.end_offset == (Point { x: (work - 1) as i32, y: grid_size })
    &&& g.hospital_area.location_id@ == sim_id
    &&& g.hospital_area == if laid_out.is_nonempty() {
        crate::geography::resized_hospital(laid_out, crate::geography::hospital_places(population as u32, beds_ppm), g.hospital_area.location_id)
    } else {
        laid_out
    }
}

/// What the interventions of an hour may do to a placed citizen: vaccinate it when a
/// vaccination ran and it is susceptible, isolate it when a lockdown ran (and must, unless
/// it is an essential worker); nothing else changes.
pub open spec fn intervened(a: (Point, Citizen), b: (Point, Citizen), vaccinated: bool, locked_down: bool) -> bool {
    &&& b.0 == a.0
    &&& b.1 == (Citizen { vaccinated: b.1.vaccinated, isolated: b.1.isolated, ..a.1 })
    &&& b.1.vaccinated != a.1.vaccinated ==> vaccinated && a.1.state_machine.state == State::Susceptible && b.1.vaccinated
    &&& b.1.isolated != a.1.isolated ==> locked_down && b.1.isolated
    &&& locked_down && a.1.work_status != crate::citizen::WorkStatus::Essential ==> b.1.isolated
}

impl Epidemiology {
    /// Sets up a region: the standard layout for the configured grid size, the population
    /// (generated, or read from records) with its starting infections, each citizen on its
    /// own cell of the housing area, drawn at random, and a hospital with a bed for the beds
    /// share of the population. A generated population then sends local workers to work in
    /// other regions as `commute_plan` says. Fails exactly when the population outnumbers
    /// the housing area's cells.
    pub fn new(config: &Config, commute_plan: Option<&CommutePlan>, sim_id: String) -> (r: Result<Epidemiology, InitError>)
        requires
            0 < config.grid_size <= MAX_GRID_SIZE,
            config.disease.wf(),
            config.hospital_beds_percentage <= PPM,
            population_size(config.population) < u32::MAX - 2,
            config.starting_infections.spec_total() <= population_size(config.population),
            match config.population {
                Population::Auto(auto) => auto.public_transport_percentage <= PPM && auto.working_percentage <= PPM,
                Population::Csv(_) => true,
            },
            commute_plan is Some ==> commute_plan->0.wf(),
        ensures
            r is Err <==> population_size(config.population) > housing_cells(config.grid_size),
            r is Ok ==> {
                let e = r->Ok_0;
                &&& e.agent_location_map.wf()
                &&& e.disease == config.disease
                &&& e.sim_id@ == sim_id@
                &&& standard_layout(
                    e.agent_location_map.grid,
                    config.grid_size,
                    sim_id@,
                    population_size(config.population),
                    config.hospital_beds_percentage,
                )
                &&& e.agent_location_map.agents@.len() == population_size(config.population)
                &&& config.hospital_beds_percentage == 0 ==> !e.agent_location_map.grid.hospital_area.is_nonempty()
                &&& forall|k: int|
                    0 <= k < e.agent_location_map.agents@.len() ==> e.agent_location_map.grid.housing_area.spec_contains(
                        (#[trigger] e.agent_location_map.agents@[k]).0,
                    )
            },
    {
        let mut rng = RandomWrapper::new();
        let mut grid = define_geography(config.grid_size, sim_id.clone());
        let housing = grid.housing_area.copy();
        let cells = housing.get_number_of_cells();
        let n: usize = match &config.population {
            Population::Auto(auto) => auto.number_of_agents as usize,
            Population::Csv(records) => records.len(),
        };
        proof {
            assert(cells == housing_cells(config.grid_size)) by (nonlinear_arith)
                requires
                    cells == (if housing.is_nonempty() { housing.width() * housing.height() } else { 0 }),
                    housing.width() == config.grid_size * 40 / 100,
                    housing.height() == config.grid_size + 1,
                    config.grid_size > 0,
                    housing_cells(config.grid_size) == (config.grid_size * 40 / 100) * (config.grid_size + 1),
                    housing.is_nonempty() <==> housing.width() > 0,
            ;
        }
        if n as i128 > cells {
            return Err(InitError::NoSpace);
        }
        let mut citizens: Vec<Citizen> = Vec::new();
        if n > 0 {
            citizens = match &config.population {
                Population::Auto(auto) => {
                    let mut transport_points: Vec<Point> = Vec::new();
                    if grid.transport_area.has_cells() {
                        let mut i: u32 = 0;
                        while i < auto.number_of_agents
                            invariant
                                grid.transport_area.is_nonempty(),
                            decreases auto.number_of_agents - i,
                        {
                            transport_points.push(grid.transport_area.get_random_point(&mut rng));
                            i = i + 1;
                        }
                    }
                    let homes = vec![housing.copy()];
                    let offices = vec![grid.work_area.copy()];
                    let mut generated = citizen_factory(auto.number_of_agents, &homes, &offices, &transport_points,
                        auto.public_transport_percentage, auto.working_percentage, &mut rng, &config.starting_infections);
                    assert forall|j: int| 0 <= j < generated@.len() implies (#[trigger] generated@[j]).immunity_in_range()
                        && generated@[j].home_location == housing by {
                        assert(crate::citizen::generated_citizen(generated@[j], j, homes@, offices@, transport_points@));
                    }
                    if let Some(plan) = commute_plan {
                        let ghost before = generated@;
                        update_commuters(&mut generated, plan, &sim_id);
                        assert forall|j: int| 0 <= j < generated@.len() implies (#[trigger] generated@[j]).immunity_in_range()
                            && generated@[j].home_location == housing by {
                            assert(crate::citizen::reassigned_or_same(before[j], generated@[j], sim_id@, plan.regions@));
                        }
                    }
                    generated
                },
                Population::Csv(records) => {
                    let mut citizens: Vec<Citizen> = Vec::new();
                    let mut i: usize = 0;
                    while i < records.len()
                        invariant
                            i <= records@.len(),
                            citizens@.len() == i,
                            housing.is_nonempty(),
                            forall|j: int| 0 <= j < i ==> (#[trigger] citizens@[j]).state_machine.state == State::Susceptible,
                            forall|j: int| 0 <= j < i ==> (#[trigger] citizens@[j]).immunity_in_range() && citizens@[j].home_location == housing,
                        decreases records@.len() - i,
                    {
                        let record = PopulationRecord {
                            ind: records[i].ind,
                            age: records[i].age.clone(),
                            working: records[i].working,
                            pub_transport: records[i].pub_transport,
                        };
                        let work = if record.working {
                            grid.work_area.copy()
                        } else {
                            housing.copy()
                        };
                        let transport = housing.get_random_point(&mut rng);
                        citizens.push(Citizen::from_record(record, housing.copy(), work, transport, &mut rng));
                        i = i + 1;
                    }
                    let ghost before = citizens@;
                    set_starting_infections(&mut citizens, &config.starting_infections, &mut rng);
                    proof {
                        let chosen = choose|chosen: Seq<usize>| crate::citizen::infections_started(before, citizens@, config.starting_infections, chosen);
                        assert forall|j: int| 0 <= j < citizens@.len() implies (#[trigger] citizens@[j]).immunity_in_range()
                            && citizens@[j].home_location == housing by {
                            if chosen.contains(j as usize) {
                                let t = chosen.index_of(j as usize);
                                assert(citizens@[chosen[t] as int] == citizens@[j]);
                            } else {
                                assert(citizens@[j] == before[j]);
                            }
                        }
                    }
                    citizens
                },
            };
        }
        assert(citizens@.len() == n);
        let length: usize = if cells > usize::MAX as i128 { usize::MAX } else { cells as usize };
        let chosen = rng.sample_indices(length, n);
        let mut agents: Vec<(Point, Citizen)> = Vec::new();
        let mut k: usize = 0;
        while k < n
            invariant
                k <= n == citizens@.len() == chosen@.len(),
                n > 0 ==> housing.is_nonempty(),
                cells == (if housing.is_nonempty() { housing.width() * housing.height() } else { 0 }),
                length <= cells,
                chosen@.no_duplicates(),
                forall|t: int| 0 <= t < chosen@.len() ==> #[trigger] chosen@[t] < length,
                forall|j: int| 0 <= j < n ==> (#[trigger] citizens@[j]).immunity_in_range(),
                agents@.len() == k,
                forall|t: int| 0 <= t < k ==> (#[trigger] agents@[t]).0 == housing.cell_of(chosen@[t] as int)
                    && agents@[t].1.immunity_in_range(),
                forall|t: int| 0 <= t < k ==> housing.spec_contains((#[trigger] agents@[t]).0),
            decreases n - k,
        {
            let p = housing.cell_at(chosen[k] as u64);
            agents.push((p, citizens[k].copy()));
            k = k + 1;
        }
        proof {
            assert forall|a: int, b: int| 0 <= a < agents@.len() && 0 <= b < agents@.len() && a != b implies (#[trigger] agents@[a]).0
                != (#[trigger] agents@[b]).0 by {
                assert(chosen@[a] != chosen@[b]);
                crate::geography::lemma_cells_distinct(housing, chosen@[a] as int, chosen@[b] as int);
            }
        }
        let ghost g1 = grid;
        if grid.hospital_area.has_cells() {
            grid.resize_hospital(n as u32, config.hospital_beds_percentage, sim_id.clone());
        }
        let agent_location_map = AgentLocationMap { grid, agents };
        assert(agent_location_map.wf()) by {
            assert forall|t: int| 0 <= t < agents@.len() implies agent_location_map.grid.spec_in_grid(#[trigger] agents@[t].0) by {
                assert(housing == g1.housing_area);
            }
            crate::geography::lemma_banded_disjoint(agent_location_map.grid);
        }
        Ok(Epidemiology { agent_location_map, disease: config.disease, sim_id })
    }

    /// What to do with `tick` at local hour `simulation_hour`. Only a tick for the local
    /// hour is acted on; earlier ones are dropped.
    pub fn receive_tick(simulation_hour: u32, tick: Tick) -> (r: TickDecision)
        ensures
            r == decide_tick(simulation_hour, tick),
    {
        if tick.hour < simulation_hour {
            TickDecision::Discard
        } else if tick.hour > simulation_hour {
            TickDecision::OutOfStep
        } else if tick.terminate {
            TickDecision::Terminate
        } else {
            TickDecision::Proceed
        }
    }

    /// Whether hour `simulation_hour` waits for a tick.
    pub fn needs_tick(simulation_hour: u32, is_commute_enabled: bool, is_migration_enabled: bool) -> (r: bool)
        ensures
            r == is_sync_hour(simulation_hour, is_commute_enabled, is_migration_enabled),
    {
        let day_hour = simulation_hour % 24;
        let is_commute_hour = day_hour == ROUTINE_TRAVEL_END_TIME || day_hour == ROUTINE_TRAVEL_START_TIME;
        let is_migration_hour = day_hour == 0;
        (is_commute_enabled && is_commute_hour) || (is_migration_enabled && is_migration_hour)
    }

    /// Which exchanges hour `simulation_hour` holds once its tick came: (migration,
    /// commute). Migrators travel at the first hour of a day, commuters when the working day
    /// starts and ends; each only when enabled.
    pub fn travel_hours(simulation_hour: u32, tick_received: bool, is_commute_enabled: bool, is_migration_enabled: bool) -> (r: (bool, bool))
        ensures
            r.0 == (is_migration_enabled && tick_received && simulation_hour % 24 == 0),
            r.1 == (is_commute_enabled && tick_received && (simulation_hour % 24 == ROUTINE_TRAVEL_START_TIME
                || simulation_hour % 24 == ROUTINE_TRAVEL_END_TIME)),
    {
        let hour_of_day = simulation_hour % 24;
        (
            is_migration_enabled && tick_received && hour_of_day == 0,
            is_commute_enabled && tick_received && (hour_of_day == ROUTINE_TRAVEL_START_TIME || hour_of_day
                == ROUTINE_TRAVEL_END_TIME),
        )
    }

    /// Whether hour `simulation_hour` is acknowledged: the first hour, and every hour that
    /// waited for a tick.
    pub fn needs_ack(simulation_hour: u32, is_commute_enabled: bool, is_migration_enabled: bool) -> (r: bool)
        ensures
            r == (simulation_hour == 1 || is_sync_hour(simulation_hour, is_commute_enabled, is_migration_enabled)),
    {
        simulation_hour == 1 || Self::needs_tick(simulation_hour, is_commute_enabled, is_migration_enabled)
    }

    /// The acknowledgement of hour `simulation_hour`.
    pub fn tick_ack(engine_id: &String, simulation_hour: u32, counts: Counts, lockdown: &LockdownIntervention) -> (r: TickAck)
        ensures
            r.engine_id@ == engine_id@,
            r.hour == simulation_hour,
            r.counts == counts,
            r.locked_down == lockdown.is_locked_down,
    {
        TickAck { engine_id: engine_id.clone(), hour: simulation_hour, counts, locked_down: lockdown.is_locked_down }
    }

    /// Counts at the start: the starting infections as given, everyone else susceptible.
    pub fn counts_at_start(population: u32, start_infections: &StartingInfections) -> (r: Counts)
        requires
            start_infections.spec_total() <= population,
        ensures
            r == Counts::new_spec(
                (population - start_infections.spec_total()) as u32,
                start_infections.exposed,
                start_infections.spec_total_infected() as u32,
            ),
            r.total() == population,
    {
        let s = (population as u64 - start_infections.total()) as u32;
        let e = start_infections.get_exposed();
        let i = start_infections.total_infected() as u32;
        Counts::new(s, e, i)
    }

    /// Whether the run stops after an hour with `row`: when no case is active, except that
    /// a region of a multi-region run never stops by itself; a locked-down one then notes
    /// the hour instead.
    pub fn stop_simulation(lock_down_details: &mut LockdownIntervention, run_mode: &RunMode, row: Counts) -> (r: bool)
        ensures
            ({
                let zero_active_cases = row.exposed == 0 && row.infected == 0 && row.hospitalized == 0;
                match run_mode {
                    RunMode::MultiEngine { .. } => {
                        &&& !r
                        &&& *final(lock_down_details) == if old(lock_down_details).is_locked_down && zero_active_cases {
                            LockdownIntervention { zero_infection_hour: row.hour, ..*old(lock_down_details) }
                        } else {
                            *old(lock_down_details)
                        }
                    },
                    _ => r == zero_active_cases && *final(lock_down_details) == *old(lock_down_details),
                }
            }),
    {
        let zero_active_cases = row.get_exposed() == 0 && row.get_infected() == 0 && row.get_hospitalized() == 0;
        match run_mode {
            RunMode::MultiEngine { .. } => {
                if lock_down_details.is_locked_down && zero_active_cases {
                    lock_down_details.zero_infection_hour = row.get_hour();
                }
                false
            },
            _ => zero_active_cases,
        }
    }

    /// Whether a single-region city is to be locked down: more infected than the threshold.
    pub fn check_lock_down(counts: &Counts) -> (r: bool)
        ensures
            r == (counts.infected > CITY_LOCK_DOWN_THRESHOLD),
    {
        counts.get_infected() > CITY_LOCK_DOWN_THRESHOLD
    }

    /// Adds one citizen to the counter of its state.
    pub fn update_counts(counts_at_hr: &mut Counts, citizen: &Citizen)
        requires
            old(counts_at_hr).total() < u32::MAX,
        ensures
            final(counts_at_hr).hour == old(counts_at_hr).hour,
            final(counts_at_hr).total() == old(counts_at_hr).total() + 1,
            final(counts_at_hr).susceptible == old(counts_at_hr).susceptible + if crate::counts::category(*citizen) == 0 { 1int } else { 0 },
            final(counts_at_hr).exposed == old(counts_at_hr).exposed + if crate::counts::category(*citizen) == 1 { 1int } else { 0 },
            final(counts_at_hr).infected == old(counts_at_hr).infected + if crate::counts::category(*citizen) == 2 { 1int } else { 0 },
            final(counts_at_hr).hospitalized == old(counts_at_hr).hospitalized + if crate::counts::category(*citizen) == 3 { 1int } else { 0 },
            final(counts_at_hr).recovered == old(counts_at_hr).recovered + if crate::counts::category(*citizen) == 4 { 1int } else { 0 },
            final(counts_at_hr).deceased == old(counts_at_hr).deceased + if crate::counts::category(*citizen) == 5 { 1int } else { 0 },
    {
        Counts::update_counts(counts_at_hr, citizen);
    }

    /// Isolates every citizen who is not an essential worker.
    pub fn lock_city(hr: u32, write_buffer_reference: &mut AgentLocationMap)
        requires
            old(write_buffer_reference).wf(),
        ensures
            final(write_buffer_reference).wf(),
            final(write_buffer_reference).grid == old(write_buffer_reference).grid,
            final(write_buffer_reference).agents@.len() == old(write_buffer_reference).agents@.len(),
            forall|k: int|
                0 <= k < old(write_buffer_reference).agents@.len() ==> {
                    let a = old(write_buffer_reference).agents@[k];
                    #[trigger] final(write_buffer_reference).agents@[k] == if a.1.work_status
                        == crate::citizen::WorkStatus::Essential {
                        a
                    } else {
                        (a.0, Citizen { isolated: true, ..a.1 })
                    }
                },
    {
        let n = write_buffer_reference.agents.len();
        let mut k: usize = 0;
        while k < n
            invariant
                n == write_buffer_reference.agents@.len() == old(write_buffer_reference).agents@.len(),
                k <= n,
                write_buffer_reference.grid == old(write_buffer_reference).grid,
                forall|j: int|
                    0 <= j < n ==> {
                        let a = old(write_buffer_reference).agents@[j];
                        #[trigger] write_buffer_reference.agents@[j] == if j >= k || a.1.work_status
                            == crate::citizen::WorkStatus::Essential {
                            a
                        } else {
                            (a.0, Citizen { isolated: true, ..a.1 })
                        }
                    },
            decreases n - k,
        {
            if !write_buffer_reference.agents[k].1.is_essential_worker() {
                let mut citizen = write_buffer_reference.agents[k].1.copy();
                citizen.set_isolation(true);
                let p = write_buffer_reference.agents[k].0;
                write_buffer_reference.agents.set(k, (p, citizen));
            }
            k = k + 1;
        }
        proof {
            Self::lemma_same_cells_keep_wf(*old(write_buffer_reference), *write_buffer_reference);
        }
    }

    /// Lifts the isolation of every isolated citizen.
    pub fn unlock_city(hr: u32, write_buffer_reference: &mut AgentLocationMap)
        requires
            old(write_buffer_reference).wf(),
        ensures
            final(write_buffer_reference).wf(),
            final(write_buffer_reference).grid == old(write_buffer_reference).grid,
            final(write_buffer_reference).agents@.len() == old(write_buffer_reference).agents@.len(),
            forall|k: int|
                0 <= k < old(write_buffer_reference).agents@.len() ==> {
                    let a = old(write_buffer_reference).agents@[k];
                    #[trigger] final(write_buffer_reference).agents@[k] == (a.0, Citizen { isolated: false, ..a.1 })
                },
    {
        let n = write_buffer_reference.agents.len();
        let mut k: usize = 0;
        while k < n
            invariant
                n == write_buffer_reference.agents@.len() == old(write_buffer_reference).agents@.len(),
                k <= n,
                write_buffer_reference.grid == old(write_buffer_reference).grid,
                forall|j: int|
                    0 <= j < n ==> {
                        let a = old(write_buffer_reference).agents@[j];
                        #[trigger] write_buffer_reference.agents@[j] == if j >= k {
                            a
                        } else {
                            (a.0, Citizen { isolated: false, ..a.1 })
                        }
                    },
            decreases n - k,
        {
            let mut citizen = write_buffer_reference.agents[k].1.copy();
            if citizen.is_isolated() {
                citizen.set_isolation(false);
                let p = write_buffer_reference.agents[k].0;
                write_buffer_reference.agents.set(k, (p, citizen));
            }
            k = k + 1;
        }
        proof {
            Self::lemma_same_cells_keep_wf(*old(write_buffer_reference), *write_buffer_reference);
        }
    }

    /// Vaccinates each susceptible citizen with the given share (parts per million).
    pub fn vaccinate(vaccination_percentage: u32, write_buffer_reference: &mut AgentLocationMap, rng: &mut RandomWrapper)
        requires
            old(write_buffer_reference).wf(),
            vaccination_percentage <= PPM,
        ensures
            final(write_buffer_reference).wf(),
            final(write_buffer_reference).grid == old(write_buffer_reference).grid,
            final(write_buffer_reference).agents@.len() == old(write_buffer_reference).agents@.len(),
            forall|k: int|
                0 <= k < old(write_buffer_reference).agents@.len() ==> {
                    let a = old(write_buffer_reference).agents@[k];
                    let b = #[trigger] final(write_buffer_reference).agents@[k];
                    &&& b == a || (a.1.state_machine.state == State::Susceptible && b == (a.0, Citizen { vaccinated: true, ..a.1 }))
                    &&& vaccination_percentage == PPM && a.1.state_machine.state == State::Susceptible ==> b.1.vaccinated
                },
    {
        let n = write_buffer_reference.agents.len();
        let mut k: usize = 0;
        while k < n
            invariant
                n == write_buffer_reference.agents@.len() == old(write_buffer_reference).agents@.len(),
                k <= n,
                vaccination_percentage <= PPM,
                write_buffer_reference.grid == old(write_buffer_reference).grid,
                forall|j: int|
                    0 <= j < n ==> {
                        let a = old(write_buffer_reference).agents@[j];
                        let b = #[trigger] write_buffer_reference.agents@[j];
                        &&& j >= k ==> b == a
                        &&& b == a || (a.1.state_machine.state == State::Susceptible && b == (a.0, Citizen { vaccinated: true, ..a.1 }))
                        &&& j < k && vaccination_percentage == PPM && a.1.state_machine.state == State::Susceptible ==> b.1.vaccinated
                    },
            decreases n - k,
        {
            if write_buffer_reference.agents[k].1.state_machine.is_susceptible() && rng.gen_ratio(vaccination_percentage, PPM) {
                let mut citizen = write_buffer_reference.agents[k].1.copy();
                citizen.set_vaccination(true);
                let p = write_buffer_reference.agents[k].0;
                write_buffer_reference.agents.set(k, (p, citizen));
            }
            k = k + 1;
        }
        proof {
            Self::lemma_same_cells_keep_wf(*old(write_buffer_reference), *write_buffer_reference);
        }
    }

    proof fn lemma_same_cells_keep_wf(before: AgentLocationMap, after: AgentLocationMap)
        requires
            before.wf(),
            after.grid == before.grid,
            after.agents@.len() == before.agents@.len(),
            forall|k: int|
                0 <= k < before.agents@.len() ==> (#[trigger] after.agents@[k]).0 == before.agents@[k].0
                    && after.agents@[k].1.immunity == before.agents@[k].1.immunity,
        ensures
            after.wf(),
    {
        assert forall|i: int, j: int|
            0 <= i < after.agents@.len() && 0 <= j < after.agents@.len() && i != j implies (#[trigger] after.agents@[i]).0
                != (#[trigger] after.agents@[j]).0 by {
            assert(before.agents@[i].0 != before.agents@[j].0);
        }
        assert forall|k: int| 0 <= k < after.agents@.len() implies after.grid.spec_in_grid(#[trigger] after.agents@[k].0) by {
            assert(before.grid.spec_in_grid(before.agents@[k].0));
        }
        assert forall|k: int| 0 <= k < after.agents@.len() implies (#[trigger] after.agents@[k]).1.immunity_in_range() by {
            assert(before.agents@[k].1.immunity_in_range());
        }
    }

    /// Applies what is due after the hour of `counts`: each vaccination planned for that
    /// hour, and a lockdown once the infected count reaches the threshold of a region not
    /// yet locked down.
    pub fn apply_interventions(
        interventions: &mut Interventions,
        write_buffer_reference: &mut AgentLocationMap,
        counts: &Counts,
        rng: &mut RandomWrapper,
    ) -> (r: AppliedInterventions)
        requires
            old(write_buffer_reference).wf(),
            forall|k: int| 0 <= k < old(interventions).vaccinate@.len() ==> (#[trigger] old(interventions).vaccinate@[k]).percent <= PPM,
        ensures
            final(write_buffer_reference).wf(),
            final(write_buffer_reference).grid == old(write_buffer_reference).grid,
            final(write_buffer_reference).agents@.len() == old(write_buffer_reference).agents@.len(),
            final(interventions).vaccinate == old(interventions).vaccinate,
            same_categories(old(write_buffer_reference).agents@, final(write_buffer_reference).agents@),
            forall|k: int|
                0 <= k < old(write_buffer_reference).agents@.len() ==> intervened(
                    old(write_buffer_reference).agents@[k],
                    #[trigger] final(write_buffer_reference).agents@[k],
                    r.vaccinated,
                    r.locked_down,
                ),
            r.vaccinated == exists|k: int| 0 <= k < old(interventions).vaccinate@.len()
                && (#[trigger] old(interventions).vaccinate@[k]).at_hour == counts.hour,
            r.locked_down == (!old(interventions).lockdown.is_locked_down && match old(interventions).lockdown.at_number_of_infections {
                Some(threshold) => counts.infected >= threshold,
                None => false,
            }),
            final(interventions).lockdown == (LockdownIntervention {
                is_locked_down: old(interventions).lockdown.is_locked_down || r.locked_down,
                ..old(interventions).lockdown
            }),
    {
        let hour = counts.get_hour();
        let mut vaccinated = false;
        let mut k: usize = 0;
        while k < interventions.vaccinate.len()
            invariant
                write_buffer_reference.wf(),
                write_buffer_reference.grid == old(write_buffer_reference).grid,
                write_buffer_reference.agents@.len() == old(write_buffer_reference).agents@.len(),
                *interventions == *old(interventions),
                same_categories(old(write_buffer_reference).agents@, write_buffer_reference.agents@),
                forall|j: int|
                    0 <= j < old(write_buffer_reference).agents@.len() ==> intervened(
                        old(write_buffer_reference).agents@[j],
                        #[trigger] write_buffer_reference.agents@[j],
                        vaccinated,
                        false,
                    ),
                forall|k2: int| 0 <= k2 < interventions.vaccinate@.len() ==> (#[trigger] interventions.vaccinate@[k2]).percent <= PPM,
                k <= interventions.vaccinate@.len(),
                hour == counts.hour,
                vaccinated == exists|k2: int| 0 <= k2 < k && (#[trigger] interventions.vaccinate@[k2]).at_hour == hour,
            decreases interventions.vaccinate@.len() - k,
        {
            let v = interventions.vaccinate[k];
            let ghost before = write_buffer_reference.agents@;
            if Self::apply_vaccination_intervention(&v, counts, write_buffer_reference, rng) {
                vaccinated = true;
            }
            proof {
                assert forall|j: int| 0 <= j < old(write_buffer_reference).agents@.len() implies crate::counts::category(
                    (#[trigger] old(write_buffer_reference).agents@[j]).1,
                ) == crate::counts::category(write_buffer_reference.agents@[j].1) by {
                    assert(crate::counts::category(before[j].1) == crate::counts::category(write_buffer_reference.agents@[j].1));
                }
                assert forall|j: int| 0 <= j < old(write_buffer_reference).agents@.len() implies intervened(
                    old(write_buffer_reference).agents@[j],
                    #[trigger] write_buffer_reference.agents@[j],
                    vaccinated,
                    false,
                ) by {
                    assert(intervened(before[j], write_buffer_reference.agents@[j], vaccinated, false));
                }
            }
            proof {
                if !vaccinated {
                    assert forall|k2: int| 0 <= k2 < k + 1 implies (#[trigger] interventions.vaccinate@[k2]).at_hour != hour by {}
                } else {
                    if v.at_hour == hour {
                        assert(interventions.vaccinate@[k as int].at_hour == hour);
                    }
                }
            }
            k = k + 1;
        }
        let mut locked_down = false;
        if !interventions.lockdown.is_locked_down {
            if let Some(threshold) = interventions.lockdown.at_number_of_infections {
                if counts.get_infected() >= threshold {
                    let ghost before = write_buffer_reference.agents@;
                    Self::lock_city(hour, write_buffer_reference);
                    proof {
                        assert forall|j: int| 0 <= j < old(write_buffer_reference).agents@.len() implies crate::counts::category(
                            (#[trigger] old(write_buffer_reference).agents@[j]).1,
                        ) == crate::counts::category(write_buffer_reference.agents@[j].1) by {
                            assert(crate::counts::category(before[j].1) == crate::counts::category(write_buffer_reference.agents@[j].1));
                        }
                        assert forall|j: int| 0 <= j < old(write_buffer_reference).agents@.len() implies intervened(
                            old(write_buffer_reference).agents@[j],
                            #[trigger] write_buffer_reference.agents@[j],
                            vaccinated,
                            true,
                        ) by {
                            assert(intervened(old(write_buffer_reference).agents@[j], before[j], vaccinated, false));
                        }
                    }
                    interventions.lockdown.is_locked_down = true;
                    locked_down = true;
                }
            }
        }
        AppliedInterventions { vaccinated, locked_down }
    }

    /// Makes each normal worker an essential worker with the lockdown's essential share.
    pub fn assign_essential_workers(lockdown: &LockdownIntervention, write_buffer_reference: &mut AgentLocationMap, rng: &mut RandomWrapper)
        requires
            old(write_buffer_reference).wf(),
            lockdown.essential_workers_percentage <= PPM,
        ensures
            final(write_buffer_reference).wf(),
            final(write_buffer_reference).grid == old(write_buffer_reference).grid,
            final(write_buffer_reference).agents@.len() == old(write_buffer_reference).agents@.len(),
            forall|k: int|
                0 <= k < old(write_buffer_reference).agents@.len() ==> {
                    let a = old(write_buffer_reference).agents@[k];
                    let b = #[trigger] final(write_buffer_reference).agents@[k];
                    b == a || (a.1.work_status == crate::citizen::WorkStatus::Normal && b == (a.0, Citizen {
                        work_status: crate::citizen::WorkStatus::Essential,
                        ..a.1
                    }))
                },
    {
        let n = write_buffer_reference.agents.len();
        let mut k: usize = 0;
        while k < n
            invariant
                n == write_buffer_reference.agents@.len() == old(write_buffer_reference).agents@.len(),
                k <= n,
                lockdown.essential_workers_percentage <= PPM,
                write_buffer_reference.grid == old(write_buffer_reference).grid,
                forall|j: int|
                    0 <= j < n ==> {
                        let a = old(write_buffer_reference).agents@[j];
                        let b = #[trigger] write_buffer_reference.agents@[j];
                        &&& j >= k ==> b == a
                        &&& b == a || (a.1.work_status == crate::citizen::WorkStatus::Normal && b == (a.0, Citizen {
                            work_status: crate::citizen::WorkStatus::Essential,
                            ..a.1
                        }))
                    },
            decreases n - k,
        {
            let mut citizen = write_buffer_reference.agents[k].1.copy();
            citizen.assign_essential_worker(lockdown.essential_workers_percentage, rng);
            let p = write_buffer_reference.agents[k].0;
            write_buffer_reference.agents.set(k, (p, citizen));
            k = k + 1;
        }
        proof {
            Self::lemma_same_cells_keep_wf(*old(write_buffer_reference), *write_buffer_reference);
        }
    }

    /// Vaccinates with `vaccinations`' share when the hour of `counts` is its hour; returns
    /// whether it did.
    pub fn apply_vaccination_intervention(
        vaccinations: &VaccinateIntervention,
        counts: &Counts,
        write_buffer_reference: &mut AgentLocationMap,
        rng: &mut RandomWrapper,
    ) -> (r: bool)
        requires
            old(write_buffer_reference).wf(),
            vaccinations.percent <= PPM,
        ensures
            r == (vaccinations.at_hour == counts.hour),
            !r ==> *final(write_buffer_reference) == *old(write_buffer_reference),
            same_categories(old(write_buffer_reference).agents@, final(write_buffer_reference).agents@),
            forall|k: int|
                0 <= k < old(write_buffer_reference).agents@.len() ==> intervened(
                    old(write_buffer_reference).agents@[k],
                    #[trigger] final(write_buffer_reference).agents@[k],
                    r,
                    false,
                ),
            final(write_buffer_reference).wf(),
            final(write_buffer_reference).grid == old(write_buffer_reference).grid,
            final(write_buffer_reference).agents@.len() == old(write_buffer_reference).agents@.len(),
    {
        if vaccinations.at_hour == counts.get_hour() {
            Self::vaccinate(vaccinations.percent, write_buffer_reference, rng);
            proof {
                assert forall|k: int| 0 <= k < old(write_buffer_reference).agents@.len() implies crate::counts::category(
                    (#[trigger] old(write_buffer_reference).agents@[k]).1,
                ) == crate::counts::category(write_buffer_reference.agents@[k].1) by {
                    assert(write_buffer_reference.agents@[k] == write_buffer_reference.agents@[k]);
                }
                assert forall|k: int| 0 <= k < old(write_buffer_reference).agents@.len() implies intervened(
                    old(write_buffer_reference).agents@[k],
                    #[trigger] write_buffer_reference.agents@[k],
                    true,
                    false,
                ) by {
                    assert(write_buffer_reference.agents@[k] == write_buffer_reference.agents@[k]);
                }
            }
            true
        } else {
            false
        }
    }

    /// Runs hour `simulation_hour` of a region that exchanges no travellers: advances the
    /// counters' hour, simulates the hour, applies the interventions due, and decides
    /// whether the run stops.
    pub fn run_hour(
        &mut self,
        counts: &mut Counts,
        simulation_hour: u32,
        interventions: &mut Interventions,
        run_mode: &RunMode,
        rng: &mut RandomWrapper,
    ) -> (r: HourOutcome)
        requires
            old(self).agent_location_map.wf(),
            old(self).disease.wf(),
            old(counts).hour < u32::MAX,
            forall|k: int| 0 <= k < old(interventions).vaccinate@.len() ==> (#[trigger] old(interventions).vaccinate@[k]).percent <= PPM,
        ensures
            final(self).agent_location_map.wf(),
            final(self).disease == old(self).disease,
            final(self).agent_location_map.agents@.len() == old(self).agent_location_map.agents@.len(),
            final(counts).hour == old(counts).hour + 1,
            final(counts).tallies(final(self).agent_location_map.agents@),
            final(interventions).vaccinate == old(interventions).vaccinate,
            old(self).agent_location_map.no_active_cases() && run_mode is Standalone ==> r.stop,
            !old(self).agent_location_map.grid.hospital_area.is_nonempty() ==> forall|k: int|
                0 <= k < old(self).agent_location_map.agents@.len() && (#[trigger] final(self).agent_location_map.agents@[k]).1.hospitalized ==> old(self).agent_location_map.agents@[k].1.hospitalized,
            final(self).agent_location_map.grid == old(self).agent_location_map.grid,
            final(counts).total() == old(self).agent_location_map.agents@.len(),
            r.stop == (!(run_mode is MultiEngine) && final(counts).exposed == 0 && final(counts).infected == 0
                && final(counts).hospitalized == 0),
            r.applied.vaccinated == exists|k: int| 0 <= k < old(interventions).vaccinate@.len()
                && (#[trigger] old(interventions).vaccinate@[k]).at_hour == final(counts).hour,
            r.applied.locked_down == (!old(interventions).lockdown.is_locked_down && match old(interventions).lockdown.at_number_of_infections {
                Some(threshold) => final(counts).infected >= threshold,
                None => false,
            }),
            r.applied.locked_down ==> forall|k: int|
                0 <= k < final(self).agent_location_map.agents@.len() && (#[trigger] final(self).agent_location_map.agents@[k]).1.work_status
                    != crate::citizen::WorkStatus::Essential ==> final(self).agent_location_map.agents@[k].1.isolated,

    {
        counts.increment_hour();
        let mut outgoing_migrators: Vec<(Point, crate::travel::Migrator)> = Vec::new();
        let mut outgoing_commuters: Vec<(Point, crate::travel::Commuter)> = Vec::new();
        let infected_cells = self.agent_location_map.simulate(
            counts,
            simulation_hour,
            rng,
            &self.disease,
            0,
            &mut outgoing_migrators,
            &mut outgoing_commuters,
            &self.sim_id,
        );
        let ghost after_hour = self.agent_location_map;
        proof {
            if after_hour.no_active_cases() {
                crate::counts::lemma_no_active_cases_counts_zero(after_hour, *counts);
            }
        }
        let applied = Self::apply_interventions(interventions, &mut self.agent_location_map, counts, rng);
        proof {
            crate::counts::lemma_same_categories_tally(after_hour.agents@, self.agent_location_map.agents@, *counts);
            crate::counts::lemma_tally_total(*counts, self.agent_location_map.agents@);
        }
        let stop = Self::stop_simulation(&mut interventions.lockdown, run_mode, *counts);
        HourOutcome { infected_cells, applied, stop }
    }
}

} // verus!
