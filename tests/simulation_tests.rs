use epirust::allocation_map::{AgentLocationMap, AssimilationError};
use epirust::citizen::{bool_from_string, citizen_factory, set_starting_infections, Citizen, StartingInfections, WorkStatus};
use epirust::constants::{PPM, ROUTINE_TRAVEL_END_TIME, ROUTINE_TRAVEL_START_TIME};
use epirust::counts::Counts;
use epirust::disease::Disease;
use epirust::disease_state_machine::{DiseaseStateMachine, InfectionSeverity, State};
use epirust::epidemiology_simulation::{
    AppliedInterventions, AutoPopulation, BuildNewHospital, Config, Epidemiology, InitError, Interventions, LockdownIntervention,
    Population, RunMode, Tick, TickDecision, VaccinateIntervention,
};
use epirust::geography::{define_geography, Area, Grid, Point};
use epirust::random_wrapper::RandomWrapper;
use epirust::travel::{CommutePlan, CommutersByRegion, Migrator};

fn quiet_disease() -> Disease {
    Disease::new(0, 0, 0, 0, 0, 0, 0, 0, 0, 0, 0, 0)
}

fn citizen(home: &Area, work: &Area, rng: &mut RandomWrapper) -> Citizen {
    Citizen::new(home.clone(), work.clone(), Point::new(0, 0), false, false, WorkStatus::NA, rng)
}

#[test]
fn epidemiology_simulation_should_init() {
    let pop = AutoPopulation { number_of_agents: 10, public_transport_percentage: PPM, working_percentage: PPM };
    let config = Config {
        population: Population::Auto(pop),
        disease: quiet_disease(),
        grid_size: 100,
        hospital_beds_percentage: 3000,
        starting_infections: StartingInfections::new(0, 0, 0, 0),
        hours: 5000,
    };
    let sim_id = "standalone".to_string();
    let epidemiology = Epidemiology::new(&config, None, sim_id.clone()).unwrap();
    let grid = &epidemiology.agent_location_map.grid;
    assert_eq!(grid.housing_area, Area::new(sim_id.clone(), Point::new(0, 0), Point::new(39, 100)));
    assert_eq!(grid.transport_area, Area::new(sim_id.clone(), Point::new(40, 0), Point::new(59, 100)));
    assert_eq!(grid.work_area, Area::new(sim_id.clone(), Point::new(60, 0), Point::new(79, 100)));
    assert_eq!(grid.hospital_area, Area::new(sim_id.clone(), Point::new(80, 0), Point::new(89, 0)));
    assert_eq!(epidemiology.agent_location_map.current_population(), 10);
}

#[test]
fn generate_citizen() {
    let mut rng = RandomWrapper::new();
    let engine_id = "engine1".to_string();
    let home_locations = vec![
        Area::new(engine_id.clone(), Point::new(0, 0), Point::new(2, 2)),
        Area::new(engine_id.clone(), Point::new(3, 0), Point::new(4, 2)),
    ];
    let work_locations = vec![
        Area::new(engine_id.clone(), Point::new(5, 0), Point::new(6, 2)),
        Area::new(engine_id.clone(), Point::new(7, 0), Point::new(8, 2)),
    ];
    let public_transport_location = vec![Point::new(5, 0), Point::new(5, 1), Point::new(5, 2), Point::new(5, 3)];
    let start_infections = StartingInfections::new(0, 0, 0, 1);
    let citizen_list = citizen_factory(4, &home_locations, &work_locations, &public_transport_location, 500_000,
        500_000, &mut rng, &start_infections);

    assert_eq!(citizen_list.len(), 4);
    assert_eq!(citizen_list.iter().filter(|c| c.is_exposed()).count(), 1);
    for citizen in &citizen_list {
        assert!(home_locations.contains(&citizen.home_location));
    }
}

#[test]
fn should_set_starting_infections() {
    let engine_id = "engine1".to_string();
    let home_location = Area::new(engine_id.clone(), Point::new(0, 0), Point::new(10, 10));
    let work_location = Area::new(engine_id.clone(), Point::new(11, 0), Point::new(20, 20));
    let mut citizens = Vec::new();
    let mut rng = RandomWrapper::new();
    for _i in 0..20 {
        let citizen = Citizen::new(home_location.clone(), work_location.clone(), Point::new(2, 2), false, true,
            WorkStatus::Normal, &mut rng);
        citizens.push(citizen);
    }

    let start_infections = StartingInfections::new(2, 3, 4, 5);
    set_starting_infections(&mut citizens, &start_infections, &mut rng);

    let actual_exposed = citizens.iter().filter(|citizen| citizen.is_exposed()).count();
    let actual_mild_asymp = citizens.iter().filter(|citizen| citizen.is_mild_asymptomatic()).count();
    let actual_mild_symp = citizens.iter().filter(|citizen| citizen.is_mild_symptomatic()).count();
    let actual_severe = citizens.iter().filter(|citizen| citizen.is_infected_severe()).count();

    assert_eq!(2, actual_mild_asymp);
    assert_eq!(3, actual_mild_symp);
    assert_eq!(4, actual_severe);
    assert_eq!(5, actual_exposed);
}

#[test]
fn new_citizens_have_immunity_in_range() {
    let mut rng = RandomWrapper::new();
    let home = Area::new("r".to_string(), Point::new(0, 0), Point::new(3, 3));
    for _ in 0..100 {
        let c = citizen(&home, &home, &mut rng);
        assert!((-2..=2).contains(&c.get_immunity()));
        assert!(c.state_machine.is_susceptible());
    }
}

/// A one-row area of two cells, an infected neighbor that always transmits, and a
/// susceptible citizen that stays put.
#[test]
fn neighbor_transmission_exposes_susceptible() {
    let mut rng = RandomWrapper::new();
    let grid = define_geography(100, "r".to_string());
    let strip = Area::new("r".to_string(), Point::new(0, 0), Point::new(1, 0));
    let disease = Disease::new(0, 100, 200, 9, 12, PPM, PPM, 0, 0, 0, 1000, 1000);
    let mut sick = citizen(&strip, &strip, &mut rng);
    sick.immunity = 0;
    sick.state_machine.set_mild_symptomatic();
    let healthy = citizen(&strip, &strip, &mut rng);
    let mut map = AgentLocationMap::new(grid, vec![(Point::new(0, 0), sick), (Point::new(1, 0), healthy)]).unwrap();
    let mut counts = Counts::new(1, 0, 1);
    let mut migrators = Vec::new();
    let mut commuters = Vec::new();
    map.simulate(&mut counts, 11, &mut rng, &disease, 0, &mut migrators, &mut commuters, &"r".to_string());
    let exposed = &map.agents[1];
    assert_eq!(exposed.0, Point::new(1, 0));
    assert_eq!(exposed.1.state_machine.state, State::Exposed { at_hour: 11 });
    assert_eq!(counts.get_exposed(), 1);
    assert_eq!(counts.get_infected(), 1);
    assert_eq!(counts.get_susceptible(), 0);
}

#[test]
fn no_infection_without_infected_citizens() {
    let mut rng = RandomWrapper::new();
    let grid = define_geography(20, "r".to_string());
    let home = grid.housing_area.clone();
    let disease = Disease::new(0, 100, 200, 9, 12, PPM, PPM, 0, 0, 0, 0, 0);
    let mut agents = Vec::new();
    for i in 0..6 {
        agents.push((Point::new(i, 0), citizen(&home, &home, &mut rng)));
    }
    let mut map = AgentLocationMap::new(grid, agents).unwrap();
    let mut counts = Counts::new(6, 0, 0);
    let mut lockdown = LockdownIntervention { at_number_of_infections: None, is_locked_down: false, zero_infection_hour: 0, essential_workers_percentage: 0 };
    for hour in 1..50 {
        let mut migrators = Vec::new();
        let mut commuters = Vec::new();
        map.simulate(&mut counts, hour, &mut rng, &disease, 0, &mut migrators, &mut commuters, &"r".to_string());
        assert_eq!(counts.get_susceptible(), 6);
        assert!(Epidemiology::stop_simulation(&mut lockdown, &RunMode::Standalone, counts));
    }
}

#[test]
fn simulate_keeps_one_citizen_per_cell() {
    let mut rng = RandomWrapper::new();
    let grid = define_geography(10, "r".to_string());
    let home = grid.housing_area.clone();
    let disease = Disease::new(0, 2, 5, 9, 12, 500_000, 900_000, 100_000, 300_000, 300_000, 3, 3);
    let mut agents = Vec::new();
    for x in 0..4 {
        for y in 0..10 {
            agents.push((Point::new(x, y), citizen(&home, &home, &mut rng)));
        }
    }
    agents[0].1.state_machine.set_mild_asymptomatic();
    let mut map = AgentLocationMap::new(grid, agents).unwrap();
    let mut counts = Counts::new(39, 0, 1);
    for hour in 1..100 {
        let mut migrators = Vec::new();
        let mut commuters = Vec::new();
        map.simulate(&mut counts, hour, &mut rng, &disease, 0, &mut migrators, &mut commuters, &"r".to_string());
        let mut cells: Vec<Point> = map.agents.iter().map(|a| a.0).collect();
        cells.sort_by_key(|p| (p.x, p.y));
        cells.dedup();
        assert_eq!(cells.len(), 40);
        let total = counts.get_susceptible() + counts.get_exposed() + counts.get_infected()
            + counts.get_hospitalized() + counts.get_recovered() + counts.get_deceased();
        assert_eq!(total, 40);
    }
}

#[test]
fn commute_bucketing_follows_the_hour() {
    let mut rng = RandomWrapper::new();
    let home = Area::new("engine1".to_string(), Point::new(0, 0), Point::new(3, 3));
    let work = Area::new("engine2".to_string(), Point::new(4, 0), Point::new(6, 3));
    let traveller = Citizen::new(home, work, Point::new(0, 0), false, true, WorkStatus::Normal, &mut rng);
    let commuters = vec![(Point::new(1, 1), traveller.to_commuter())];
    let regions = vec!["engine1".to_string(), "engine2".to_string()];

    let morning = CommutersByRegion::get_commuters_by_region(&regions, &commuters, 24 + ROUTINE_TRAVEL_START_TIME);
    assert_eq!(morning.len(), 2);
    assert_eq!(morning[0].to_engine_id(), "engine1");
    assert_eq!(morning[0].commuters.len(), 0);
    assert_eq!(morning[1].to_engine_id(), "engine2");
    assert_eq!(morning[1].commuters.len(), 1);
    assert_eq!(morning[1].commuters[0].id, traveller.id);

    let evening = CommutersByRegion::get_commuters_by_region(&regions, &commuters, 24 + ROUTINE_TRAVEL_END_TIME);
    assert_eq!(evening[0].commuters.len(), 1);
    assert_eq!(evening[1].commuters.len(), 0);
    let noon = CommutersByRegion::get_commuters_by_region(&regions, &commuters, 12);
    assert_eq!(noon[0].commuters.len() + noon[1].commuters.len(), 0);
}

fn nearly_full_map(rng: &mut RandomWrapper) -> AgentLocationMap {
    // housing area of a 10-cell grid is (0,0)-(3,10): 44 cells; leave two free
    let grid = define_geography(10, "r".to_string());
    let home = grid.housing_area.clone();
    let mut agents = Vec::new();
    for x in 0..4 {
        for y in 0..11 {
            if (x, y) != (3, 9) && (x, y) != (3, 10) {
                agents.push((Point::new(x, y), citizen(&home, &home, rng)));
            }
        }
    }
    AgentLocationMap::new(grid, agents).unwrap()
}

fn migrator(id: u128) -> Migrator {
    Migrator { id, immunity: 1, vaccinated: false, uses_public_transport: false, state_machine: DiseaseStateMachine::new() }
}

#[test]
fn migrators_fill_the_free_housing_cells() {
    let mut rng = RandomWrapper::new();
    let mut map = nearly_full_map(&mut rng);
    let mut counts = Counts::new(0, 0, 0);
    assert_eq!(map.assimilate_migrators(&vec![migrator(1), migrator(2)], &mut counts, &mut rng), Ok(()));
    assert_eq!(map.current_population(), 44);
    assert_eq!(counts.get_susceptible(), 44);
    let placed: Vec<Point> = map.agents[42..].iter().map(|a| a.0).collect();
    assert!(placed.contains(&Point::new(3, 9)) && placed.contains(&Point::new(3, 10)));
}

#[test]
fn a_third_migrator_finds_no_cell() {
    let mut rng = RandomWrapper::new();
    let mut map = nearly_full_map(&mut rng);
    let mut counts = Counts::new(0, 0, 0);
    let result = map.assimilate_migrators(&vec![migrator(1), migrator(2), migrator(3)], &mut counts, &mut rng);
    assert_eq!(result, Err(AssimilationError::NoVacantCell));
    assert_eq!(map.current_population(), 44);
}

#[test]
fn migrator_with_foreign_immunity_is_refused() {
    let mut rng = RandomWrapper::new();
    let mut map = nearly_full_map(&mut rng);
    let mut counts = Counts::new(0, 0, 0);
    let mut odd = migrator(7);
    odd.immunity = 9;
    assert_eq!(map.assimilate_migrators(&vec![odd], &mut counts, &mut rng), Err(AssimilationError::InvalidImmunity));
    assert_eq!(map.current_population(), 42);
}

#[test]
fn migrator_round_trip_keeps_its_fields() {
    let mut m = migrator(42);
    m.vaccinated = true;
    m.state_machine.set_severe_infected();
    let home = Area::new("r".to_string(), Point::new(0, 0), Point::new(1, 1));
    let c = Citizen::from_migrator(&m, home.clone(), home.clone(), Point::new(1, 1), home);
    assert_eq!(c.to_migrator(), m);
}

#[test]
fn removing_migrators_frees_their_cells() {
    let mut rng = RandomWrapper::new();
    let mut map = nearly_full_map(&mut rng);
    let mut counts = Counts::new(0, 0, 0);
    let leaving = vec![(Point::new(0, 0), map.agents[0].1.to_migrator()), (Point::new(1, 1), map.agents[12].1.to_migrator())];
    map.remove_migrators(&leaving, &mut counts);
    assert_eq!(map.current_population(), 40);
    assert!(map.is_cell_vacant(&Point::new(0, 0)));
    assert!(map.is_cell_vacant(&Point::new(1, 1)));
    assert_eq!(counts.get_susceptible(), 40);
}

#[test]
fn lockdown_isolates_all_but_essential_workers() {
    let mut rng = RandomWrapper::new();
    let grid = define_geography(20, "r".to_string());
    let home = grid.housing_area.clone();
    let mut essential = citizen(&home, &home, &mut rng);
    essential.work_status = WorkStatus::Essential;
    let other = citizen(&home, &home, &mut rng);
    let mut map = AgentLocationMap::new(grid, vec![(Point::new(0, 0), essential), (Point::new(1, 0), other)]).unwrap();
    Epidemiology::lock_city(5, &mut map);
    assert!(!map.agents[0].1.is_isolated());
    assert!(map.agents[1].1.is_isolated());
    assert!(!map.agents[1].1.can_move());
    Epidemiology::unlock_city(6, &mut map);
    assert!(!map.agents[1].1.is_isolated());
}

#[test]
fn certain_vaccination_reaches_every_susceptible() {
    let mut rng = RandomWrapper::new();
    let grid = define_geography(20, "r".to_string());
    let home = grid.housing_area.clone();
    let mut sick = citizen(&home, &home, &mut rng);
    sick.state_machine.set_mild_symptomatic();
    let healthy = citizen(&home, &home, &mut rng);
    let mut map = AgentLocationMap::new(grid, vec![(Point::new(0, 0), sick), (Point::new(1, 0), healthy)]).unwrap();
    Epidemiology::vaccinate(PPM, &mut map, &mut rng);
    assert!(!map.agents[0].1.is_vaccinated());
    assert!(map.agents[1].1.is_vaccinated());
}

#[test]
fn map_refuses_shared_cells() {
    let mut rng = RandomWrapper::new();
    let grid = define_geography(20, "r".to_string());
    let home = grid.housing_area.clone();
    let agents = vec![(Point::new(0, 0), citizen(&home, &home, &mut rng)), (Point::new(0, 0), citizen(&home, &home, &mut rng))];
    assert!(AgentLocationMap::new(grid, agents).is_none());
}

#[test]
fn hospital_takes_first_free_cell() {
    let mut rng = RandomWrapper::new();
    let mut grid: Grid = define_geography(100, "r".to_string());
    grid.resize_hospital(10, 5000, "r".to_string());
    let home = grid.housing_area.clone();
    let map = AgentLocationMap::new(grid, vec![(Point::new(80, 0), citizen(&home, &home, &mut rng))]).unwrap();
    assert_eq!(map.goto_hospital(Point::new(1, 1)), (true, Point::new(81, 0)));
}

#[test]
fn counts_at_start_split_the_population() {
    let counts = Epidemiology::counts_at_start(100, &StartingInfections::new(1, 2, 3, 4));
    assert_eq!(counts.get_susceptible(), 90);
    assert_eq!(counts.get_exposed(), 4);
    assert_eq!(counts.get_infected(), 6);
}

#[test]
fn multi_engine_never_stops_by_itself() {
    let mut lockdown = LockdownIntervention { at_number_of_infections: Some(5), is_locked_down: true, zero_infection_hour: 0, essential_workers_percentage: 0 };
    let mut counts = Counts::new(10, 0, 0);
    counts.increment_hour();
    let mode = RunMode::MultiEngine { engine_id: "engine1".to_string() };
    assert!(!Epidemiology::stop_simulation(&mut lockdown, &mode, counts));
    assert_eq!(lockdown.zero_infection_hour, 1);
    assert!(Epidemiology::check_lock_down(&Counts::new(0, 0, 101)));
    assert!(!Epidemiology::check_lock_down(&Counts::new(0, 0, 100)));
}

#[test]
fn ticks_for_earlier_hours_are_discarded() {
    assert_eq!(Epidemiology::receive_tick(24, Tick { hour: 23, terminate: false }), TickDecision::Discard);
    assert_eq!(Epidemiology::receive_tick(24, Tick { hour: 23, terminate: true }), TickDecision::Discard);
    assert_eq!(Epidemiology::receive_tick(24, Tick { hour: 24, terminate: false }), TickDecision::Proceed);
    assert_eq!(Epidemiology::receive_tick(24, Tick { hour: 24, terminate: true }), TickDecision::Terminate);
    assert_eq!(Epidemiology::receive_tick(24, Tick { hour: 25, terminate: false }), TickDecision::OutOfStep);
    assert!(Epidemiology::needs_tick(24, false, true));
    assert!(!Epidemiology::needs_tick(24, true, false));
    assert!(Epidemiology::needs_tick(ROUTINE_TRAVEL_START_TIME, true, false));
    assert!(Epidemiology::needs_ack(1, false, false));
    assert!(!Epidemiology::needs_ack(2, true, true));
}

#[test]
fn severe_case_is_admitted_to_hospital() {
    let mut rng = RandomWrapper::new();
    let mut grid = define_geography(100, "r".to_string());
    grid.resize_hospital(10, 5000, "r".to_string());
    let home = grid.housing_area.clone();
    let disease = Disease::new(0, 0, 100, 9, 12, 0, 0, 0, 0, 0, 0, 0);
    let mut patient = citizen(&home, &home, &mut rng);
    patient.immunity = 0;
    patient.state_machine.set_severe_infected();
    let mut map = AgentLocationMap::new(grid, vec![(Point::new(5, 5), patient)]).unwrap();
    let mut counts = Counts::new(0, 0, 1);
    let mut migrators = Vec::new();
    let mut commuters = Vec::new();
    map.simulate(&mut counts, 24, &mut rng, &disease, 0, &mut migrators, &mut commuters, &"r".to_string());
    assert!(map.agents[0].1.is_hospitalized());
    assert_eq!(map.agents[0].0, Point::new(80, 0));
    assert_eq!(counts.get_hospitalized(), 1);
    assert_eq!(map.agents[0].1.state_machine.state, State::Infected { symptoms: true, severity: InfectionSeverity::Severe });
}

#[test]
fn interventions_fire_at_their_hour_and_threshold() {
    let mut rng = RandomWrapper::new();
    let grid = define_geography(20, "r".to_string());
    let home = grid.housing_area.clone();
    let healthy = citizen(&home, &home, &mut rng);
    let mut map = AgentLocationMap::new(grid, vec![(Point::new(0, 0), healthy)]).unwrap();
    let mut interventions = Interventions {
        vaccinate: vec![VaccinateIntervention { at_hour: 3, percent: PPM }],
        lockdown: LockdownIntervention { at_number_of_infections: Some(2), is_locked_down: false, zero_infection_hour: 0, essential_workers_percentage: 0 },
        build_new_hospital: BuildNewHospital { spread_rate_threshold: 100 },
    };
    let mut counts = Counts::new(1, 0, 1);
    counts.increment_hour();
    let applied = Epidemiology::apply_interventions(&mut interventions, &mut map, &counts, &mut rng);
    assert_eq!(applied, AppliedInterventions { vaccinated: false, locked_down: false });
    counts.increment_hour();
    counts.increment_hour();
    let applied = Epidemiology::apply_interventions(&mut interventions, &mut map, &counts, &mut rng);
    assert_eq!(applied, AppliedInterventions { vaccinated: true, locked_down: false });
    assert!(map.agents[0].1.is_vaccinated());
    let applied = Epidemiology::apply_interventions(&mut interventions, &mut map, &Counts::new(0, 0, 2), &mut rng);
    assert_eq!(applied, AppliedInterventions { vaccinated: false, locked_down: true });
    assert!(interventions.lockdown.is_locked_down);
    assert!(map.agents[0].1.is_isolated());
    let applied = Epidemiology::apply_interventions(&mut interventions, &mut map, &Counts::new(0, 0, 5), &mut rng);
    assert!(!applied.locked_down);
}

#[test]
fn locked_down_citizens_stay_home_or_in_hospital() {
    let mut rng = RandomWrapper::new();
    let grid = define_geography(20, "r".to_string());
    let house = Area::new("r".to_string(), Point::new(0, 0), Point::new(3, 3));
    let office = grid.work_area.clone();
    let disease = Disease::new(0, 2, 6, 9, 12, 800_000, 900_000, 0, 0, 500_000, 2, 2);
    let mut agents = Vec::new();
    for x in 0..4 {
        for y in 0..2 {
            let mut c = Citizen::new(house.clone(), office.clone(), Point::new(0, 0), false, true, WorkStatus::Normal, &mut rng);
            if x == 0 && y == 0 {
                c.state_machine.set_mild_asymptomatic();
            }
            agents.push((Point::new(x, y), c));
        }
    }
    let mut map = AgentLocationMap::new(grid, agents).unwrap();
    Epidemiology::lock_city(0, &mut map);
    let mut counts = Counts::new(7, 0, 1);
    for hour in 1..200 {
        let mut migrators = Vec::new();
        let mut commuters = Vec::new();
        map.simulate(&mut counts, hour, &mut rng, &disease, 0, &mut migrators, &mut commuters, &"r".to_string());
        for (cell, c) in &map.agents {
            assert!(c.is_isolated());
            assert!(c.home_location.contains(cell) || map.grid.hospital_area.contains(cell));
        }
    }
}

#[test]
fn standalone_run_without_infections_stops_at_the_first_hour() {
    let pop = AutoPopulation { number_of_agents: 20, public_transport_percentage: 500_000, working_percentage: 500_000 };
    let config = Config {
        population: Population::Auto(pop),
        disease: Disease::new(10, 20, 40, 9, 12, 25_000, 250_000, 20_000, 300_000, 300_000, 24, 24),
        grid_size: 50,
        hospital_beds_percentage: 0,
        starting_infections: StartingInfections::new(0, 0, 0, 0),
        hours: 100,
    };
    let mut epidemiology = Epidemiology::new(&config, None, "standalone".to_string()).unwrap();
    let mut counts = Epidemiology::counts_at_start(20, &config.starting_infections);
    let mut interventions = Interventions {
        vaccinate: vec![],
        lockdown: LockdownIntervention { at_number_of_infections: None, is_locked_down: false, zero_infection_hour: 0, essential_workers_percentage: 0 },
        build_new_hospital: BuildNewHospital { spread_rate_threshold: 0 },
    };
    let mut rng = RandomWrapper::new();
    let outcome = epidemiology.run_hour(&mut counts, 1, &mut interventions, &RunMode::Standalone, &mut rng);
    assert!(outcome.stop);
    assert!(outcome.infected_cells.is_empty());
    assert_eq!(counts.get_hour(), 1);
    assert_eq!(counts.get_susceptible(), 20);
}

fn auto_config(number_of_agents: u32, grid_size: i32, beds: u32) -> Config {
    Config {
        population: Population::Auto(AutoPopulation { number_of_agents, public_transport_percentage: 0, working_percentage: PPM }),
        disease: quiet_disease(),
        grid_size,
        hospital_beds_percentage: beds,
        starting_infections: StartingInfections::new(0, 0, 0, 0),
        hours: 10,
    }
}

#[test]
fn set_up_fails_exactly_when_housing_is_too_small() {
    // a grid of 10 has a housing area of 4 by 11 cells
    assert!(Epidemiology::new(&auto_config(44, 10, 0), None, "r".to_string()).is_ok());
    assert_eq!(Epidemiology::new(&auto_config(45, 10, 0), None, "r".to_string()).err(), Some(InitError::NoSpace));
}

#[test]
fn set_up_assigns_commuters_from_the_plan() {
    let plan = CommutePlan {
        regions: vec!["r".to_string(), "s".to_string()],
        matrix: vec![vec![0, 3], vec![0, 0]],
    };
    let epidemiology = Epidemiology::new(&auto_config(10, 20, 0), Some(&plan), "r".to_string()).unwrap();
    let commuting = epidemiology.agent_location_map.agents.iter().filter(|a| a.1.work_location.location_id == "s").count();
    assert_eq!(commuting, 3);
}

#[test]
fn zero_beds_admit_no_one() {
    let mut rng = RandomWrapper::new();
    let mut epidemiology = Epidemiology::new(&auto_config(5, 100, 0), None, "r".to_string()).unwrap();
    assert_eq!(epidemiology.agent_location_map.grid.hospital_area.get_number_of_cells(), 0);
    let disease = Disease::new(0, 0, 100, 9, 12, 0, 0, 0, 0, 0, 0, 0);
    for (_, c) in epidemiology.agent_location_map.agents.iter_mut() {
        c.state_machine.set_severe_infected();
        c.immunity = 0;
    }
    let mut counts = Counts::new(0, 0, 5);
    let mut migrators = Vec::new();
    let mut commuters = Vec::new();
    epidemiology.agent_location_map.simulate(&mut counts, 24, &mut rng, &disease, 0, &mut migrators, &mut commuters, &"r".to_string());
    assert_eq!(counts.get_hospitalized(), 0);
    assert!(epidemiology.agent_location_map.agents.iter().all(|a| !a.1.is_hospitalized()));
}

#[test]
fn population_booleans_are_exact_spellings() {
    assert_eq!(bool_from_string(&"True".to_string()), Some(true));
    assert_eq!(bool_from_string(&"False".to_string()), Some(false));
    assert_eq!(bool_from_string(&"true".to_string()), None);
    assert_eq!(bool_from_string(&"".to_string()), None);
}

#[test]
fn travel_hours_follow_the_day() {
    assert_eq!(Epidemiology::travel_hours(48, true, true, true), (true, false));
    assert_eq!(Epidemiology::travel_hours(48, false, true, true), (false, false));
    assert_eq!(Epidemiology::travel_hours(ROUTINE_TRAVEL_END_TIME, true, true, true), (false, true));
    assert_eq!(Epidemiology::travel_hours(ROUTINE_TRAVEL_START_TIME, true, false, true), (false, false));
}
