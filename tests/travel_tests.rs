use epirust::citizen::{update_commuters, Citizen, WorkStatus};
use epirust::disease_state_machine::DiseaseStateMachine;
use epirust::geography::{Area, Point};
use epirust::random_wrapper::RandomWrapper;
use epirust::travel::{CommutePlan, EngineMigrationPlan, MigrationPlan, Migrator};

fn regions() -> Vec<String> {
    vec!["engine1".to_string(), "engine2".to_string(), "engine3".to_string()]
}

fn engine_plan(engine: &str, population: u32) -> EngineMigrationPlan {
    let plan = MigrationPlan::new(regions(), vec![vec![0, 2, 3], vec![1, 0, 0], vec![0, 0, 0]]);
    EngineMigrationPlan::new(engine.to_string(), Some(plan), population)
}

fn pool(n: u128) -> Vec<(Point, Migrator)> {
    (0..n)
        .map(|i| {
            (Point::new(i as i32, 0), Migrator {
                id: i,
                immunity: 0,
                vaccinated: false,
                uses_public_transport: false,
                state_machine: DiseaseStateMachine::new(),
            })
        })
        .collect()
}

#[test]
fn percent_outgoing_is_row_sum_over_population() {
    assert_eq!(engine_plan("engine1", 100).percent_outgoing(), 50_000);
    assert_eq!(engine_plan("engine2", 1000).percent_outgoing(), 1000);
    assert_eq!(engine_plan("engine3", 10).percent_outgoing(), 0);
    assert_eq!(engine_plan("engine1", 2).percent_outgoing(), 1_000_000);
    assert_eq!(engine_plan("engine9", 100).percent_outgoing(), 0);
}

#[test]
fn incoming_regions_are_counted_by_column() {
    assert_eq!(engine_plan("engine1", 10).incoming_regions_count(), 1);
    assert_eq!(engine_plan("engine2", 10).incoming_regions_count(), 1);
    assert_eq!(engine_plan("engine3", 10).incoming_regions_count(), 1);
    let commute = CommutePlan { regions: regions(), matrix: vec![vec![0, 5, 0], vec![4, 0, 0], vec![1, 0, 0]] };
    assert_eq!(commute.incoming_regions_count(&"engine1".to_string()), 2);
    assert_eq!(commute.incoming_regions_count(&"engine3".to_string()), 0);
}

#[test]
fn outgoing_pool_is_shared_by_row() {
    let plan = engine_plan("engine1", 100);
    let (buckets, actual) = plan.alloc_outgoing_to_regions(&pool(10));
    assert_eq!(buckets.len(), 2);
    assert_eq!(buckets[0].to_engine_id(), "engine2");
    assert_eq!(buckets[0].migrators.iter().map(|m| m.id).collect::<Vec<_>>(), vec![0, 1]);
    assert_eq!(buckets[1].to_engine_id(), "engine3");
    assert_eq!(buckets[1].migrators.iter().map(|m| m.id).collect::<Vec<_>>(), vec![2, 3, 4]);
    assert_eq!(actual.len(), 5);
}

#[test]
fn outgoing_pool_smaller_than_row_is_truncated() {
    let plan = engine_plan("engine1", 100);
    let (buckets, actual) = plan.alloc_outgoing_to_regions(&pool(3));
    assert_eq!(buckets[0].migrators.len(), 2);
    assert_eq!(buckets[1].migrators.len(), 1);
    assert_eq!(actual.len(), 3);
}

#[test]
fn commuters_are_assigned_to_other_regions() {
    let mut rng = RandomWrapper::new();
    let home = Area::new("engine1".to_string(), Point::new(0, 0), Point::new(3, 3));
    let work = Area::new("engine1".to_string(), Point::new(4, 0), Point::new(6, 3));
    let mut agents: Vec<Citizen> = (0..5)
        .map(|_| Citizen::new(home.clone(), work.clone(), Point::new(0, 0), false, true, WorkStatus::Normal, &mut rng))
        .collect();
    let commute = CommutePlan { regions: regions(), matrix: vec![vec![0, 2, 1], vec![0, 0, 0], vec![0, 0, 0]] };
    update_commuters(&mut agents, &commute, &"engine1".to_string());
    let ids: Vec<&str> = agents.iter().map(|a| a.work_location.location_id.as_str()).collect();
    assert_eq!(ids, vec!["engine2", "engine2", "engine3", "engine1", "engine1"]);
    assert_eq!(agents[0].work_location.start_offset, Point::new(4, 0));
}
