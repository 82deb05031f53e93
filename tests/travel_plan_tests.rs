use epirust::travel_plan::TravelPlan;

fn regions() -> Vec<String> {
    vec!["engine1".to_string(), "engine2".to_string(), "engine3".to_string()]
}

fn plan(lockdown_travellers: i32) -> TravelPlan {
    TravelPlan::new(regions(), vec![vec![0, 156, 10], vec![0, 0, 290], vec![90, 75, 0]], lockdown_travellers).unwrap()
}

fn status() -> Vec<(String, bool)> {
    vec![("engine1".to_string(), false), ("engine2".to_string(), true), ("engine3".to_string(), false)]
}

#[test]
fn should_validate_regions() {
    let travel_plan = plan(0);
    assert!(travel_plan.validate_regions(&["engine1".to_string(), "engine2".to_string(), "engine3".to_string()]));
    assert!(travel_plan.validate_regions(&["engine3".to_string(), "engine2".to_string(), "engine1".to_string()]));
    assert!(!travel_plan.validate_regions(&["engine3".to_string()]));
    assert!(!travel_plan.validate_regions(&[
        "engine1".to_string(),
        "engine2".to_string(),
        "engine3".to_string(),
        "engine4".to_string()
    ]));
}

#[test]
fn should_update_plan_with_lockdowns() {
    let travel_plan = plan(0);
    let new_travel_plan = travel_plan.update_with_lockdowns(&status());
    let expected_travel_plan = vec![vec![0, 0, 10], vec![0, 0, 0], vec![90, 0, 0]];
    assert_eq!(&expected_travel_plan, new_travel_plan.get_matrix());
}

#[test]
fn should_use_lockdown_travellers_value() {
    let travel_plan = plan(3);
    let new_travel_plan = travel_plan.update_with_lockdowns(&status());
    let expected_travel_plan = vec![vec![0, 3, 10], vec![0, 0, 3], vec![90, 3, 0]];
    assert_eq!(&expected_travel_plan, new_travel_plan.get_matrix());
}

#[test]
fn lockdown_applied_twice_changes_nothing_more() {
    let once = plan(3).update_with_lockdowns(&status());
    let twice = once.update_with_lockdowns(&status());
    assert_eq!(once.get_matrix(), twice.get_matrix());
    assert_eq!(once.get_regions(), twice.get_regions());
}

#[test]
fn lockdown_of_unknown_or_unlocked_regions_keeps_the_matrix() {
    let travel_plan = plan(3);
    let unchanged = travel_plan.update_with_lockdowns(&vec![("engine9".to_string(), true), ("engine1".to_string(), false)]);
    assert_eq!(travel_plan.get_matrix(), unchanged.get_matrix());
}

#[test]
fn plan_needs_a_square_matrix() {
    assert!(TravelPlan::new(regions(), vec![vec![0, 1, 2], vec![0, 0]], 0).is_none());
    assert!(TravelPlan::new(regions(), vec![vec![0, 1, 2]], 0).is_none());
}
