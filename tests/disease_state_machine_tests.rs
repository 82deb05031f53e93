use epirust::constants::PPM;
use epirust::disease::Disease;
use epirust::disease_state_machine::{DiseaseStateMachine, InfectionSeverity, State};
use epirust::random_wrapper::RandomWrapper;

fn test_disease() -> Disease {
    // 0.025, 0.25, 0.02, 0.3, 0.3 as parts per million
    Disease::new(10, 20, 40, 9, 12, 25_000, 250_000, 20_000, 300_000, 300_000, 24, 24)
}

#[test]
fn should_initialize() {
    let machine = DiseaseStateMachine::new();

    let result = matches!(machine.state, State::Susceptible {});
    assert!(result);
    assert_eq!(machine.get_infection_day(), 0);
}

#[test]
fn should_infect() {
    let mut machine = DiseaseStateMachine::new();
    let disease = test_disease();
    machine.expose(100);
    machine.infect(&mut RandomWrapper::new(), 140, &disease);

    let result = matches!(
        machine.state,
        State::Infected { symptoms: false, severity: InfectionSeverity::Mild {} }
            | State::Infected { symptoms: true, severity: InfectionSeverity::Pre { at_hour: 140 } }
    );

    assert!(result);
}

#[test]
fn should_not_infect() {
    let mut machine = DiseaseStateMachine::new();
    let disease = test_disease();

    machine.expose(100);
    machine.infect(&mut RandomWrapper::new(), 110, &disease);

    let result = matches!(machine.state, State::Exposed { .. });

    assert!(result);
}

#[test]
fn should_change_infection_severity() {
    let mut machine = DiseaseStateMachine::new();
    let disease = test_disease();
    let mut rng = RandomWrapper::new();

    machine.state = State::Infected { symptoms: true, severity: InfectionSeverity::Pre { at_hour: 100 } };

    machine.change_infection_severity(140, &mut rng, &disease);

    let result = match machine.state {
        State::Infected { symptoms: true, severity } => !matches!(severity, InfectionSeverity::Pre { .. }),
        _ => false,
    };

    assert!(result);
}

#[test]
fn should_not_change_infection_severity() {
    let mut machine = DiseaseStateMachine::new();
    let disease = test_disease();
    let mut rng = RandomWrapper::new();

    machine.state = State::Infected { symptoms: true, severity: InfectionSeverity::Pre { at_hour: 100 } };

    machine.change_infection_severity(120, &mut rng, &disease);

    let result = match machine.state {
        State::Infected { symptoms: true, severity } => matches!(severity, InfectionSeverity::Pre { at_hour: 100 }),
        _ => false,
    };

    assert!(result);
}

#[test]
fn should_check_if_pre_symptomatic() {
    let mut machine = DiseaseStateMachine::new();

    machine.state = State::Infected { symptoms: true, severity: InfectionSeverity::Pre { at_hour: 100 } };
    assert!(machine.is_pre_symptomatic());

    machine.state = State::Infected { symptoms: true, severity: InfectionSeverity::Mild {} };
    assert_eq!(machine.is_pre_symptomatic(), false);
}

#[test]
fn should_set_mild_asymptomatic() {
    let mut machine = DiseaseStateMachine::new();
    machine.set_mild_asymptomatic();
    assert_eq!(machine.state, State::Infected { symptoms: false, severity: InfectionSeverity::Mild });
    assert_eq!(machine.infection_day, 1);
}

#[test]
fn should_set_mild_symptomatic() {
    let mut machine = DiseaseStateMachine::new();
    machine.set_mild_symptomatic();
    assert_eq!(machine.state, State::Infected { symptoms: true, severity: InfectionSeverity::Mild });
    assert_eq!(machine.infection_day, 1);
}

#[test]
fn should_set_severe_infected() {
    let mut machine = DiseaseStateMachine::new();
    machine.set_severe_infected();
    assert_eq!(machine.state, State::Infected { symptoms: true, severity: InfectionSeverity::Severe });
    assert_eq!(machine.infection_day, 1);
}

#[test]
fn should_check_if_symptomatic() {
    let mut machine = DiseaseStateMachine::new();

    machine.state = State::Infected { symptoms: true, severity: InfectionSeverity::Mild };
    assert!(machine.is_symptomatic());

    machine.state = State::Infected { symptoms: true, severity: InfectionSeverity::Severe };
    assert!(machine.is_symptomatic());

    machine.state = State::Infected { symptoms: false, severity: InfectionSeverity::Mild };
    assert!(!machine.is_symptomatic());

    machine.state = State::Infected { symptoms: true, severity: InfectionSeverity::Pre { at_hour: 100 } };
    assert!(!machine.is_symptomatic());
}

#[test]
fn state_progression_runs_to_an_outcome() {
    // Exposed at hour 100 with a 24-hour exposure: infected by hour 140, past the
    // pre-symptomatic phase by hour 164, and ended on its last day.
    let disease = Disease::new(10, 20, 40, 9, 12, 25_000, 250_000, 20_000, 0, 0, 24, 24);
    let mut rng = RandomWrapper::new();
    let mut machine = DiseaseStateMachine::new();
    machine.expose(100);
    assert!(machine.infect(&mut rng, 140, &disease));
    assert_eq!(machine.state, State::Infected { symptoms: true, severity: InfectionSeverity::Pre { at_hour: 140 } });
    machine.change_infection_severity(164, &mut rng, &disease);
    assert_eq!(machine.state, State::Infected { symptoms: true, severity: InfectionSeverity::Mild });
    for _ in 0..11 {
        machine.increment_infection_day();
    }
    assert_eq!(machine.decease(&mut rng, &disease), (0, 0));
    machine.increment_infection_day();
    assert_eq!(machine.get_infection_day(), 12);
    assert_eq!(machine.decease(&mut rng, &disease), (0, 1));
    assert_eq!(machine.state, State::Recovered);
    assert_eq!(machine.get_infection_day(), 0);
}

#[test]
fn severe_case_dies_when_death_rate_is_certain() {
    let disease = Disease::new(10, 20, 3, 9, 12, 0, 0, PPM, 0, PPM, 24, 24);
    let mut rng = RandomWrapper::new();
    let mut machine = DiseaseStateMachine::new();
    machine.state = State::Infected { symptoms: true, severity: InfectionSeverity::Pre { at_hour: 0 } };
    machine.change_infection_severity(24, &mut rng, &disease);
    assert!(machine.is_infected_severe());
    machine.increment_infection_day();
    machine.increment_infection_day();
    machine.increment_infection_day();
    assert_eq!(machine.decease(&mut rng, &disease), (1, 0));
    assert!(machine.is_deceased());
}

#[test]
fn asymptomatic_case_recovers_on_day_nine() {
    let disease = test_disease();
    let mut rng = RandomWrapper::new();
    let mut machine = DiseaseStateMachine::new();
    machine.set_mild_asymptomatic();
    for _ in 0..8 {
        machine.increment_infection_day();
    }
    assert_eq!(machine.get_infection_day(), 9);
    assert_eq!(machine.decease(&mut rng, &disease), (0, 1));
}

#[test]
fn hospitalizes_severe_cases_on_high_transmission_days() {
    let disease = test_disease();
    let mut machine = DiseaseStateMachine::new();
    machine.set_severe_infected();
    for _ in 0..20 {
        machine.increment_infection_day();
    }
    // day 21 with immunity 0 lies in (20, 40]
    assert!(machine.hospitalize(&disease, 0));
    // immunity -2 shifts it to day 19, outside the window
    assert!(!machine.hospitalize(&disease, -2));
    let mut mild = DiseaseStateMachine::new();
    mild.set_mild_symptomatic();
    assert!(!mild.hospitalize(&disease, 25));
}

#[test]
fn certain_asymptomatic_share_gives_mild_asymptomatic() {
    let disease = Disease::new(10, 20, 40, 9, 12, 0, 0, 0, PPM, 0, 0, 0);
    let mut machine = DiseaseStateMachine::new();
    machine.expose(5);
    assert!(machine.infect(&mut RandomWrapper::new(), 100, &disease));
    assert!(machine.is_mild_asymptomatic());
}

#[test]
fn transmission_rate_curve() {
    let disease = test_disease();
    assert_eq!(disease.get_current_transmission_rate(10), 0);
    assert_eq!(disease.get_current_transmission_rate(11), 25_000);
    assert_eq!(disease.get_current_transmission_rate(20), 25_000);
    assert_eq!(disease.get_current_transmission_rate(21), 250_000);
    assert_eq!(disease.get_current_transmission_rate(40), 250_000);
    assert_eq!(disease.get_current_transmission_rate(41), 0);
    assert_eq!(disease.get_current_transmission_rate(-3), 0);
}
