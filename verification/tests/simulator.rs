//! Tests of the transition rules, the day stepper, the run and batch
//! drivers, and the configuration validation, all through injected draws.
use epidemic_core::config::{Config, ConfigError, PROB_UNIT};
use epidemic_core::person::PersonModel;
use epidemic_core::population::PopulationModel;
use epidemic_core::random::DrawSource;
use epidemic_core::rules::{catch_or_not, die_or_not};
use epidemic_core::sim::{run_batch, run_simulation};
use epidemic_core::status::Status;
use epidemic_core::stepper::day_step;
use epidemic_core::generate_list;

const HALF: u64 = PROB_UNIT / 2;

fn config_for(num_people: u32, num_days: u32, tprob: u64, dprob: u64, threshold: u32) -> Config {
    Config::new(1, num_people, num_days, 0, 0, tprob, dprob, threshold).unwrap()
}

#[test]
fn test_catch_or_not_infected_in_group() {
    // One infected person among the encounters; the transmission draw
    // falls below the probability, so infection is acquired.
    let encounters = vec![Status::Susceptible, Status::Infected(2), Status::Vaccinated];
    let mut src = DrawSource::replay(vec![0]);
    let result = catch_or_not(Status::Susceptible, &encounters, HALF, &mut src);
    assert!(
        result == Status::Infected(1),
        "Expected infection when infected person is present."
    );
}

#[test]
fn test_catch_or_not_no_infected_in_group() {
    // No one among the encounters is infected: no draw is consumed and no
    // infection can be acquired.
    let encounters = vec![Status::Susceptible, Status::Recovered, Status::Vaccinated];
    let mut src = DrawSource::replay(vec![]);
    let result = catch_or_not(Status::Susceptible, &encounters, HALF, &mut src);
    assert!(
        result == Status::Susceptible,
        "Did not expect infection when no one is infected."
    );
}

#[test]
fn test_catch_or_not_tprob_zero() {
    let encounters = vec![Status::Susceptible, Status::Infected(3), Status::Vaccinated];
    let mut src = DrawSource::replay(vec![0]);
    let result = catch_or_not(Status::Susceptible, &encounters, 0, &mut src);
    assert!(
        result == Status::Susceptible,
        "Expected no infection with transmission probability of 0."
    );
}

#[test]
fn test_catch_or_not_tprob_one() {
    // Even the largest possible draw lies below a certain probability.
    let encounters = vec![Status::Susceptible, Status::Infected(1), Status::Vaccinated];
    let mut src = DrawSource::replay(vec![PROB_UNIT - 1]);
    let result = catch_or_not(Status::Susceptible, &encounters, PROB_UNIT, &mut src);
    assert!(
        result == Status::Infected(1),
        "Expected infection with transmission probability of 1.0."
    );
}

#[test]
fn test_die_or_not_death_occurs() {
    let mut src = DrawSource::replay(vec![PROB_UNIT - 1]);
    let result = die_or_not(Status::Infected(3), PROB_UNIT, 5, &mut src);
    assert_eq!(
        result,
        Status::Dead,
        "Expected person to die with high death probability."
    );
}

#[test]
fn test_die_or_not_person_recovers() {
    let mut src = DrawSource::replay(vec![0]);
    let result = die_or_not(Status::Infected(5), 0, 5, &mut src);
    assert_eq!(
        result,
        Status::Recovered,
        "Expected person to recover after 5 sick days."
    );
}

#[test]
fn test_die_or_not_person_stays_infected() {
    let mut src = DrawSource::replay(vec![0]);
    let result = die_or_not(Status::Infected(2), 0, 5, &mut src);
    assert_eq!(
        result,
        Status::Infected(3),
        "Expected person to stay infected with incremented days."
    );
}

#[test]
fn test_die_or_not_dead_stays_dead() {
    let mut src = DrawSource::replay(vec![0]);
    let result = die_or_not(Status::Dead, 0, 5, &mut src);
    assert_eq!(
        result,
        Status::Dead,
        "Expected dead person to remain dead."
    );
}

#[test]
fn test_generate_list_1() {
    let n = 5;
    let result = generate_list(n);
    assert_eq!(result, vec![0, 1, 2, 3, 4]);
}

#[test]
fn test_generate_list_2() {
    let n = 10;
    let result = generate_list(n);
    assert_eq!(result, vec![0, 1, 2, 3, 4, 5, 6, 7, 8, 9]);
}

#[test]
fn test_generate_list_3() {
    let n = 0;
    let result = generate_list(n);
    assert_eq!(result, vec![]);
}

#[test]
fn test_die_or_not_threshold_boundary() {
    // One day short of the threshold ages by exactly one; at the
    // threshold, with no death, the person recovers.
    let mut src = DrawSource::replay(vec![0, 0]);
    let below = die_or_not(Status::Infected(4), 0, 5, &mut src);
    assert_eq!(below, Status::Infected(5));
    let at = die_or_not(below, 0, 5, &mut src);
    assert_eq!(at, Status::Recovered);
}

#[test]
fn test_day_step_scenario_three_people() {
    // Susceptible, Infected(2), Vaccinated; certain transmission, no
    // death, threshold five. The draws make the susceptible individual
    // sample the infected one: next day it is Infected(1), the infection
    // ages to Infected(3), and the vaccinated individual is unchanged.
    let statuses = vec![Status::Susceptible, Status::Infected(2), Status::Vaccinated];
    let config = config_for(3, 1, PROB_UNIT, 0, 5);
    // Individual 0: one draw for the encounter count (1 of at most 2),
    // one pick (the infected individual), one transmission draw, one
    // same-day death draw. Individual 1: encounter count zero, one death
    // draw. Individual 2: encounter count zero.
    let mut src = DrawSource::replay(vec![1, 0, 0, 0, 0, 0, 0]);
    let next = day_step(&statuses, &config, &mut src);
    assert_eq!(
        next,
        vec![Status::Infected(1), Status::Infected(3), Status::Vaccinated]
    );
}

#[test]
fn test_day_step_single_infected_recovers() {
    // A lone Infected(5) with no death probability and threshold five
    // recovers the next day; there is no one to encounter.
    let statuses = vec![Status::Infected(5)];
    let config = config_for(1, 1, HALF, 0, 5);
    let mut src = DrawSource::replay(vec![0]);
    let next = day_step(&statuses, &config, &mut src);
    assert_eq!(next, vec![Status::Recovered]);
}

#[test]
fn test_day_step_dead_stays_dead() {
    // A lone dead individual remains dead for all subsequent days,
    // whatever the parameters.
    let mut statuses = vec![Status::Dead];
    let config = config_for(1, 1, PROB_UNIT, PROB_UNIT, 1);
    let mut src = DrawSource::replay(vec![]);
    for _ in 0..5 {
        statuses = day_step(&statuses, &config, &mut src);
        assert_eq!(statuses, vec![Status::Dead]);
    }
}

#[test]
fn test_day_step_certain_death() {
    // With a certain death probability every infected individual dies on
    // its next update, threshold or not.
    let statuses = vec![Status::Infected(1), Status::Infected(9), Status::Susceptible];
    let config = config_for(3, 1, 0, PROB_UNIT, 5);
    let mut src = DrawSource::replay(vec![0, 0, 0, 0, 0]);
    let next = day_step(&statuses, &config, &mut src);
    assert_eq!(next[0], Status::Dead);
    assert_eq!(next[1], Status::Dead);
    assert_eq!(next[2], Status::Susceptible);
}

#[test]
fn test_day_step_absorbing_statuses_unchanged() {
    let statuses = vec![
        Status::Dead,
        Status::Recovered,
        Status::Vaccinated,
        Status::Infected(1),
    ];
    let config = config_for(4, 1, PROB_UNIT, PROB_UNIT, 1);
    let mut src = DrawSource::replay(vec![]);
    let next = day_step(&statuses, &config, &mut src);
    assert_eq!(next[0], Status::Dead);
    assert_eq!(next[1], Status::Recovered);
    assert_eq!(next[2], Status::Vaccinated);
}

#[test]
fn test_config_rejects_probability_out_of_range() {
    let r = Config::new(1, 3, 2, PROB_UNIT + 1, 0, 0, 0, 5);
    assert_eq!(r.unwrap_err(), ConfigError::ProbabilityOutOfRange);
}

#[test]
fn test_config_rejects_zero_population() {
    let r = Config::new(1, 0, 2, 0, 0, 0, 0, 5);
    assert_eq!(r.unwrap_err(), ConfigError::ZeroPopulation);
}

#[test]
fn test_config_rejects_zero_recovery_threshold() {
    let r = Config::new(1, 3, 2, 0, 0, 0, 0, 0);
    assert_eq!(r.unwrap_err(), ConfigError::ZeroRecoveryThreshold);
}

#[test]
fn test_config_accepts_valid_parameters() {
    let c = Config::new(2, 5, 5, HALF, PROB_UNIT / 5, HALF, PROB_UNIT / 10, 5).unwrap();
    assert_eq!(c.num_people, 5);
    assert_eq!(c.recovery_threshold_days, 5);
}

#[test]
fn test_populate_fills_susceptible_people() {
    let config = config_for(4, 1, HALF, HALF, 5);
    let mut pop = PopulationModel::new(config);
    assert!(pop.populate());
    assert_eq!(pop.people.len(), 4);
    for (i, p) in pop.people.iter().enumerate() {
        assert_eq!(p.id, i as u32);
        assert_eq!(p.get_status(), Status::Susceptible);
    }
}

#[test]
fn test_person_to_string() {
    let p = PersonModel { id: 3, status: Status::Infected(2) };
    assert_eq!(p.to_string(), "Person ID: 3, Status: Infected(2)");
    let q = PersonModel::new(42);
    assert_eq!(q.to_string(), "Person ID: 42, Status: Susceptible");
    let d = PersonModel { id: 107, status: Status::Dead };
    assert_eq!(d.to_string(), "Person ID: 107, Status: Dead");
}

#[test]
fn test_run_simulation_emits_one_snapshot_per_day() {
    let config = Config::new(1, 3, 4, HALF, HALF, HALF, HALF, 5).unwrap();
    let mut src = DrawSource::replay(vec![1, 2, 3, 4, 5, 6, 7, 8, 9]);
    let days = run_simulation(&config, &mut src);
    assert_eq!(days.len(), 5);
    for day in &days {
        assert_eq!(day.len(), 3);
        for (i, p) in day.iter().enumerate() {
            assert_eq!(p.id, i as u32);
        }
    }
}

#[test]
fn test_run_simulation_deterministic_under_fixed_draws() {
    // Identical configuration and identical injected draws give
    // identical day-by-day snapshots.
    let config = Config::new(1, 4, 3, PROB_UNIT / 3, PROB_UNIT / 4, HALF, PROB_UNIT / 8, 3)
        .unwrap();
    let draws: Vec<u64> = (0..40u64).map(|i| (i * 97_000_001) % PROB_UNIT).collect();
    let mut src1 = DrawSource::replay(draws.clone());
    let mut src2 = DrawSource::replay(draws);
    let days1 = run_simulation(&config, &mut src1);
    let days2 = run_simulation(&config, &mut src2);
    assert_eq!(days1, days2);
}

#[test]
fn test_population_conservation_over_system_randomness() {
    // Over the thread-local generator: every emitted day still holds
    // exactly num_people individuals, and the five status counts sum to
    // the population size.
    let config = Config::new(1, 6, 5, HALF, PROB_UNIT / 5, HALF, PROB_UNIT / 10, 3).unwrap();
    let mut src = DrawSource::system();
    let days = run_simulation(&config, &mut src);
    assert_eq!(days.len(), 6);
    for day in &days {
        assert_eq!(day.len(), 6);
        let mut counts = [0usize; 5];
        for p in day {
            match p.get_status() {
                Status::Susceptible => counts[0] += 1,
                Status::Infected(d) => {
                    assert!(d >= 1);
                    counts[1] += 1;
                }
                Status::Recovered => counts[2] += 1,
                Status::Vaccinated => counts[3] += 1,
                Status::Dead => counts[4] += 1,
            }
        }
        assert_eq!(counts.iter().sum::<usize>(), 6);
    }
}

#[test]
fn test_absorbing_statuses_hold_across_emitted_days() {
    // Once a snapshot shows an individual Dead, Recovered or Vaccinated,
    // every later snapshot of the run shows the same status.
    let config = Config::new(1, 5, 6, HALF, PROB_UNIT / 3, PROB_UNIT, PROB_UNIT / 2, 2).unwrap();
    let mut src = DrawSource::system();
    let days = run_simulation(&config, &mut src);
    for t in 0..days.len() - 1 {
        for j in 0..days[t].len() {
            let s = days[t][j].get_status();
            if matches!(s, Status::Dead | Status::Recovered | Status::Vaccinated) {
                assert_eq!(days[t + 1][j].get_status(), s);
            }
        }
    }
}

#[test]
fn test_run_batch_runs_are_independent_in_shape() {
    let config = Config::new(3, 2, 2, HALF, HALF, HALF, HALF, 5).unwrap();
    let mut src = DrawSource::system();
    let runs = run_batch(&config, &mut src);
    assert_eq!(runs.len(), 3);
    for run in &runs {
        assert_eq!(run.len(), 3);
        for day in run {
            assert_eq!(day.len(), 2);
        }
    }
}

#[test]
fn test_system_source_draws_feed_the_stepper() {
    // The opaque source still drives a well-formed step: a susceptible
    // individual either stays susceptible, is freshly infected, or dies
    // of a fresh infection the same day.
    let statuses = vec![Status::Susceptible, Status::Infected(1)];
    let config = config_for(2, 1, HALF, HALF, 5);
    let mut src = DrawSource::system();
    let next = day_step(&statuses, &config, &mut src);
    assert_eq!(next.len(), 2);
    assert!(matches!(
        next[0],
        Status::Susceptible | Status::Infected(1) | Status::Dead
    ));
    assert!(matches!(next[1], Status::Dead | Status::Infected(2)));
}
