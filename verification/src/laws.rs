//! The library's general laws, stated over the mathematical model that the
//! executable functions are proved to follow.
use vstd::prelude::*;

use crate::config::Config;
use crate::sim::{spec_run, spec_run_days};
use crate::status::{
    count_dead, count_infected, count_recovered, count_susceptible, count_vaccinated, Status,
};
use crate::stepper::{spec_day_step, spec_day_step_from, spec_step_individual};

verus! {

/// One individual's whole-day transition leaves an absorbed (`Dead`,
/// `Recovered` or `Vaccinated`) status unchanged, whatever the draws.
pub proof fn lemma_step_individual_absorbing(
    statuses: Seq<Status>,
    i: int,
    config: Config,
    d: Seq<u64>,
)
    requires
        0 <= i < statuses.len(),
        statuses[i].is_absorbing(),
    ensures
        spec_step_individual(statuses, i, config, d).0 == statuses[i],
{
}

proof fn lemma_day_step_from_props(statuses: Seq<Status>, config: Config, i: int, d: Seq<u64>)
    requires
        0 <= i <= statuses.len(),
    ensures
        spec_day_step_from(statuses, config, i, d).0.len() == statuses.len() - i,
        forall|k: int|
            0 <= k < statuses.len() - i && statuses[i + k].is_absorbing()
                ==> #[trigger] spec_day_step_from(statuses, config, i, d).0[k] == statuses[i + k],
    decreases statuses.len() - i,
{
    if i < statuses.len() {
        let step = spec_step_individual(statuses, i, config, d);
        lemma_day_step_from_props(statuses, config, i + 1, step.1);
        if statuses[i].is_absorbing() {
            lemma_step_individual_absorbing(statuses, i, config, d);
        }
    }
}

/// Law: one day step preserves the population size, and every absorbed
/// individual passes through it unchanged.
pub proof fn lemma_day_step_absorbing(statuses: Seq<Status>, config: Config, d: Seq<u64>)
    ensures
        spec_day_step(statuses, config, d).0.len() == statuses.len(),
        forall|j: int|
            0 <= j < statuses.len() && statuses[j].is_absorbing() ==> #[trigger] spec_day_step(
                statuses,
                config,
                d,
            ).0[j] == statuses[j],
{
    lemma_day_step_from_props(statuses, config, 0, d);
}

/// Law (absorption): a `Dead`, `Recovered` or `Vaccinated` individual is
/// unchanged by any number of further day passes, whatever the draws; and
/// every pass keeps the population size, so no individual is ever
/// created, duplicated or dropped.
pub proof fn lemma_absorption(statuses: Seq<Status>, config: Config, d: Seq<u64>, n: nat)
    ensures
        spec_run_days(statuses, config, d, n).0.len() == n,
        forall|t: int|
            0 <= t < n ==> (#[trigger] spec_run_days(statuses, config, d, n).0[t]).len()
                == statuses.len(),
        forall|t: int, j: int|
            0 <= t < n && 0 <= j < statuses.len() && statuses[j].is_absorbing()
                ==> #[trigger] spec_run_days(statuses, config, d, n).0[t][j] == statuses[j],
    decreases n,
{
    if n > 0 {
        let st = spec_day_step(statuses, config, d);
        lemma_day_step_absorbing(statuses, config, d);
        lemma_absorption(st.0, config, st.1, (n - 1) as nat);
        assert forall|t: int, j: int|
            0 <= t < n && 0 <= j < statuses.len() && statuses[j].is_absorbing()
            implies #[trigger] spec_run_days(statuses, config, d, n).0[t][j] == statuses[j] by {
            if t > 0 {
                assert(spec_run_days(statuses, config, d, n).0[t] == spec_run_days(
                    st.0,
                    config,
                    st.1,
                    (n - 1) as nat,
                ).0[t - 1]);
            }
        }
    }
}

/// Law (population conservation): the five statuses are mutually
/// exclusive and exhaustive, so their counts always sum to the population
/// size.
pub proof fn lemma_status_partition(s: Seq<Status>)
    ensures
        count_susceptible(s) + count_infected(s) + count_recovered(s) + count_vaccinated(s)
            + count_dead(s) == s.len(),
    decreases s.len(),
{
    if s.len() > 0 {
        lemma_status_partition(s.drop_last());
    }
}

/// Law (determinism under fixed randomness): the run model is a function
/// of the configuration and the draw stream alone, so identical injected
/// draws and identical configurations give identical day-by-day
/// snapshots. `run_simulation` pins its emitted snapshots to this model
/// whenever its source replays injected draws, so two such runs emit
/// equal snapshots day by day.
pub proof fn lemma_run_deterministic(config1: Config, d1: Seq<u64>, config2: Config, d2: Seq<u64>)
    requires
        config1 == config2,
        d1 == d2,
    ensures
        spec_run(config1, d1) == spec_run(config2, d2),
{
}

} // verus!
