//! One simulation run and a batch of independent runs.
//!
//! A run constructs a population, applies the initial vaccination and
//! infection draws, then advances it day by day, collecting one snapshot
//! per day (the initial day included). A batch performs `num_simulations`
//! such runs one after another, sharing nothing but the configuration and
//! the draw source; no draw is consumed by more than one run.
use vstd::prelude::*;

use crate::config::Config;
use crate::person::PersonModel;
use crate::population::PopulationModel;
use crate::random::{stream_head, stream_tail, DrawSource};
use crate::status::Status;
use crate::stepper::{day_step, snapshot_ok, spec_day_step};

verus! {

/// One individual's initial status: a vaccination draw first, and, only
/// for those it leaves susceptible, an infection draw.
pub open spec fn spec_init_status(vprob: u64, iprob: u64, d: Seq<u64>) -> (Status, Seq<u64>) {
    if stream_head(d) < vprob {
        (Status::Vaccinated, stream_tail(d))
    } else if stream_head(stream_tail(d)) < iprob {
        (Status::Infected(1), stream_tail(stream_tail(d)))
    } else {
        (Status::Susceptible, stream_tail(stream_tail(d)))
    }
}

/// Initial statuses for `count` individuals, in id order.
pub open spec fn spec_init_from(count: nat, vprob: u64, iprob: u64, d: Seq<u64>) -> (
    Seq<Status>,
    Seq<u64>,
)
    decreases count,
{
    if count == 0 {
        (Seq::empty(), d)
    } else {
        let first = spec_init_status(vprob, iprob, d);
        let rest = spec_init_from((count - 1) as nat, vprob, iprob, first.1);
        (seq![first.0] + rest.0, rest.1)
    }
}

/// Applies the initialization pass to a freshly populated (all
/// susceptible) population: per individual an independent vaccination
/// draw, then, among those still susceptible, an infection draw.
#[verifier::loop_isolation(false)]
pub fn apply_initial_state(pop: &mut PopulationModel, src: &mut DrawSource)
    requires
        old(pop).wf(),
        old(src).wf(),
        forall|i: int|
            0 <= i < old(pop).people@.len() ==> old(pop).people@[i].status == Status::Susceptible,
    ensures
        final(pop).wf(),
        final(src).wf(),
        final(src).transparent() == old(src).transparent(),
        final(pop).config == old(pop).config,
        final(pop).people@.len() == old(pop).people@.len(),
        forall|i: int|
            0 <= i < final(pop).people@.len() ==> (#[trigger] final(pop).people@[i]).id == i,
        forall|i: int|
            0 <= i < final(pop).people@.len() ==> ((#[trigger] final(pop).people@[i]).status
                is Susceptible || final(pop).people@[i].status is Vaccinated
                || final(pop).people@[i].status == Status::Infected(1)),
        old(src).transparent() ==> {
            &&& final(pop).statuses() == spec_init_from(
                old(pop).people@.len() as nat,
                old(pop).config.vaccination_prob,
                old(pop).config.infection_prob,
                old(src).rem(),
            ).0
            &&& final(src).rem() == spec_init_from(
                old(pop).people@.len() as nat,
                old(pop).config.vaccination_prob,
                old(pop).config.infection_prob,
                old(src).rem(),
            ).1
        },
{
    let ghost d0 = old(src).rem();
    let ghost n_total = old(pop).people@.len() as nat;
    let ghost vprob = old(pop).config.vaccination_prob;
    let ghost iprob = old(pop).config.infection_prob;
    let ghost target = spec_init_from(n_total, vprob, iprob, d0);
    let n: usize = pop.people.len();
    let mut people: Vec<PersonModel> = Vec::new();
    let mut i: usize = 0;
    proof {
        assert(Seq::<Status>::empty() + target.0 =~= target.0);
    }
    while i < n
        invariant
            i <= n,
            people@.len() == i,
            src.wf(),
            src.transparent() == old(src).transparent(),
            forall|j: int| 0 <= j < i ==> (#[trigger] people@[j]).id == j,
            forall|j: int|
                0 <= j < i ==> ((#[trigger] people@[j]).status is Susceptible
                    || people@[j].status is Vaccinated || people@[j].status == Status::Infected(1)),
            old(src).transparent() ==> {
                &&& target.0 == people@.map_values(|p: PersonModel| p.status) + spec_init_from(
                    (n - i) as nat,
                    vprob,
                    iprob,
                    src.rem(),
                ).0
                &&& target.1 == spec_init_from((n - i) as nat, vprob, iprob, src.rem()).1
            },
        decreases n - i,
    {
        let draw_v = src.next_draw();
        let status: Status = if draw_v < pop.config.vaccination_prob {
            Status::Vaccinated
        } else {
            let draw_i = src.next_draw();
            if draw_i < pop.config.infection_prob {
                Status::Infected(1)
            } else {
                Status::Susceptible
            }
        };
        people.push(PersonModel { id: i as u32, status });
        proof {
            if old(src).transparent() {
                assert(people@.map_values(|p: PersonModel| p.status) =~= people@.drop_last()
                    .map_values(|p: PersonModel| p.status).push(status));
                assert(people@.drop_last().map_values(|p: PersonModel| p.status) + (seq![status]
                    + spec_init_from((n - i - 1) as nat, vprob, iprob, src.rem()).0) =~= people@
                    .map_values(|p: PersonModel| p.status) + spec_init_from(
                    (n - i - 1) as nat,
                    vprob,
                    iprob,
                    src.rem(),
                ).0);
            }
        }
        i = i + 1;
    }
    pop.people = people;
    proof {
        if old(src).transparent() {
            assert(target.0 =~= pop.statuses());
        }
    }
}

/// The statuses a snapshot holds, one per emitted individual.
pub open spec fn view_day(day: Vec<PersonModel>) -> Seq<Status> {
    day@.map_values(|p: PersonModel| p.status)
}

/// The statuses of every snapshot of a run, day by day.
pub open spec fn view_run(days: Seq<Vec<PersonModel>>) -> Seq<Seq<Status>> {
    days.map_values(|day: Vec<PersonModel>| view_day(day))
}

/// `n` further day steps from `statuses`: the snapshot after each step,
/// oldest first, and the rest of the draw stream.
pub open spec fn spec_run_days(statuses: Seq<Status>, config: Config, d: Seq<u64>, n: nat) -> (
    Seq<Seq<Status>>,
    Seq<u64>,
)
    decreases n,
{
    if n == 0 {
        (Seq::empty(), d)
    } else {
        let st = spec_day_step(statuses, config, d);
        let rest = spec_run_days(st.0, config, st.1, (n - 1) as nat);
        (seq![st.0] + rest.0, rest.1)
    }
}

/// A whole run over the draw stream: the `num_days + 1` snapshots it
/// emits (the initial one first) and the rest of the stream.
pub open spec fn spec_run(config: Config, d: Seq<u64>) -> (Seq<Seq<Status>>, Seq<u64>) {
    let init = spec_init_from(
        config.num_people as nat,
        config.vaccination_prob,
        config.infection_prob,
        d,
    );
    let rest = spec_run_days(init.0, config, init.1, config.num_days as nat);
    (seq![init.0] + rest.0, rest.1)
}

/// The snapshots of every run of a batch, over the draw stream.
pub open spec fn spec_batch(config: Config, d: Seq<u64>, n: nat) -> (Seq<Seq<Seq<Status>>>, Seq<u64>)
    decreases n,
{
    if n == 0 {
        (Seq::empty(), d)
    } else {
        let first = spec_run(config, d);
        let rest = spec_batch(config, first.1, (n - 1) as nat);
        (seq![first.0] + rest.0, rest.1)
    }
}

/// Extracts the statuses of a day's individuals, in id order.
#[verifier::loop_isolation(false)]
fn statuses_of(people: &Vec<PersonModel>) -> (r: Vec<Status>)
    ensures
        r@ == people@.map_values(|p: PersonModel| p.status),
{
    let mut r: Vec<Status> = Vec::new();
    let mut i: usize = 0;
    while i < people.len()
        invariant
            i <= people@.len(),
            r@.len() == i,
            forall|j: int| 0 <= j < i ==> r@[j] == people@[j].status,
        decreases people@.len() - i,
    {
        let s = people[i].get_status();
        r.push(s);
        i = i + 1;
    }
    proof {
        assert(r@ =~= people@.map_values(|p: PersonModel| p.status));
    }
    r
}

/// Rebuilds the ordered individual list for a day from its statuses.
#[verifier::loop_isolation(false)]
fn people_with(statuses: &Vec<Status>) -> (r: Vec<PersonModel>)
    requires
        statuses@.len() <= u32::MAX,
    ensures
        r@.len() == statuses@.len(),
        forall|j: int| 0 <= j < r@.len() ==> (#[trigger] r@[j]).id == j,
        view_day(r) == statuses@,
{
    let mut r: Vec<PersonModel> = Vec::new();
    let mut i: usize = 0;
    while i < statuses.len()
        invariant
            i <= statuses@.len(),
            r@.len() == i,
            forall|j: int| 0 <= j < i ==> (#[trigger] r@[j]).id == j,
            forall|j: int| 0 <= j < i ==> (#[trigger] r@[j]).status == statuses@[j],
        decreases statuses@.len() - i,
    {
        let p = PersonModel { id: i as u32, status: statuses[i] };
        r.push(p);
        i = i + 1;
    }
    proof {
        assert(view_day(r) =~= statuses@);
    }
    r
}

/// One full simulation run: a fresh population, the initialization pass,
/// then `num_days` day steps, collecting the `num_days + 1` snapshots the
/// run emits, the initial day's first.
///
/// Every snapshot holds exactly `num_people` individuals in id order —
/// no individual is created, duplicated or dropped — and an individual
/// absorbed (`Dead`, `Recovered`, `Vaccinated`) on one emitted day stands
/// unchanged on every later one. Over a transparent source the whole
/// run equals the mathematical model `spec_run` of the injected draws,
/// so two runs over equal draws emit equal snapshots.
#[verifier::loop_isolation(false)]
pub fn run_simulation(config: &Config, src: &mut DrawSource) -> (days: Vec<Vec<PersonModel>>)
    requires
        old(src).wf(),
        config.wf(),
        config.num_days < u32::MAX,
    ensures
        final(src).wf(),
        final(src).transparent() == old(src).transparent(),
        days@.len() == config.num_days + 1,
        forall|t: int| 0 <= t < days@.len() ==> (#[trigger] days@[t])@.len() == config.num_people,
        forall|t: int, j: int|
            0 <= t < days@.len() && 0 <= j < days@[t]@.len() ==> (#[trigger] days@[t]@[j]).id == j,
        forall|t: int, j: int|
            0 <= t < days@.len() - 1 && 0 <= j < days@[t]@.len() && (#[trigger] days@[t]@[j]).status.is_absorbing()
                ==> days@[t + 1]@[j].status == days@[t]@[j].status,
        old(src).transparent() ==> {
            &&& view_run(days@) == spec_run(*config, old(src).rem()).0
            &&& final(src).rem() == spec_run(*config, old(src).rem()).1
        },
{
    let ghost d0 = old(src).rem();
    let ghost target = spec_run(*config, d0);
    let mut pop = PopulationModel::new(*config);
    pop.populate();
    apply_initial_state(&mut pop, src);
    let mut statuses = statuses_of(&pop.people);
    let mut days: Vec<Vec<PersonModel>> = Vec::new();
    let first_day = pop.snapshot();
    proof {
        assert(view_day(first_day) =~= statuses@);
    }
    days.push(first_day);
    let num_days: u32 = config.num_days;
    let mut t: u32 = 0;
    proof {
        if old(src).transparent() {
            assert(view_run(days@) =~= seq![statuses@]);
            assert(seq![statuses@] + spec_run_days(
                statuses@,
                *config,
                src.rem(),
                num_days as nat,
            ).0 =~= target.0);
        }
    }
    while t < num_days
        invariant
            t <= num_days,
            src.wf(),
            src.transparent() == old(src).transparent(),
            days@.len() == t + 1,
            statuses@.len() == config.num_people,
            forall|i: int|
                0 <= i < statuses@.len() ==> (#[trigger] statuses@[i] matches Status::Infected(
                    days_sick,
                ) ==> 1 <= days_sick <= t + 1),
            view_day(days@[days@.len() - 1]) == statuses@,
            forall|u: int| 0 <= u < days@.len() ==> (#[trigger] days@[u])@.len()
                == config.num_people,
            forall|u: int, j: int|
                0 <= u < days@.len() && 0 <= j < days@[u]@.len() ==> (#[trigger] days@[u]@[j]).id
                    == j,
            forall|u: int, j: int|
                0 <= u < days@.len() - 1 && 0 <= j < days@[u]@.len() && (#[trigger] days@[u]@[j]).status.is_absorbing()
                    ==> days@[u + 1]@[j].status == days@[u]@[j].status,
            old(src).transparent() ==> {
                &&& target.0 == view_run(days@) + spec_run_days(
                    statuses@,
                    *config,
                    src.rem(),
                    (num_days - t) as nat,
                ).0
                &&& target.1 == spec_run_days(
                    statuses@,
                    *config,
                    src.rem(),
                    (num_days - t) as nat,
                ).1
            },
        decreases num_days - t,
    {
        proof {
            assert(snapshot_ok(statuses@));
        }
        let next = day_step(&statuses, config, src);
        let next_day = people_with(&next);
        proof {
            if old(src).transparent() {
                assert(view_run(days@.push(next_day)) =~= view_run(days@).push(next@));
                assert(view_run(days@) + (seq![next@] + spec_run_days(
                    next@,
                    *config,
                    src.rem(),
                    (num_days - t - 1) as nat,
                ).0) =~= view_run(days@).push(next@) + spec_run_days(
                    next@,
                    *config,
                    src.rem(),
                    (num_days - t - 1) as nat,
                ).0);
            }
            assert(forall|j: int|
                0 <= j < days@[days@.len() - 1]@.len() && (#[trigger] days@[days@.len()
                    - 1]@[j]).status.is_absorbing() ==> view_day(next_day)[j] == days@[days@.len()
                    - 1]@[j].status);
        }
        days.push(next_day);
        statuses = next;
        t = t + 1;
    }
    days
}

/// A batch: `num_simulations` independent runs of the same configuration,
/// one after another, each consuming its own draws from the source. Each
/// run's snapshots satisfy everything `run_simulation` promises; over a
/// transparent source the whole batch equals the model `spec_batch`.
#[verifier::loop_isolation(false)]
pub fn run_batch(config: &Config, src: &mut DrawSource) -> (runs: Vec<Vec<Vec<PersonModel>>>)
    requires
        old(src).wf(),
        config.wf(),
        config.num_days < u32::MAX,
    ensures
        final(src).wf(),
        final(src).transparent() == old(src).transparent(),
        runs@.len() == config.num_simulations,
        forall|r: int| 0 <= r < runs@.len() ==> (#[trigger] runs@[r])@.len() == config.num_days
            + 1,
        forall|r: int, t: int|
            0 <= r < runs@.len() && 0 <= t < runs@[r]@.len() ==> (#[trigger] runs@[r]@[t])@.len()
                == config.num_people,
        forall|r: int, t: int, j: int|
            0 <= r < runs@.len() && 0 <= t < runs@[r]@.len() && 0 <= j < runs@[r]@[t]@.len()
                ==> (#[trigger] runs@[r]@[t]@[j]).id == j,
        forall|r: int, t: int, j: int|
            0 <= r < runs@.len() && 0 <= t < runs@[r]@.len() - 1 && 0 <= j < runs@[r]@[t]@.len()
                && (#[trigger] runs@[r]@[t]@[j]).status.is_absorbing() ==> runs@[r]@[t
                + 1]@[j].status == runs@[r]@[t]@[j].status,
        old(src).transparent() ==> {
            &&& runs@.map_values(|run: Vec<Vec<PersonModel>>| view_run(run@)) == spec_batch(
                *config,
                old(src).rem(),
                config.num_simulations as nat,
            ).0
            &&& final(src).rem() == spec_batch(
                *config,
                old(src).rem(),
                config.num_simulations as nat,
            ).1
        },
{
    let ghost d0 = old(src).rem();
    let ghost target = spec_batch(*config, d0, config.num_simulations as nat);
    let n: u32 = config.num_simulations;
    let mut runs: Vec<Vec<Vec<PersonModel>>> = Vec::new();
    let mut r: u32 = 0;
    proof {
        assert(Seq::<Seq<Seq<Status>>>::empty() + target.0 =~= target.0);
        assert(runs@.map_values(|run: Vec<Vec<PersonModel>>| view_run(run@)) =~= Seq::<
            Seq<Seq<Status>>,
        >::empty());
    }
    while r < n
        invariant
            r <= n,
            src.wf(),
            src.transparent() == old(src).transparent(),
            runs@.len() == r,
            forall|k: int| 0 <= k < runs@.len() ==> (#[trigger] runs@[k])@.len() == config.num_days
                + 1,
            forall|k: int, t: int|
                0 <= k < runs@.len() && 0 <= t < runs@[k]@.len() ==> (#[trigger] runs@[k]@[t])@.len()
                    == config.num_people,
            forall|k: int, t: int, j: int|
                0 <= k < runs@.len() && 0 <= t < runs@[k]@.len() && 0 <= j < runs@[k]@[t]@.len()
                    ==> (#[trigger] runs@[k]@[t]@[j]).id == j,
            forall|k: int, t: int, j: int|
                0 <= k < runs@.len() && 0 <= t < runs@[k]@.len() - 1 && 0 <= j < runs@[k]@[t]@.len()
                    && (#[trigger] runs@[k]@[t]@[j]).status.is_absorbing() ==> runs@[k]@[t
                    + 1]@[j].status == runs@[k]@[t]@[j].status,
            old(src).transparent() ==> {
                &&& target.0 == runs@.map_values(|run: Vec<Vec<PersonModel>>| view_run(run@))
                    + spec_batch(*config, src.rem(), (n - r) as nat).0
                &&& target.1 == spec_batch(*config, src.rem(), (n - r) as nat).1
            },
        decreases n - r,
    {
        let one = run_simulation(config, src);
        proof {
            if old(src).transparent() {
                assert(runs@.push(one).map_values(|run: Vec<Vec<PersonModel>>| view_run(run@))
                    =~= runs@.map_values(|run: Vec<Vec<PersonModel>>| view_run(run@)).push(
                    view_run(one@),
                ));
                assert(runs@.map_values(|run: Vec<Vec<PersonModel>>| view_run(run@)) + (seq![
                    view_run(one@)
                ] + spec_batch(*config, src.rem(), (n - r - 1) as nat).0) =~= runs@.map_values(
                    |run: Vec<Vec<PersonModel>>| view_run(run@),
                ).push(view_run(one@)) + spec_batch(*config, src.rem(), (n - r - 1) as nat).0);
            }
        }
        runs.push(one);
        r = r + 1;
    }
    runs
}

} // verus!
