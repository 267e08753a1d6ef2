//! The day stepper: produces the next day's statuses from a frozen
//! snapshot of the current ones, applying the transition rules to every
//! living individual exactly once.
//!
//! All reads target the immutable snapshot and all writes go to a separate
//! next-state buffer, so no update can observe another update made the same
//! day. The spec functions here form a deterministic model of one whole
//! day over an injected draw stream; the executable stepper is proved equal
//! to that model whenever the draw source is transparent.
use vstd::prelude::*;

use crate::config::{Config, PROB_UNIT};
use crate::random::{stream_head, stream_tail, DrawSource};
use crate::rules::{catch_or_not, die_or_not, spec_catch_or_not, spec_progress};
use crate::status::Status;

verus! {

/// A snapshot the stepper accepts: every infection count is at least one
/// day old and still has room to grow by one.
pub open spec fn snapshot_ok(s: Seq<Status>) -> bool {
    forall|i: int|
        0 <= i < s.len() ==> (#[trigger] s[i] matches Status::Infected(days) ==> 1 <= days
            < u32::MAX)
}

/// Indices of the living individuals other than `i`, in id order.
pub open spec fn spec_living_others(statuses: Seq<Status>, i: int) -> Seq<int>
    decreases statuses.len(),
{
    if statuses.len() == 0 {
        Seq::empty()
    } else {
        let last = statuses.len() - 1;
        let init = spec_living_others(statuses.drop_last(), i);
        if last != i && statuses[last].is_living() {
            init.push(last)
        } else {
            init
        }
    }
}

/// Every index `spec_living_others` lists is a living individual other
/// than `i`, and there are no more of them than individuals.
pub proof fn lemma_living_others_props(statuses: Seq<Status>, i: int)
    ensures
        spec_living_others(statuses, i).len() <= statuses.len(),
        forall|k: int|
            0 <= k < spec_living_others(statuses, i).len() ==> (0 <= #[trigger] spec_living_others(
                statuses,
                i,
            )[k] < statuses.len() && spec_living_others(statuses, i)[k] != i && statuses[
                spec_living_others(statuses, i)[k]
            ].is_living()),
    decreases statuses.len(),
{
    if statuses.len() > 0 {
        lemma_living_others_props(statuses.drop_last(), i);
        let last = statuses.len() - 1;
        assert(forall|k: int|
            0 <= k < spec_living_others(statuses.drop_last(), i).len() ==> statuses.drop_last()[
                spec_living_others(statuses.drop_last(), i)[k]
            ] == statuses[spec_living_others(statuses.drop_last(), i)[k]]);
    }
}

/// `k` encounters drawn from the living others: each draw picks one index
/// uniformly (the same individual may be picked more than once, the
/// individual itself never).
pub open spec fn spec_pick(statuses: Seq<Status>, lo: Seq<int>, k: nat, d: Seq<u64>) -> (
    Seq<Status>,
    Seq<u64>,
)
    decreases k,
{
    if k == 0 || lo.len() == 0 {
        (Seq::empty(), d)
    } else {
        let idx = lo[(stream_head(d) as int) % (lo.len() as int)];
        let rest = spec_pick(statuses, lo, (k - 1) as nat, stream_tail(d));
        (seq![statuses[idx]] + rest.0, rest.1)
    }
}

/// One day's encounter set for individual `i`: when no other individual is
/// alive the set is empty and no draw is consumed; otherwise one draw
/// chooses how many encounters (at most the count of living others) and
/// each encounter consumes one further draw.
pub open spec fn spec_sample_encounters(statuses: Seq<Status>, i: int, d: Seq<u64>) -> (
    Seq<Status>,
    Seq<u64>,
) {
    let lo = spec_living_others(statuses, i);
    if lo.len() == 0 {
        (Seq::empty(), d)
    } else {
        let k = (stream_head(d) as int) % (lo.len() as int + 1);
        spec_pick(statuses, lo, k as nat, stream_tail(d))
    }
}

/// Builds the list of indices of living individuals other than `i`.
#[verifier::loop_isolation(false)]
fn living_others(statuses: &Vec<Status>, i: usize) -> (r: Vec<usize>)
    ensures
        r@.len() == spec_living_others(statuses@, i as int).len(),
        forall|k: int|
            0 <= k < r@.len() ==> r@[k] as int == spec_living_others(statuses@, i as int)[k],
{
    let mut r: Vec<usize> = Vec::new();
    let mut j: usize = 0;
    proof {
        assert(statuses@.take(0) =~= Seq::<Status>::empty());
    }
    while j < statuses.len()
        invariant
            j <= statuses@.len(),
            r@.len() == spec_living_others(statuses@.take(j as int), i as int).len(),
            forall|k: int|
                0 <= k < r@.len() ==> r@[k] as int == spec_living_others(
                    statuses@.take(j as int),
                    i as int,
                )[k],
        decreases statuses@.len() - j,
    {
        proof {
            assert(statuses@.take(j as int + 1).drop_last() =~= statuses@.take(j as int));
            assert(statuses@.take(j as int + 1).last() == statuses@[j as int]);
        }
        if j != i && !statuses[j].is_dead() {
            r.push(j);
        }
        j = j + 1;
    }
    proof {
        assert(statuses@.take(statuses@.len() as int) =~= statuses@);
    }
    r
}

/// Samples one day's encounter statuses for individual `i` from the frozen
/// snapshot. Terminates for any population: with no living other
/// individual the fallback is the empty encounter set.
#[verifier::loop_isolation(false)]
pub fn sample_encounters(statuses: &Vec<Status>, i: usize, src: &mut DrawSource) -> (r: Vec<Status>)
    requires
        old(src).wf(),
        i < statuses@.len(),
        statuses@.len() <= u32::MAX,
    ensures
        final(src).wf(),
        final(src).transparent() == old(src).transparent(),
        r@.len() <= spec_living_others(statuses@, i as int).len(),
        forall|t: int|
            0 <= t < r@.len() ==> r@[t].is_living() && (exists|j: int|
                0 <= j < statuses@.len() && j != i && statuses@[j] == r@[t]),
        old(src).transparent() ==> {
            &&& r@ == spec_sample_encounters(statuses@, i as int, old(src).rem()).0
            &&& final(src).rem() == spec_sample_encounters(statuses@, i as int, old(src).rem()).1
        },
{
    proof {
        lemma_living_others_props(statuses@, i as int);
    }
    let lo = living_others(statuses, i);
    if lo.len() == 0 {
        let r: Vec<Status> = Vec::new();
        return r;
    }
    let ghost lo_s = spec_living_others(statuses@, i as int);
    let m: usize = lo.len();
    let draw = src.next_draw();
    let k: usize = (draw % (m as u64 + 1)) as usize;
    let ghost d1 = src.rem();
    let ghost target = spec_pick(statuses@, lo_s, k as nat, d1);
    let mut r: Vec<Status> = Vec::new();
    let mut t: usize = 0;
    proof {
        assert(Seq::<Status>::empty() + target.0 =~= target.0);
    }
    while t < k
        invariant
            t <= k,
            r@.len() == t,
            src.wf(),
            src.transparent() == old(src).transparent(),
            forall|u: int|
                0 <= u < r@.len() ==> r@[u].is_living() && (exists|j: int|
                    0 <= j < statuses@.len() && j != i && statuses@[j] == r@[u]),
            old(src).transparent() ==> {
                &&& target.0 == r@ + spec_pick(statuses@, lo_s, (k - t) as nat, src.rem()).0
                &&& target.1 == spec_pick(statuses@, lo_s, (k - t) as nat, src.rem()).1
            },
        decreases k - t,
    {
        let draw2 = src.next_draw();
        let pos: usize = (draw2 % (m as u64)) as usize;
        let j: usize = lo[pos];
        let ghost pre = src.rem();
        proof {
            assert(lo@[pos as int] as int == lo_s[pos as int]);
            assert(0 <= lo_s[pos as int] < statuses@.len() && lo_s[pos as int] != i && statuses@[
                lo_s[pos as int]
            ].is_living());
        }
        let e = statuses[j];
        r.push(e);
        proof {
            if old(src).transparent() {
                assert(r@ =~= r@.drop_last().push(e));
                assert(r@.drop_last() + (seq![e] + spec_pick(
                    statuses@,
                    lo_s,
                    (k - t - 1) as nat,
                    src.rem(),
                ).0) =~= r@ + spec_pick(statuses@, lo_s, (k - t - 1) as nat, src.rem()).0);
            }
        }
        t = t + 1;
    }
    r
}

/// One individual's next status, computed from the frozen snapshot: the
/// dead are copied unchanged and take no draws; everyone else gets an
/// encounter set, the acquisition rule, and then progression. A freshly
/// acquired infection is evaluated against the death probability
/// immediately but is not additionally aged the same day, so it enters the
/// next day as `Infected(1)`.
pub open spec fn spec_step_individual(statuses: Seq<Status>, i: int, config: Config, d: Seq<u64>) -> (
    Status,
    Seq<u64>,
) {
    if statuses[i] is Dead {
        (Status::Dead, d)
    } else {
        let sampled = spec_sample_encounters(statuses, i, d);
        let caught = spec_catch_or_not(statuses[i], sampled.0, config.transmission_prob, sampled.1);
        if statuses[i] is Susceptible && caught.0 is Infected {
            (
                if stream_head(caught.1) < config.death_prob {
                    Status::Dead
                } else {
                    Status::Infected(1)
                },
                stream_tail(caught.1),
            )
        } else {
            spec_progress(caught.0, config.death_prob, config.recovery_threshold_days, caught.1)
        }
    }
}

/// Computes individual `i`'s next-day status from the snapshot.
pub fn step_individual(
    statuses: &Vec<Status>,
    i: usize,
    config: &Config,
    src: &mut DrawSource,
) -> (r: Status)
    requires
        old(src).wf(),
        config.wf(),
        i < statuses@.len(),
        statuses@.len() <= u32::MAX,
        snapshot_ok(statuses@),
    ensures
        final(src).wf(),
        final(src).transparent() == old(src).transparent(),
        statuses@[i as int].is_absorbing() ==> r == statuses@[i as int],
        statuses@[i as int] matches Status::Infected(days) ==> {
            &&& (r is Dead || (days >= config.recovery_threshold_days && r == Status::Recovered)
                || (days < config.recovery_threshold_days && r == Status::Infected(
                (days + 1) as u32,
            )))
            &&& config.death_prob == 0 ==> !(r is Dead)
            &&& config.death_prob == PROB_UNIT ==> r is Dead
        },
        statuses@[i as int] is Susceptible ==> (r is Susceptible || r == Status::Infected(1)
            || r is Dead),
        statuses@[i as int] is Susceptible && config.transmission_prob == 0 ==> r is Susceptible,
        r matches Status::Infected(dd) ==> (dd == 1 || (statuses@[i as int]
            matches Status::Infected(days) && dd == days + 1)),
        old(src).transparent() ==> {
            &&& r == spec_step_individual(statuses@, i as int, *config, old(src).rem()).0
            &&& final(src).rem() == spec_step_individual(statuses@, i as int, *config, old(src).rem()).1
        },
{
    let s = statuses[i];
    if s.is_dead() {
        return Status::Dead;
    }
    let enc = sample_encounters(statuses, i, src);
    let caught = catch_or_not(s, &enc, config.transmission_prob, src);
    if s.is_susceptible() && caught.is_infectious() {
        let draw = src.next_draw();
        if draw < config.death_prob {
            Status::Dead
        } else {
            Status::Infected(1)
        }
    } else {
        die_or_not(caught, config.death_prob, config.recovery_threshold_days, src)
    }
}

/// The whole day, individual by individual, each read taken from the
/// frozen snapshot and each result written to the next-state sequence.
pub open spec fn spec_day_step_from(statuses: Seq<Status>, config: Config, i: int, d: Seq<u64>) -> (
    Seq<Status>,
    Seq<u64>,
)
    decreases statuses.len() - i,
{
    if i < 0 || i >= statuses.len() {
        (Seq::empty(), d)
    } else {
        let step = spec_step_individual(statuses, i, config, d);
        let rest = spec_day_step_from(statuses, config, i + 1, step.1);
        (seq![step.0] + rest.0, rest.1)
    }
}

/// One full day over the draw stream: the next day's statuses and the rest
/// of the stream.
pub open spec fn spec_day_step(statuses: Seq<Status>, config: Config, d: Seq<u64>) -> (
    Seq<Status>,
    Seq<u64>,
) {
    spec_day_step_from(statuses, config, 0, d)
}

/// Produces the next day's statuses from the current ones. Reads only the
/// frozen snapshot `statuses`; the returned buffer becomes the new
/// snapshot for the following day.
///
/// The postconditions state, for every index and for any draws: absorption
/// of `Dead`, `Recovered` and `Vaccinated`; the exact three outcomes of an
/// infection and its day count growing by exactly one when neither death
/// nor recovery happens; that a zero death probability never kills and a
/// certain one kills every infected individual; that a `Susceptible`
/// individual only ever becomes `Infected(1)` (possibly dying of it the
/// same day), and with zero transmission probability never does.
#[verifier::loop_isolation(false)]
pub fn day_step(statuses: &Vec<Status>, config: &Config, src: &mut DrawSource) -> (next: Vec<
    Status,
>)
    requires
        old(src).wf(),
        config.wf(),
        statuses@.len() <= u32::MAX,
        snapshot_ok(statuses@),
    ensures
        final(src).wf(),
        final(src).transparent() == old(src).transparent(),
        next@.len() == statuses@.len(),
        forall|j: int|
            0 <= j < statuses@.len() && (#[trigger] statuses@[j]).is_absorbing() ==> next@[j]
                == statuses@[j],
        forall|j: int|
            0 <= j < statuses@.len() ==> (#[trigger] statuses@[j] matches Status::Infected(days)
                ==> (next@[j] is Dead || (days >= config.recovery_threshold_days && next@[j]
                == Status::Recovered) || (days < config.recovery_threshold_days && next@[j]
                == Status::Infected((days + 1) as u32)))),
        config.death_prob == 0 ==> forall|j: int|
            0 <= j < statuses@.len() && (#[trigger] statuses@[j]) is Infected ==> !(next@[j]
                is Dead),
        config.death_prob == PROB_UNIT ==> forall|j: int|
            0 <= j < statuses@.len() && (#[trigger] statuses@[j]) is Infected ==> next@[j] is Dead,
        forall|j: int|
            0 <= j < statuses@.len() && (#[trigger] statuses@[j]) is Susceptible ==> (next@[j]
                is Susceptible || next@[j] == Status::Infected(1) || next@[j] is Dead),
        config.transmission_prob == 0 ==> forall|j: int|
            0 <= j < statuses@.len() && (#[trigger] statuses@[j]) is Susceptible ==> next@[j]
                is Susceptible,
        forall|j: int|
            0 <= j < next@.len() ==> (#[trigger] next@[j] matches Status::Infected(dd) ==> (dd == 1
                || (statuses@[j] matches Status::Infected(days) && dd == days + 1))),
        old(src).transparent() ==> {
            &&& next@ == spec_day_step(statuses@, *config, old(src).rem()).0
            &&& final(src).rem() == spec_day_step(statuses@, *config, old(src).rem()).1
        },
{
    let ghost d0 = old(src).rem();
    let ghost target = spec_day_step(statuses@, *config, d0);
    let mut next: Vec<Status> = Vec::new();
    let mut i: usize = 0;
    proof {
        assert(Seq::<Status>::empty() + target.0 =~= target.0);
    }
    while i < statuses.len()
        invariant
            i <= statuses@.len(),
            next@.len() == i,
            src.wf(),
            src.transparent() == old(src).transparent(),
            forall|j: int|
                0 <= j < i && (#[trigger] statuses@[j]).is_absorbing() ==> next@[j]
                    == statuses@[j],
            forall|j: int|
                0 <= j < i ==> (#[trigger] statuses@[j] matches Status::Infected(days) ==> (next@[j]
                    is Dead || (days >= config.recovery_threshold_days && next@[j]
                    == Status::Recovered) || (days < config.recovery_threshold_days && next@[j]
                    == Status::Infected((days + 1) as u32)))),
            config.death_prob == 0 ==> forall|j: int|
                0 <= j < i && (#[trigger] statuses@[j]) is Infected ==> !(next@[j] is Dead),
            config.death_prob == PROB_UNIT ==> forall|j: int|
                0 <= j < i && (#[trigger] statuses@[j]) is Infected ==> next@[j] is Dead,
            forall|j: int|
                0 <= j < i && (#[trigger] statuses@[j]) is Susceptible ==> (next@[j] is Susceptible
                    || next@[j] == Status::Infected(1) || next@[j] is Dead),
            config.transmission_prob == 0 ==> forall|j: int|
                0 <= j < i && (#[trigger] statuses@[j]) is Susceptible ==> next@[j] is Susceptible,
            forall|j: int|
                0 <= j < next@.len() ==> (#[trigger] next@[j] matches Status::Infected(dd) ==> (dd
                    == 1 || (statuses@[j] matches Status::Infected(days) && dd == days + 1))),
            old(src).transparent() ==> {
                &&& target.0 == next@ + spec_day_step_from(statuses@, *config, i as int, src.rem()).0
                &&& target.1 == spec_day_step_from(statuses@, *config, i as int, src.rem()).1
            },
        decreases statuses@.len() - i,
    {
        let ghost pre = src.rem();
        let s = step_individual(statuses, i, config, src);
        next.push(s);
        proof {
            if old(src).transparent() {
                assert(next@.drop_last() + (seq![s] + spec_day_step_from(
                    statuses@,
                    *config,
                    i as int + 1,
                    src.rem(),
                ).0) =~= next@ + spec_day_step_from(statuses@, *config, i as int + 1, src.rem()).0);
            }
        }
        i = i + 1;
    }
    next
}

} // verus!
