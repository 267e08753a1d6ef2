//! The two pure stochastic transition rules: infection acquisition
//! (`catch_or_not`) and disease progression or death (`die_or_not`).
//!
//! Each rule is a deterministic function of its inputs and of the uniform
//! draws it consumes; the spec functions here are that function, and the
//! executable rules are proved equal to them whenever the draw source is
//! transparent.
use vstd::prelude::*;

use crate::config::PROB_UNIT;
use crate::random::{stream_head, stream_tail, DrawSource};
use crate::status::Status;

verus! {

/// Acquisition over the encounter list: for each `Infected` encounter in
/// turn, one draw is consumed and compared against the transmission
/// probability; the first draw below it infects and the rest of the list is
/// not evaluated. Non-infectious encounters consume no draw. Returns
/// whether infection was acquired, and the rest of the draw stream.
pub open spec fn spec_catch_rec(enc: Seq<Status>, tprob: u64, d: Seq<u64>) -> (bool, Seq<u64>)
    decreases enc.len(),
{
    if enc.len() == 0 {
        (false, d)
    } else if enc[0] is Infected {
        if stream_head(d) < tprob {
            (true, stream_tail(d))
        } else {
            spec_catch_rec(enc.drop_first(), tprob, stream_tail(d))
        }
    } else {
        spec_catch_rec(enc.drop_first(), tprob, d)
    }
}

/// The acquisition rule: anything but `Susceptible` passes through
/// unchanged and consumes nothing; a `Susceptible` individual becomes
/// `Infected(1)` exactly when some infectious encounter's draw falls below
/// the transmission probability.
pub open spec fn spec_catch_or_not(person: Status, enc: Seq<Status>, tprob: u64, d: Seq<u64>) -> (
    Status,
    Seq<u64>,
) {
    if person is Susceptible {
        let hit = spec_catch_rec(enc, tprob, d).0;
        let rest = spec_catch_rec(enc, tprob, d).1;
        (
            if hit {
                Status::Infected(1)
            } else {
                person
            },
            rest,
        )
    } else {
        (person, d)
    }
}

/// One progression step for an `Infected(days)` individual, given its
/// single draw: death first (draw below the death probability), else
/// recovery at the threshold, else one more day infected.
pub open spec fn spec_die_or_not(person: Status, dprob: u64, sick_days: u32, draw: u64) -> Status {
    match person {
        Status::Infected(days) => if draw < dprob {
            Status::Dead
        } else if days >= sick_days {
            Status::Recovered
        } else {
            Status::Infected((days + 1) as u32)
        },
        _ => person,
    }
}

/// The progression rule over a draw stream: non-`Infected` statuses pass
/// through unchanged and consume nothing; an `Infected` one consumes
/// exactly one draw.
pub open spec fn spec_progress(person: Status, dprob: u64, sick_days: u32, d: Seq<u64>) -> (
    Status,
    Seq<u64>,
) {
    if person is Infected {
        (spec_die_or_not(person, dprob, sick_days, stream_head(d)), stream_tail(d))
    } else {
        (person, d)
    }
}

/// Simulates whether a person acquires infection from its encounters.
///
/// The comparison direction is fixed: a draw strictly below `tprob`
/// infects. So `tprob == 0` never infects, and `tprob == PROB_UNIT` infects
/// on the first infectious encounter.
#[verifier::loop_isolation(false)]
pub fn catch_or_not(
    person: Status,
    encounters: &Vec<Status>,
    tprob: u64,
    src: &mut DrawSource,
) -> (r: Status)
    requires
        old(src).wf(),
        tprob <= PROB_UNIT,
    ensures
        final(src).wf(),
        final(src).transparent() == old(src).transparent(),
        r == person || r == Status::Infected(1),
        !(person is Susceptible) ==> r == person && *final(src) == *old(src),
        (forall|i: int| 0 <= i < encounters@.len() ==> !(encounters@[i] is Infected)) ==> r
            == person,
        tprob == 0 ==> r == person,
        (person is Susceptible && tprob == PROB_UNIT && exists|i: int|
            0 <= i < encounters@.len() && encounters@[i] is Infected) ==> r == Status::Infected(1),
        old(src).transparent() ==> {
            &&& r == spec_catch_or_not(person, encounters@, tprob, old(src).rem()).0
            &&& final(src).rem() == spec_catch_or_not(person, encounters@, tprob, old(src).rem()).1
        },
{
    match person {
        Status::Susceptible => {
            let ghost d0 = old(src).rem();
            let mut i: usize = 0;
            proof {
                assert(encounters@.skip(0) =~= encounters@);
            }
            while i < encounters.len()
                invariant
                    src.wf(),
                    tprob <= PROB_UNIT,
                    i <= encounters@.len(),
                    src.transparent() == old(src).transparent(),
                    old(src).transparent() ==> spec_catch_rec(
                        encounters@.skip(i as int),
                        tprob,
                        src.rem(),
                    ) == spec_catch_rec(encounters@, tprob, d0),
                    tprob == PROB_UNIT ==> forall|j: int|
                        0 <= j < i ==> !(encounters@[j] is Infected),
                decreases encounters@.len() - i,
            {
                let enc = encounters[i];
                if enc.is_infectious() {
                    let draw = src.next_draw();
                    if draw < tprob {
                        proof {
                            assert(encounters@.skip(i as int)[0] is Infected);
                        }
                        return Status::Infected(1);
                    }
                }
                proof {
                    assert(encounters@.skip(i as int).drop_first() =~= encounters@.skip(
                        i as int + 1,
                    ));
                    assert(encounters@.skip(i as int)[0] == encounters@[i as int]);
                }
                i = i + 1;
            }
            proof {
                assert(encounters@.skip(encounters@.len() as int) =~= Seq::<Status>::empty());
            }
            Status::Susceptible
        },
        _ => person,
    }
}

/// Simulates whether an infected person dies, recovers, or stays infected
/// one more day. Death is checked first and pre-empts recovery; with the
/// death draw survived, reaching `sick_days` days infected recovers, and
/// anything short of it ages the infection by exactly one day.
pub fn die_or_not(person: Status, dprob: u64, sick_days: u32, src: &mut DrawSource) -> (r: Status)
    requires
        old(src).wf(),
        dprob <= PROB_UNIT,
        person matches Status::Infected(days) ==> days < u32::MAX,
    ensures
        final(src).wf(),
        final(src).transparent() == old(src).transparent(),
        !(person is Infected) ==> r == person && *final(src) == *old(src),
        person matches Status::Infected(days) ==> {
            &&& (r is Dead || (days >= sick_days && r == Status::Recovered) || (days < sick_days
                && r == Status::Infected((days + 1) as u32)))
            &&& dprob == 0 ==> !(r is Dead)
            &&& dprob == PROB_UNIT ==> r is Dead
        },
        old(src).transparent() ==> {
            &&& r == spec_progress(person, dprob, sick_days, old(src).rem()).0
            &&& final(src).rem() == spec_progress(person, dprob, sick_days, old(src).rem()).1
        },
{
    match person {
        Status::Infected(days) => {
            let draw = src.next_draw();
            if draw < dprob {
                Status::Dead
            } else if days >= sick_days {
                Status::Recovered
            } else {
                Status::Infected(days + 1)
            }
        },
        _ => person,
    }
}

} // verus!
