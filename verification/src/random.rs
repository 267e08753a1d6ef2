//! The injected source of uniform draws.
//!
//! Every probabilistic decision of the simulator consumes one `u64` draw in
//! `0 .. PROB_UNIT`. A [`DrawSource`] either replays a caller-supplied list
//! of draws — then every contract downstream pins the result exactly, which
//! is what makes runs reproducible and testable — or pulls fresh draws from
//! the `rand` crate's thread-local generator, of which nothing is known
//! beyond the range.
use vstd::prelude::*;

use crate::config::PROB_UNIT;

verus! {

/// Declares rand's thread-local generator handle so a `DrawSource` can
/// hold one; the value is opaque, nothing of its state is assumed.
#[verifier::external_type_specification]
#[verifier::external_body]
pub struct ExThreadRng(rand::rngs::ThreadRng);

/// Relies on rand::rng: a handle to the thread-local generator. Panics only
/// if the operating system's entropy source fails at first seeding.
#[verifier::external_body]
fn fresh_thread_rng() -> rand::rngs::ThreadRng {
    rand::rng()
}

/// Relies on rand::RngExt::random_range: a value uniform in the given
/// range, here `0 .. PROB_UNIT`; the range is non-empty, so no panic.
#[verifier::external_body]
fn thread_rng_draw(rng: &mut rand::rngs::ThreadRng) -> (r: u64)
    ensures
        r < PROB_UNIT,
{
    rand::RngExt::random_range(rng, 0..PROB_UNIT)
}

/// First draw of a stream; an exhausted replay stream reads as zero.
pub open spec fn stream_head(d: Seq<u64>) -> u64 {
    if d.len() > 0 {
        d[0]
    } else {
        0
    }
}

/// A stream with its first draw consumed.
pub open spec fn stream_tail(d: Seq<u64>) -> Seq<u64> {
    if d.len() > 0 {
        d.drop_first()
    } else {
        d
    }
}

/// A source of uniform draws in `0 .. PROB_UNIT`: either a replay of an
/// injected list (transparent: contracts pin every value it hands out) or
/// the thread-local generator (opaque: only the range is known).
pub struct DrawSource {
    replay: bool,
    draws: Vec<u64>,
    pos: usize,
    rng: rand::rngs::ThreadRng,
}

impl DrawSource {
    /// A transparent source replays injected draws; its future output is
    /// known exactly.
    pub closed spec fn transparent(self) -> bool {
        self.replay
    }

    /// The draws a transparent source has yet to hand out (meaningless for
    /// an opaque one).
    pub closed spec fn rem(self) -> Seq<u64> {
        self.draws@.skip(self.pos as int)
    }

    pub closed spec fn wf(self) -> bool {
        self.replay ==> {
            &&& self.pos <= self.draws@.len()
            &&& forall|i: int| 0 <= i < self.draws@.len() ==> self.draws@[i] < PROB_UNIT
        }
    }

    /// A source that replays `draws` in order and hands out zeroes once
    /// they are exhausted.
    pub fn replay(draws: Vec<u64>) -> (r: DrawSource)
        requires
            forall|i: int| 0 <= i < draws@.len() ==> draws@[i] < PROB_UNIT,
        ensures
            r.wf(),
            r.transparent(),
            r.rem() == draws@,
    {
        let r = DrawSource { replay: true, draws, pos: 0, rng: fresh_thread_rng() };
        proof {
            assert(r.rem() =~= r.draws@);
        }
        r
    }

    /// A source backed by the thread-local generator.
    pub fn system() -> (r: DrawSource)
        ensures
            r.wf(),
            !r.transparent(),
    {
        DrawSource { replay: false, draws: Vec::new(), pos: 0, rng: fresh_thread_rng() }
    }

    /// Hands out the next uniform draw. For a transparent source the value
    /// and the rest of the stream are pinned exactly.
    pub fn next_draw(&mut self) -> (r: u64)
        requires
            old(self).wf(),
        ensures
            final(self).wf(),
            r < PROB_UNIT,
            final(self).transparent() == old(self).transparent(),
            old(self).transparent() ==> {
                &&& r == stream_head(old(self).rem())
                &&& final(self).rem() == stream_tail(old(self).rem())
            },
    {
        if self.replay {
            if self.pos < self.draws.len() {
                let v: u64 = self.draws[self.pos];
                proof {
                    assert(self.draws@.skip(self.pos as int).drop_first() =~= self.draws@.skip(
                        self.pos as int + 1,
                    ));
                }
                self.pos = self.pos + 1;
                v
            } else {
                proof {
                    assert(self.rem() =~= Seq::<u64>::empty());
                }
                0
            }
        } else {
            thread_rng_draw(&mut self.rng)
        }
    }
}

} // verus!
