//! The finite-state representation of one individual's epidemic condition.
use vstd::prelude::*;

verus! {

/// One individual's epidemic state for one day. The payload of `Infected`
/// counts consecutive days infected, starting at 1 on the day of acquisition.
#[derive(Clone, Copy, Debug, PartialEq, Eq, Structural)]
pub enum Status {
    Susceptible,
    Infected(u32),
    Recovered,
    Vaccinated,
    Dead,
}

impl Status {
    /// An infection has been carried for at least one day.
    pub open spec fn wf(self) -> bool {
        self matches Status::Infected(d) ==> d >= 1
    }

    /// `Dead`, `Recovered` and `Vaccinated` are absorbing: no transition
    /// rule ever moves such an individual back to `Susceptible` or
    /// `Infected`.
    pub open spec fn is_absorbing(self) -> bool {
        self is Dead || self is Recovered || self is Vaccinated
    }

    /// Everyone but the dead takes part in encounters.
    pub open spec fn is_living(self) -> bool {
        !(self is Dead)
    }

    pub fn is_dead(&self) -> (b: bool)
        ensures
            b == (*self is Dead),
    {
        match self {
            Status::Dead => true,
            _ => false,
        }
    }

    pub fn is_susceptible(&self) -> (b: bool)
        ensures
            b == (*self is Susceptible),
    {
        match self {
            Status::Susceptible => true,
            _ => false,
        }
    }

    pub fn is_infectious(&self) -> (b: bool)
        ensures
            b == (*self is Infected),
    {
        match self {
            Status::Infected(_) => true,
            _ => false,
        }
    }
}

/// How many entries of `s` are `Susceptible`.
pub open spec fn count_susceptible(s: Seq<Status>) -> nat
    decreases s.len(),
{
    if s.len() == 0 {
        0
    } else {
        count_susceptible(s.drop_last()) + if s.last() is Susceptible {
            1nat
        } else {
            0nat
        }
    }
}

/// How many entries of `s` are `Infected`.
pub open spec fn count_infected(s: Seq<Status>) -> nat
    decreases s.len(),
{
    if s.len() == 0 {
        0
    } else {
        count_infected(s.drop_last()) + if s.last() is Infected {
            1nat
        } else {
            0nat
        }
    }
}

/// How many entries of `s` are `Recovered`.
pub open spec fn count_recovered(s: Seq<Status>) -> nat
    decreases s.len(),
{
    if s.len() == 0 {
        0
    } else {
        count_recovered(s.drop_last()) + if s.last() is Recovered {
            1nat
        } else {
            0nat
        }
    }
}

/// How many entries of `s` are `Vaccinated`.
pub open spec fn count_vaccinated(s: Seq<Status>) -> nat
    decreases s.len(),
{
    if s.len() == 0 {
        0
    } else {
        count_vaccinated(s.drop_last()) + if s.last() is Vaccinated {
            1nat
        } else {
            0nat
        }
    }
}

/// How many entries of `s` are `Dead`.
pub open spec fn count_dead(s: Seq<Status>) -> nat
    decreases s.len(),
{
    if s.len() == 0 {
        0
    } else {
        count_dead(s.drop_last()) + if s.last() is Dead {
            1nat
        } else {
            0nat
        }
    }
}

} // verus!
