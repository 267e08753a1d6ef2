//! The ordered collection of individuals plus the run's parameters.
use vstd::prelude::*;

use crate::config::Config;
use crate::person::PersonModel;
use crate::status::Status;

verus! {

/// A population: one individual per id, in id order, and the parameters of
/// the run it belongs to. Constructed once per simulation run and never
/// shared across runs.
pub struct PopulationModel {
    pub people: Vec<PersonModel>,
    pub config: Config,
}

impl PopulationModel {
    /// Ids equal positions, the count matches the configuration, and every
    /// infection has been carried at least one day.
    pub open spec fn wf(self) -> bool {
        &&& self.config.wf()
        &&& self.people@.len() == self.config.num_people
        &&& forall|i: int| 0 <= i < self.people@.len() ==> self.people@[i].id == i
        &&& forall|i: int| 0 <= i < self.people@.len() ==> self.people@[i].status.wf()
    }

    /// The day's statuses in id order.
    pub open spec fn statuses(self) -> Seq<Status> {
        self.people@.map_values(|p: PersonModel| p.status)
    }

    /// An empty population holding the run's parameters; `populate` fills
    /// it.
    pub fn new(config: Config) -> (r: PopulationModel)
        ensures
            r.people@.len() == 0,
            r.config == config,
    {
        PopulationModel { people: Vec::new(), config }
    }

    /// Fills the population with `num_people` individuals, ids `0` upward,
    /// all `Susceptible`.
    #[verifier::loop_isolation(false)]
    pub fn populate(&mut self) -> (r: bool)
        requires
            old(self).config.wf(),
            old(self).people@.len() == 0,
        ensures
            r == true,
            final(self).wf(),
            final(self).config == old(self).config,
            forall|i: int|
                0 <= i < final(self).people@.len() ==> final(self).people@[i].status
                    == Status::Susceptible,
    {
        let n: u32 = self.config.num_people;
        let mut i: u32 = 0;
        while i < n
            invariant
                i <= n,
                self.config == old(self).config,
                self.people@.len() == i,
                forall|j: int| 0 <= j < i ==> self.people@[j].id == j,
                forall|j: int| 0 <= j < i ==> self.people@[j].status == Status::Susceptible,
            decreases n - i,
        {
            let person = PersonModel::new(i);
            self.people.push(person);
            i = i + 1;
        }
        true
    }

    /// A copy of the day's full ordered list of `(id, status)` pairs, what
    /// one emitted snapshot holds.
    pub fn snapshot(&self) -> (r: Vec<PersonModel>)
        ensures
            r@ == self.people@,
    {
        let mut r: Vec<PersonModel> = Vec::new();
        let mut i: usize = 0;
        while i < self.people.len()
            invariant
                i <= self.people@.len(),
                r@ == self.people@.take(i as int),
            decreases self.people@.len() - i,
        {
            r.push(self.people[i]);
            proof {
                assert(self.people@.take(i as int).push(self.people@[i as int]) =~= self.people@
                    .take(i as int + 1));
            }
            i = i + 1;
        }
        proof {
            assert(self.people@.take(self.people@.len() as int) =~= self.people@);
        }
        r
    }
}

} // verus!
