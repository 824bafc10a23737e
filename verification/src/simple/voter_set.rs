use vstd::prelude::*;

use crate::leader::{primary_of, quorum_threshold, retain_others, without_voter, VoterId};

verus! {

/// A set of voters with the number of votes that make a supermajority.
#[derive(PartialEq, Eq, Debug)]
pub struct VoterSet {
    voters: Vec<VoterId>,
    /// The required number threshould for supermajority.
    /// Normally, it's > 2/3.
    threshould: usize,
}

impl View for VoterSet {
    type V = Seq<VoterId>;

    closed spec fn view(&self) -> Seq<VoterId> {
        self.voters@
    }
}

impl Clone for VoterSet {
    fn clone(&self) -> (r: Self)
        ensures
            r@ == self@,
            r.spec_threshould() == self.spec_threshould(),
    {
        VoterSet { voters: self.voters.clone(), threshould: self.threshould }
    }
}

impl VoterSet {
    /// The number of votes that make a supermajority.
    pub closed spec fn spec_threshould(self) -> nat {
        self.threshould as nat
    }

    /// A voter set that needs a supermajority, more than two thirds of `voters`, to
    /// agree; an empty set needs one vote.
    pub fn new(voters: Vec<VoterId>) -> (r: Self)
        ensures
            r@ == voters@,
            r.spec_threshould() == if voters@.len() == 0 {
                1
            } else {
                quorum_threshold(voters@.len())
            },
            3 * r.spec_threshould() > 2 * voters@.len(),
    {
        let len = if voters.is_empty() {
            1
        } else {
            voters.len() - (voters.len() - 1) / 3
        };
        Self { voters, threshould: len }
    }

    /// Append a voter; the threshould is kept.
    pub fn add(&mut self, id: VoterId)
        ensures
            final(self)@ == old(self)@.push(id),
            final(self).spec_threshould() == old(self).spec_threshould(),
    {
        self.voters.push(id);
    }

    /// Remove every occurrence of a voter; the threshould is kept.
    pub fn remove(&mut self, id: &VoterId)
        ensures
            final(self)@ == without_voter(old(self)@, *id),
            final(self).spec_threshould() == old(self).spec_threshould(),
    {
        self.voters = retain_others(&self.voters, id);
    }

    pub fn is_empty(&self) -> (r: bool)
        ensures
            r == (self@.len() == 0),
    {
        self.voters.is_empty()
    }

    /// Whether the set holds at least as many voters as its threshould.
    pub fn is_full(&self) -> (r: bool)
        ensures
            r == (self@.len() >= self.spec_threshould()),
    {
        self.voters.len() >= self.threshould
    }

    pub fn is_member(&self, id: &VoterId) -> (r: bool)
        ensures
            r == self@.contains(*id),
    {
        let n = self.voters.len();
        let mut i: usize = 0;
        while i < n
            invariant
                n == self.voters@.len(),
                i <= n,
                forall|j: int| 0 <= j < i ==> self.voters@[j] != *id,
            decreases n - i,
        {
            if self.voters[i] == *id {
                return true;
            }
            i = i + 1;
        }
        false
    }

    pub fn len(&self) -> (r: usize)
        ensures
            r == self@.len(),
    {
        self.voters.len()
    }

    pub fn threshould(&self) -> (r: usize)
        ensures
            r == self.spec_threshould(),
    {
        self.threshould
    }

    pub fn voters(&self) -> (r: &[VoterId])
        ensures
            r@ == self@,
    {
        self.voters.as_slice()
    }

    /// The leader of `view`: voters rotate by view number.
    pub fn get_primary(&self, view: u64) -> (r: VoterId)
        requires
            self@.len() > 0,
        ensures
            r == primary_of(self@, view),
    {
        let idx = (view as usize) % self.voters.len();
        self.voters[idx]
    }
}

} // verus!
