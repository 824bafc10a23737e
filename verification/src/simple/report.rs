use std::collections::HashSet;

use vstd::prelude::*;

use super::CurrentState;
use crate::leader::voter::report::clone_ids;
use crate::leader::VoterId;

verus! {

/// What a voter reports of one view.
#[derive(Debug)]
pub struct ViewState<Hash, ID> {
    pub state: CurrentState,
    pub total_number: usize,
    pub threshold: usize,
    pub preprepare_hash: Option<Hash>,
    pub prepare_count: usize,
    /// The identities of nodes that have cast prepare so far.
    pub prepare_ids: HashSet<ID>,
    pub commit_count: usize,
    pub commit_ids: HashSet<ID>,
}

/// `b` is a copy of `a`: the same phase, sizes, counts and voters, and a hash
/// exactly when `a` has one.
pub open spec fn copied_view_state<Hash>(a: ViewState<Hash, VoterId>, b: ViewState<Hash, VoterId>) -> bool {
    &&& b.state == a.state
    &&& b.total_number == a.total_number
    &&& b.threshold == a.threshold
    &&& (b.preprepare_hash is Some <==> a.preprepare_hash is Some)
    &&& b.prepare_count == a.prepare_count
    &&& b.prepare_ids@ == a.prepare_ids@
    &&& b.commit_count == a.commit_count
    &&& b.commit_ids@ == a.commit_ids@
}

impl<Hash: Clone> Clone for ViewState<Hash, VoterId> {
    fn clone(&self) -> (r: Self)
        ensures
            copied_view_state(*self, r),
    {
        ViewState {
            state: self.state,
            total_number: self.total_number,
            threshold: self.threshold,
            preprepare_hash: self.preprepare_hash.clone(),
            prepare_count: self.prepare_count,
            prepare_ids: clone_ids(&self.prepare_ids),
            commit_count: self.commit_count,
            commit_ids: clone_ids(&self.commit_ids),
        }
    }
}

/// A view state reported by a voter.
#[derive(Debug)]
pub struct Log<Hash, ID> {
    pub id: ID,
    pub state: ViewState<Hash, ID>,
}

impl<Hash: Clone> Clone for Log<Hash, VoterId> {
    fn clone(&self) -> (r: Self)
        ensures
            r.id == self.id,
            copied_view_state(self.state, r.state),
    {
        Log { id: self.id, state: self.state.clone() }
    }
}

} // verus!
