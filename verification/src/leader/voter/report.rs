use std::collections::{HashMap, HashSet};

use vstd::prelude::*;
use vstd::std_specs::iter::IteratorSpec;

use super::super::messages::CurrentState;
use super::super::VoterId;

verus! {

/// A set holding a clone of each id of `ids`.
pub fn clone_ids(ids: &HashSet<VoterId>) -> (r: HashSet<VoterId>)
    ensures
        r@ == ids@,
{
    let mut r: HashSet<VoterId> = HashSet::new();
    for id in it: ids.iter()
        invariant
            it.seq() == ids.iter().remaining(),
            r@ == it.seq().take(it.index()).unref().to_set(),
    {
        proof {
            let k = it.index();
            assert(it.seq().take(k + 1).unref() =~= it.seq().take(k).unref().push(*id));
            it.seq().take(k).unref().lemma_push_to_set_commute(*id);
        }
        r.insert(*id);
    }
    proof {
        assert(ids.iter().remaining().take(ids.iter().remaining().len() as int) =~= ids.iter().remaining());
    }
    r
}

/// What a voter reports of one view.
#[derive(Debug, PartialEq, Eq)]
pub struct ViewState<Hash, Id: Eq + std::hash::Hash> {
    pub state: CurrentState,
    pub total_voters: usize,
    pub threshold: usize,
    pub preprepare_hash: Option<Hash>,
    /// The identities of nodes that have cast prepare so far.
    pub prepare_ids: HashSet<Id>,
    pub commit_ids: HashSet<Id>,
}

/// `b` is a copy of `a`: the same phase, sizes and voters, and a hash exactly when
/// `a` has one.
pub open spec fn copied_view_state<Hash>(a: ViewState<Hash, VoterId>, b: ViewState<Hash, VoterId>) -> bool {
    &&& b.state == a.state
    &&& b.total_voters == a.total_voters
    &&& b.threshold == a.threshold
    &&& (b.preprepare_hash is Some <==> a.preprepare_hash is Some)
    &&& b.prepare_ids@ == a.prepare_ids@
    &&& b.commit_ids@ == a.commit_ids@
}

impl<Hash: Clone> Clone for ViewState<Hash, VoterId> {
    fn clone(&self) -> (r: Self)
        ensures
            copied_view_state(*self, r),
    {
        ViewState {
            state: self.state,
            total_voters: self.total_voters,
            threshold: self.threshold,
            preprepare_hash: self.preprepare_hash.clone(),
            prepare_ids: clone_ids(&self.prepare_ids),
            commit_ids: clone_ids(&self.commit_ids),
        }
    }
}

/// What a voter reports of its views.
#[derive(Debug)]
pub struct VoterState<Hash, Id: Eq + std::hash::Hash> {
    /// Voting rounds running in the background.
    pub background_views: HashMap<u64, ViewState<Hash, Id>>,
    /// The current best voting view.
    pub best_view: (u64, ViewState<Hash, Id>),
}

impl<Hash: Clone> Clone for VoterState<Hash, VoterId> {
    fn clone(&self) -> (r: Self)
        ensures
            r.best_view.0 == self.best_view.0,
            copied_view_state(self.best_view.1, r.best_view.1),
            r.background_views@.dom() == self.background_views@.dom(),
            forall|view: u64| #[trigger]
                self.background_views@.contains_key(view) ==> copied_view_state(
                    self.background_views@[view],
                    r.background_views@[view],
                ),
    {
        let best_view = (self.best_view.0, self.best_view.1.clone());
        let mut background_views: HashMap<u64, ViewState<Hash, VoterId>> = HashMap::new();
        let ghost m = self.background_views@;
        let ghost items = self.background_views.iter().remaining();
        let ghost mut n: int = 0;
        for kv in it: self.background_views.iter()
            invariant
                m == self.background_views@,
                it.seq() == items,
                items == self.background_views.iter().remaining(),
                n == it.index(),
                forall|view: u64|
                    background_views@.contains_key(view) <==> (exists|i: int|
                        0 <= i < n && *(#[trigger] items[i]).0 == view),
                forall|view: u64| #[trigger]
                    background_views@.contains_key(view) ==> m.contains_key(view) && copied_view_state(
                        m[view],
                        background_views@[view],
                    ),
        {
            let (view, state) = kv;
            proof {
                assert(m.contains_key(*items[n].0) && m[*items[n].0] == *items[n].1);
            }
            background_views.insert(*view, state.clone());
            proof {
                assert forall|v: u64|
                    background_views@.contains_key(v) <==> (exists|i: int|
                        0 <= i < n + 1 && *(#[trigger] items[i]).0 == v) by {
                    if v == *view {
                        assert(*items[n].0 == v);
                    } else if background_views@.contains_key(v) {
                        let i = choose|i: int| 0 <= i < n && *(#[trigger] items[i]).0 == v;
                        assert(0 <= i < n + 1);
                    }
                }
                n = n + 1;
            }
        }
        proof {
            assert forall|view: u64| m.contains_key(view) implies #[trigger] background_views@.contains_key(
                view,
            ) by {
                assert(items.contains((&view, &m[view])));
                let i = choose|i: int| 0 <= i < items.len() && items[i] == (&view, &m[view]);
                assert(*items[i].0 == view);
            }
            assert(background_views@.dom() =~= m.dom());
        }
        VoterState { background_views, best_view }
    }
}

/// A view state reported by a voter.
#[derive(Debug)]
pub struct Log<Hash, Id: Eq + std::hash::Hash> {
    pub id: Id,
    pub state: ViewState<Hash, Id>,
}

impl<Hash: Clone> Clone for Log<Hash, VoterId> {
    fn clone(&self) -> (r: Self)
        ensures
            r.id == self.id,
            copied_view_state(self.state, r.state),
    {
        Log { id: self.id, state: self.state.clone() }
    }
}

} // verus!
