use std::collections::HashMap;

use vstd::prelude::*;
use vstd::std_specs::iter::IteratorSpec;

use super::super::messages::FinalizedCommit;
use super::super::{BlockNumber, Digest, Signature, VoterId};

verus! {

/// A finalized commit as the voter handles it.
pub type VoterFinalizedCommit = FinalizedCommit<BlockNumber, Digest, Signature, VoterId>;

/// The voters whose latest view-change vote is for `view`.
pub open spec fn voters_in_view(views: Map<VoterId, u64>, view: u64) -> Set<VoterId> {
    views.dom().filter(|id: VoterId| views[id] == view)
}

/// The views after a view-change vote of `id` for `view`: a voter's view only
/// moves forward.
pub open spec fn record_view(views: Map<VoterId, u64>, id: VoterId, view: u64) -> Map<VoterId, u64> {
    if views.contains_key(id) && views[id] > view {
        views
    } else {
        views.insert(id, view)
    }
}

/// A peer's recorded view only moves forward: after a view-change vote it is the
/// larger of its former view and the voted one, and no other peer's view changes.
pub proof fn lemma_record_view_monotone(views: Map<VoterId, u64>, id: VoterId, view: u64)
    ensures
        record_view(views, id, view).contains_key(id),
        record_view(views, id, view)[id] == if views.contains_key(id) && views[id] > view {
            views[id]
        } else {
            view
        },
        forall|other: VoterId|
            other != id ==> (#[trigger] record_view(views, id, view).contains_key(other)
                == views.contains_key(other)) && (views.contains_key(other) ==> record_view(
                views,
                id,
                view,
            )[other] == views[other]),
{
}

/// `view` is at least `lowest` and held by at least `threshold` voters.
pub open spec fn valid_view(views: Map<VoterId, u64>, view: u64, lowest: u64, threshold: usize) -> bool {
    view >= lowest && voters_in_view(views, view).len() >= threshold
}

/// Two finalized commits carry the same block and the same votes.
pub open spec fn same_commit(a: VoterFinalizedCommit, b: VoterFinalizedCommit) -> bool {
    &&& a.target_hash == b.target_hash
    &&& a.target_number == b.target_number
    &&& a.commits@ == b.commits@
}

/// Two optional finalized commits are both absent, or carry the same block and votes.
pub open spec fn same_optional_commit(a: Option<VoterFinalizedCommit>, b: Option<VoterFinalizedCommit>) -> bool {
    match (a, b) {
        (None, None) => true,
        (Some(x), Some(y)) => same_commit(x, y),
        _ => false,
    }
}

/// A copy of a finalized commit.
pub fn clone_commit(fc: &VoterFinalizedCommit) -> (r: VoterFinalizedCommit)
    ensures
        same_commit(r, *fc),
{
    let mut commits = Vec::new();
    let n = fc.commits.len();
    let mut i: usize = 0;
    while i < n
        invariant
            n == fc.commits@.len(),
            i <= n,
            commits@ == fc.commits@.take(i as int),
        decreases n - i,
    {
        commits.push(fc.commits[i]);
        assert(commits@ =~= fc.commits@.take(i + 1));
        i = i + 1;
    }
    assert(commits@ =~= fc.commits@);
    FinalizedCommit { target_hash: fc.target_hash, target_number: fc.target_number, commits }
}

/// A copy of an optional finalized commit.
pub fn clone_optional_commit(fc: &Option<VoterFinalizedCommit>) -> (r: Option<VoterFinalizedCommit>)
    ensures
        same_optional_commit(r, *fc),
{
    match fc {
        Some(c) => Some(clone_commit(c)),
        None => None,
    }
}

/// Storage ViewChange message and validate.
#[derive(Debug)]
pub struct PeerViewChange {
    // <ID, BEST_VIEW_CHANGE>
    inner: HashMap<VoterId, u64>,
    best_finzalized: Option<VoterFinalizedCommit>,
}

impl PeerViewChange {
    /// The latest view-change vote of each peer.
    pub closed spec fn views(&self) -> Map<VoterId, u64> {
        self.inner@
    }

    /// The best finalized commit heard of in a catch-up.
    pub closed spec fn best_finalized(&self) -> Option<VoterFinalizedCommit> {
        self.best_finzalized
    }

    pub fn new() -> (r: Self)
        ensures
            r.views() == Map::<VoterId, u64>::empty(),
            r.best_finalized() is None,
    {
        PeerViewChange { inner: HashMap::new(), best_finzalized: None }
    }

    /// Record that `id` votes to change to `view`, unless it already voted for a higher view.
    pub fn insert(&mut self, id: VoterId, view: u64)
        ensures
            final(self).views() == record_view(old(self).views(), id, view),
            final(self).best_finalized() == old(self).best_finalized(),
    {
        match self.inner.get(&id) {
            Some(old_view) => {
                if *old_view > view {
                    return ;
                } else {
                    self.inner.insert(id, view);
                }
            },
            None => {
                self.inner.insert(id, view);
            },
        }
    }

    /// Count the number of peers in the tergeting view.
    pub fn count_view_change(&self, target_view: u64) -> (r: usize)
        ensures
            r == voters_in_view(self.views(), target_view).len(),
    {
        let ghost m = self.inner@;
        let ghost pred = |id: VoterId| m[id] == target_view;
        let mut count: usize = 0;
        let ghost mut seen: Set<VoterId> = Set::empty();
        let ghost items = self.inner.iter().remaining();
        let ghost mut n: int = 0;
        let total = self.inner.len();
        assert(items.len() == total);
        for kv in it: self.inner.iter()
            invariant
                m == self.inner@,
                it.seq() == items,
                items == self.inner.iter().remaining(),
                items.no_duplicates(),
                n == it.index(),
                n <= items.len(),
                items.len() == total,
                seen.finite(),
                count == seen.len(),
                seen.len() <= n,
                forall|id: VoterId|
                    seen.contains(id) <==> (exists|i: int|
                        0 <= i < n && *(#[trigger] items[i]).0 == id && m[id] == target_view),
        {
            let (id, v) = kv;
            proof {
                assert(m.contains_key(*id) && m[*id] == *v);
                assert forall|i: int| 0 <= i < n implies *(#[trigger] items[i]).0 != *id by {
                    assert(m.contains_key(*items[i].0));
                    if *items[i].0 == *id {
                        assert(*items[i].1 == m[*id]);
                        assert(items[i] == items[n]);
                    }
                }
            }
            if *v == target_view {
                proof {
                    assert(!seen.contains(*id));
                    seen = seen.insert(*id);
                }
                count = count + 1;
            }
            proof {
                assert forall|x: VoterId|
                    seen.contains(x) <==> (exists|i: int|
                        0 <= i < n + 1 && *(#[trigger] items[i]).0 == x && m[x] == target_view) by {
                    if seen.contains(x) && x != *id {
                        let i = choose|i: int|
                            0 <= i < n && *(#[trigger] items[i]).0 == x && m[x] == target_view;
                        assert(0 <= i < n + 1);
                    }
                    if x == *id && *v == target_view {
                        assert(*items[n].0 == x);
                    }
                }
                n = n + 1;
            }
        }
        proof {
            let target = voters_in_view(m, target_view);
            assert forall|id: VoterId| target.contains(id) implies seen.contains(id) by {
                assert(items.contains((&id, &m[id])));
                let i = choose|i: int| 0 <= i < items.len() && items[i] == (&id, &m[id]);
                assert(*items[i].0 == id);
            }
            assert forall|id: VoterId| seen.contains(id) implies target.contains(id) by {
                let i = choose|i: int|
                    0 <= i < n && *(#[trigger] items[i]).0 == id && m[id] == target_view;
                assert(m.contains_key(*items[i].0));
            }
            assert(seen =~= target);
        }
        count
    }

    /// Forget every view-change vote.
    pub fn prune(&mut self)
        ensures
            final(self).views() == Map::<VoterId, u64>::empty(),
            final(self).best_finalized() == old(self).best_finalized(),
    {
        self.inner.clear();
    }

    /// Return if a peer is in specific view.
    pub fn exist(&self, id: &VoterId, view: u64) -> (r: bool)
        ensures
            r == (self.views().contains_key(*id) && self.views()[*id] == view),
    {
        match self.inner.get(id) {
            Some(v) => *v == view,
            None => false,
        }
    }

    /// Return if a higher view than `view` is recorded for a peer.
    pub fn exist_higher(&self, id: &VoterId, view: u64) -> (r: bool)
        ensures
            r == (self.views().contains_key(*id) && self.views()[*id] > view),
    {
        match self.inner.get(id) {
            Some(v) => *v > view,
            None => false,
        }
    }

    /// Return hightest valid view number: the highest view at least `lowest` that at
    /// least `threshold` peers want to change to, with the best finalized commit heard of.
    pub fn exist_valid_view(&self, lowest_view: u64, threshold: usize) -> (r: Option<
        (u64, Option<VoterFinalizedCommit>),
    >)
        ensures
            r is None <==> !(exists|id: VoterId| #[trigger]
                self.views().contains_key(id) && valid_view(
                    self.views(),
                    self.views()[id],
                    lowest_view,
                    threshold,
                )),
            r matches Some(p) ==> {
                &&& self.views().values().contains(p.0)
                &&& valid_view(self.views(), p.0, lowest_view, threshold)
                &&& forall|id: VoterId| #[trigger]
                    self.views().contains_key(id) && valid_view(
                        self.views(),
                        self.views()[id],
                        lowest_view,
                        threshold,
                    ) ==> self.views()[id] <= p.0
                &&& same_optional_commit(p.1, self.best_finalized())
            },
    {
        let ghost m = self.inner@;
        let ghost items = self.inner.iter().remaining();
        let ghost mut n: int = 0;
        let mut best: Option<u64> = None;
        for kv in it: self.inner.iter()
            invariant
                m == self.inner@,
                it.seq() == items,
                items == self.inner.iter().remaining(),
                n == it.index(),
                best is None ==> forall|i: int|
                    0 <= i < n ==> !valid_view(m, *(#[trigger] items[i]).1, lowest_view, threshold),
                best matches Some(b) ==> {
                    &&& m.values().contains(b)
                    &&& valid_view(m, b, lowest_view, threshold)
                    &&& forall|i: int|
                        0 <= i < n && valid_view(m, *(#[trigger] items[i]).1, lowest_view, threshold)
                            ==> *items[i].1 <= b
                },
        {
            let (_id, v) = kv;
            proof {
                assert(m.contains_key(*items[n].0) && m[*items[n].0] == *items[n].1);
                assert(m.values().contains(*v));
            }
            let higher = match best {
                Some(b) => *v > b,
                None => true,
            };
            if higher && *v >= lowest_view && self.count_view_change(*v) >= threshold {
                best = Some(*v);
            }
            proof {
                n = n + 1;
            }
        }
        match best {
            Some(b) => {
                proof {
                    assert forall|id: VoterId| #[trigger]
                        m.contains_key(id) && valid_view(m, m[id], lowest_view, threshold) implies m[id]
                        <= b by {
                        assert(items.contains((&id, &m[id])));
                        let i = choose|i: int| 0 <= i < items.len() && items[i] == (&id, &m[id]);
                        assert(*items[i].1 == m[id]);
                    }
                    let id = choose|id: VoterId| #[trigger] m.contains_key(id) && m[id] == b;
                    assert(m.contains_key(id) && valid_view(m, m[id], lowest_view, threshold));
                    assert(m == self.views());
                }
                Some((b, clone_optional_commit(&self.best_finzalized)))
            },
            None => {
                proof {
                    assert forall|id: VoterId| #[trigger] m.contains_key(id) implies !valid_view(
                        m,
                        m[id],
                        lowest_view,
                        threshold,
                    ) by {
                        assert(items.contains((&id, &m[id])));
                        let i = choose|i: int| 0 <= i < items.len() && items[i] == (&id, &m[id]);
                        assert(*items[i].1 == m[id]);
                    }
                }
                None
            },
        }
    }

    /// For catch-up message.
    pub fn insert_best_common_finalized(&mut self, best_finalized: VoterFinalizedCommit)
        ensures
            final(self).views() == old(self).views(),
            final(self).best_finalized() == Some(best_finalized),
    {
        self.best_finzalized = Some(best_finalized);
    }
}

} // verus!
