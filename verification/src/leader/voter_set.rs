use vstd::prelude::*;
use vstd::std_specs::iter::IteratorSpec;

use super::VoterId;

verus! {

/// The quorum size of a set of `n` voters: `n - floor((n - 1) / 3)`.
///
/// With at most `f = floor((n - 1) / 3)` faulty voters, any two quorums of
/// this size share more than `f` voters.
pub open spec fn quorum_threshold(n: nat) -> nat
    recommends
        n > 0,
{
    (n - (n - 1) / 3) as nat
}

/// The largest number of faulty voters a set of `n` voters tolerates.
pub open spec fn max_faulty(n: nat) -> nat
    recommends
        n > 0,
{
    ((n - 1) / 3) as nat
}

/// The voters in `s` that differ from `id`, in their order.
pub open spec fn without_voter(s: Seq<VoterId>, id: VoterId) -> Seq<VoterId> {
    s.filter(other_than(id))
}

/// The predicate "differs from `id`".
pub open spec fn other_than(id: VoterId) -> spec_fn(VoterId) -> bool {
    |x: VoterId| x != id
}

/// The leader of `view` among `voters`: voters rotate by view number.
pub open spec fn primary_of(voters: Seq<VoterId>, view: u64) -> VoterId
    recommends
        voters.len() > 0,
{
    voters[((view as usize) as int) % (voters.len() as int)]
}

/// A set of nodes valid to vote.
#[derive(PartialEq, Eq, Debug)]
pub struct VoterSet {
    /// Voter's Id, with the same order as the vector in genesis block (or the following).
    voters: Vec<VoterId>,
    /// The required threshold number for supermajority.
    /// Normally, it's > 2/3.
    threshold: usize,
}

impl View for VoterSet {
    type V = Seq<VoterId>;

    closed spec fn view(&self) -> Seq<VoterId> {
        self.voters@
    }
}

impl Clone for VoterSet {
    fn clone(&self) -> (r: Self)
        ensures
            r@ == self@,
            r.spec_threshold() == self.spec_threshold(),
    {
        proof {
            use_type_invariant(self);
        }
        VoterSet { voters: self.voters.clone(), threshold: self.threshold }
    }
}

/// The voters of `voters` that differ from `id`, in their order.
pub(crate) fn retain_others(voters: &Vec<VoterId>, id: &VoterId) -> (r: Vec<VoterId>)
    ensures
        r@ == without_voter(voters@, *id),
{
    let mut kept: Vec<VoterId> = Vec::new();
    let n = voters.len();
    let mut i: usize = 0;
    while i < n
        invariant
            n == voters@.len(),
            i <= n,
            kept@ == without_voter(voters@.take(i as int), *id),
        decreases n - i,
    {
        let x = voters[i];
        proof {
            lemma_filter_push(voters@.take(i as int), other_than(*id), x);
            assert(voters@.take(i as int).push(x) =~= voters@.take(i + 1));
        }
        if x != *id {
            kept.push(x);
        }
        i = i + 1;
    }
    assert(voters@.take(n as int) =~= voters@);
    kept
}

impl VoterSet {
    /// Every voter set needs at least one vote for a quorum.
    #[verifier::type_invariant]
    pub(crate) open spec fn inv(self) -> bool {
        self.spec_threshold() >= 1
    }

    /// The quorum size this set was made with.
    pub closed spec fn spec_threshold(self) -> nat {
        self.threshold as nat
    }

    /// Make a voter set; `None` when `voters` is empty.
    pub fn new(voters: Vec<VoterId>) -> (r: Option<Self>)
        ensures
            voters@.len() == 0 <==> r is None,
            r matches Some(s) ==> s@ == voters@ && s.spec_threshold() == quorum_threshold(
                voters@.len(),
            ),
    {
        if voters.is_empty() {
            None
        } else {
            let len = voters.len() - (voters.len() - 1) / 3;
            Some(Self { voters, threshold: len })
        }
    }

    /// Append a voter; the threshold is kept.
    pub fn add(&mut self, id: VoterId)
        ensures
            final(self)@ == old(self)@.push(id),
            final(self).spec_threshold() == old(self).spec_threshold(),
    {
        proof {
            use_type_invariant(&*self);
        }
        let mut voters: Vec<VoterId> = Vec::new();
        std::mem::swap(&mut voters, &mut self.voters);
        voters.push(id);
        self.voters = voters;
    }

    /// Remove every occurrence of a voter; the threshold is kept.
    pub fn remove(&mut self, id: &VoterId)
        ensures
            final(self)@ == without_voter(old(self)@, *id),
            final(self).spec_threshold() == old(self).spec_threshold(),
    {
        proof {
            use_type_invariant(&*self);
        }
        self.voters = retain_others(&self.voters, id);
    }

    pub fn is_empty(&self) -> (r: bool)
        ensures
            r == (self@.len() == 0),
    {
        self.voters.is_empty()
    }

    /// Whether the set holds at least as many voters as its threshold.
    pub fn is_full(&self) -> (r: bool)
        ensures
            r == (self@.len() >= self.spec_threshold()),
    {
        self.voters.len() >= self.threshold
    }

    pub fn is_member(&self, id: &VoterId) -> (r: bool)
        ensures
            r == self@.contains(*id),
    {
        self.contains(id)
    }

    pub fn threshold(&self) -> (r: usize)
        ensures
            r == self.spec_threshold(),
            r >= 1,
    {
        proof {
            use_type_invariant(self);
        }
        self.threshold
    }

    /// Get the size of the set.
    pub fn len(&self) -> (r: usize)
        requires
            self@.len() > 0,
        ensures
            r == self@.len(),
            r > 0,
    {
        self.voters.len()
    }

    /// Get the nth voter in the set, if any.
    ///
    /// Returns `None` if `n >= len`.
    pub fn nth(&self, n: usize) -> (r: Option<&VoterId>)
        ensures
            n < self@.len() <==> r is Some,
            r matches Some(v) ==> *v == self@[n as int],
    {
        if n < self.voters.len() {
            Some(&self.voters[n])
        } else {
            None
        }
    }

    /// Get a ref to voters.
    pub fn voters(&self) -> (r: &[VoterId])
        ensures
            r@ == self@,
    {
        self.voters.as_slice()
    }

    /// Get leader Id.
    pub fn get_primary(&self, view: u64) -> (r: VoterId)
        requires
            self@.len() > 0,
        ensures
            r == primary_of(self@, view),
    {
        let idx = (view as usize) % self.voters.len();
        self.voters[idx]
    }

    /// Whether the set contains a voter with the given ID.
    pub fn contains(&self, id: &VoterId) -> (r: bool)
        ensures
            r == self@.contains(*id),
    {
        let n = self.voters.len();
        let mut i: usize = 0;
        while i < n
            invariant
                n == self.voters@.len(),
                i <= n,
                forall|j: int| 0 <= j < i ==> self.voters@[j] != *id,
            decreases n - i,
        {
            if self.voters[i] == *id {
                return true;
            }
            i = i + 1;
        }
        false
    }

    /// Get an iterator over the voters in the set, in their order.
    pub fn iter(&self) -> (r: std::slice::Iter<'_, VoterId>)
        ensures
            r.remaining() == self@.as_ref(),
    {
        broadcast use vstd::std_specs::slice::axiom_spec_slice_iter;
        self.voters.as_slice().iter()
    }

    /// Get the voter with the given ID, if any.
    pub fn get(&self, id: &VoterId) -> (r: Option<&VoterId>)
        ensures
            r is Some <==> self@.contains(*id),
            r matches Some(v) ==> *v == *id,
    {
        let n = self.voters.len();
        let mut i: usize = 0;
        while i < n
            invariant
                n == self.voters@.len(),
                i <= n,
                forall|j: int| 0 <= j < i ==> self.voters@[j] != *id,
            decreases n - i,
        {
            if self.voters[i] == *id {
                return Some(&self.voters[i]);
            }
            i = i + 1;
        }
        None
    }
}

/// A quorum is a supermajority that the set can still reach with every faulty
/// voter silent: `3 * threshold > 2 * n` and `threshold + max_faulty(n) == n`.
pub proof fn lemma_quorum_threshold_bounds(n: nat)
    requires
        n > 0,
    ensures
        quorum_threshold(n) <= n,
        quorum_threshold(n) >= 1,
        3 * quorum_threshold(n) > 2 * n,
        quorum_threshold(n) + max_faulty(n) == n,
{
}

/// Any two quorums of a set of `n` distinct voters share more than `max_faulty(n)`
/// voters, so they share an honest one.
pub proof fn lemma_quorums_intersect(all: Set<VoterId>, a: Set<VoterId>, b: Set<VoterId>)
    requires
        all.finite(),
        all.len() > 0,
        a.subset_of(all),
        b.subset_of(all),
        a.len() >= quorum_threshold(all.len()),
        b.len() >= quorum_threshold(all.len()),
    ensures
        a.intersect(b).len() > max_faulty(all.len()),
{
    vstd::set_lib::lemma_len_subset(a, all);
    vstd::set_lib::lemma_len_subset(b, all);
    vstd::set_lib::lemma_len_subset(a + b, all);
    vstd::set_lib::lemma_set_intersect_union_lens(a, b);
}

/// The leader of a view is a member of the voter set.
pub proof fn lemma_primary_is_member(voters: Seq<VoterId>, view: u64)
    requires
        voters.len() > 0,
    ensures
        voters.contains(primary_of(voters, view)),
{
    let i = ((view as usize) as int) % (voters.len() as int);
    assert(voters[i] == primary_of(voters, view));
}

/// Leadership rotates through the voters in their order: view `i` is led by the
/// `i`-th voter for every `i` below the set's size, so every voter leads some
/// view, and two views a set's size apart have the same leader.
pub proof fn lemma_primary_rotates(voters: Seq<VoterId>, view: u64)
    requires
        voters.len() > 0,
        view <= usize::MAX,
    ensures
        view < voters.len() ==> primary_of(voters, view) == voters[view as int],
        view + voters.len() <= usize::MAX ==> primary_of(voters, (view + voters.len()) as u64)
            == primary_of(voters, view),
{
    let n = voters.len() as int;
    assert((view as usize) as int == view as int);
    if view < voters.len() {
        vstd::arithmetic::div_mod::lemma_small_mod(view as nat, n as nat);
    }
    if view + voters.len() <= usize::MAX {
        let w = (view + voters.len()) as u64;
        assert((w as usize) as int == view + n);
        vstd::arithmetic::div_mod::lemma_mod_add_multiples_vanish(view as int, n);
    }
}

/// Removing a voter drops exactly that voter: a voter remains after `remove(id)`
/// exactly when it was in the set and is not `id`.
pub proof fn lemma_remove_drops_only_that_voter(voters: Seq<VoterId>, id: VoterId, x: VoterId)
    ensures
        without_voter(voters, id).contains(x) <==> (voters.contains(x) && x != id),
{
    let f = without_voter(voters, id);
    if f.contains(x) {
        voters.lemma_filter_contains_rev(other_than(id), x);
        #[allow(deprecated)]
        voters.filter_lemma(other_than(id));
        let i = choose|i: int| 0 <= i < f.len() && f[i] == x;
        assert(other_than(id)(f[i]));
    }
    if voters.contains(x) && x != id {
        let i = choose|i: int| 0 <= i < voters.len() && voters[i] == x;
        voters.lemma_filter_contains(other_than(id), i);
    }
}

/// A change made to a voter set after construction.
pub enum VoterChange {
    /// `add(id)`: append a voter.
    Add(VoterId),
    /// `remove(id)`: drop every occurrence of a voter.
    Remove(VoterId),
}

/// The voters after one change.
pub open spec fn apply_change(voters: Seq<VoterId>, change: VoterChange) -> Seq<VoterId> {
    match change {
        VoterChange::Add(id) => voters.push(id),
        VoterChange::Remove(id) => without_voter(voters, id),
    }
}

/// The voters after a run of changes, in order.
pub open spec fn apply_changes(voters: Seq<VoterId>, changes: Seq<VoterChange>) -> Seq<VoterId>
    decreases changes.len(),
{
    if changes.len() == 0 {
        voters
    } else {
        apply_change(apply_changes(voters, changes.drop_last()), changes.last())
    }
}

/// Along any run of `add` and `remove` calls on a voter set, each making one step as
/// its contract states, the threshold stays the one the set was made with, and the
/// voters are those of the set with the changes applied in order.
///
/// A set stands here as its voters and its threshold, `(s@, s.spec_threshold())`
/// (`s.spec_threshould()` for the single-block form), so the law covers both forms.
pub proof fn lemma_changes_keep_threshold(sets: Seq<(Seq<VoterId>, nat)>, changes: Seq<VoterChange>)
    requires
        sets.len() == changes.len() + 1,
        forall|i: int|
            0 <= i < changes.len() ==> #[trigger] sets[i + 1].0 == apply_change(sets[i].0, changes[i])
                && sets[i + 1].1 == sets[i].1,
    ensures
        sets.last().1 == sets[0].1,
        sets.last().0 == apply_changes(sets[0].0, changes),
    decreases changes.len(),
{
    if changes.len() > 0 {
        let k = changes.len() - 1;
        let prefix = sets.drop_last();
        assert forall|i: int| 0 <= i < changes.drop_last().len() implies #[trigger] prefix[i + 1].0
            == apply_change(prefix[i].0, changes.drop_last()[i]) && prefix[i + 1].1 == prefix[i].1 by {
            assert(sets[i + 1].0 == apply_change(sets[i].0, changes[i]));
        }
        lemma_changes_keep_threshold(prefix, changes.drop_last());
        assert(sets[k + 1].0 == apply_change(sets[k].0, changes[k]));
    }
}

/// Adding voters one by one keeps their order: the voters are the original ones
/// followed by the added ones, as `get_primary` rotates through them.
pub proof fn lemma_adds_append(voters: Seq<VoterId>, ids: Seq<VoterId>)
    ensures
        apply_changes(voters, ids.map_values(|id: VoterId| VoterChange::Add(id))) == voters + ids,
    decreases ids.len(),
{
    let changes = ids.map_values(|id: VoterId| VoterChange::Add(id));
    if ids.len() > 0 {
        lemma_adds_append(voters, ids.drop_last());
        assert(changes.drop_last() =~= ids.drop_last().map_values(|id: VoterId| VoterChange::Add(id)));
        assert(voters + ids =~= (voters + ids.drop_last()).push(ids.last()));
    } else {
        assert(voters + ids =~= voters);
    }
}

/// Filtering a sequence extended by one element.
pub proof fn lemma_filter_push<A>(s: Seq<A>, pred: spec_fn(A) -> bool, e: A)
    ensures
        pred(e) ==> s.push(e).filter(pred) == s.filter(pred).push(e),
        !pred(e) ==> s.push(e).filter(pred) == s.filter(pred),
{
    reveal(Seq::filter);
    assert(s.push(e).drop_last() =~= s);
}

} // verus!
