//! Voter logic that runs between network steps.
pub mod communicate;
mod peer_view;
pub mod report;

pub use peer_view::{
    clone_commit, clone_optional_commit, lemma_record_view_monotone, record_view, same_commit, same_optional_commit,
    valid_view, voters_in_view, PeerViewChange, VoterFinalizedCommit,
};

use vstd::prelude::*;
use vstd::std_specs::cmp::PartialEqSpecImpl;
use vstd::std_specs::convert::FromSpecImpl;

use super::messages::{CatchUp, CompactCommit, CurrentState, FinalizedCommit, SignedCommit, ViewChange};
use super::storage::Storage;
use super::validation::CommitValidationResult;
use super::voter_set::VoterSet;
use super::{BlockNumber, Digest, Signature, VoterId};

verus! {

/// The outcome of processing a commit.
#[derive(Debug, Clone, PartialEq, Eq)]
pub enum CommitProcessingOutcome {
    /// It was beneficial to process this commit.
    Good(GoodCommit),
    /// It wasn't beneficial to process this commit. We wasted resources.
    Bad(BadCommit),
}

impl CommitProcessingOutcome {
    /// Returns a `Good` instance of commit processing outcome's opaque type. Useful for testing.
    pub fn good() -> (r: CommitProcessingOutcome)
        ensures
            r is Good,
    {
        CommitProcessingOutcome::Good(GoodCommit::new())
    }

    /// Returns a `Bad` instance of commit processing outcome's opaque type. Useful for testing.
    pub fn bad() -> (r: CommitProcessingOutcome)
        ensures
            r matches CommitProcessingOutcome::Bad(b) && b.spec_num_commits() == 0
                && b.spec_num_duplicated() == 0 && b.spec_num_invalid_voters() == 0,
    {
        CommitProcessingOutcome::Bad(BadCommit::from(CommitValidationResult::<(), ()>::default()))
    }
}

/// The result of processing for a good commit.
#[derive(Debug, Clone, PartialEq, Eq)]
pub struct GoodCommit {}

impl GoodCommit {
    pub(crate) fn new() -> (r: Self) {
        GoodCommit {  }
    }
}

/// The result of processing for a bad commit
#[derive(Debug, Clone, PartialEq, Eq)]
pub struct BadCommit {
    num_commits: usize,
    num_duplicated_commits: usize,
    num_invalid_voters: usize,
}

impl BadCommit {
    pub closed spec fn spec_num_commits(self) -> usize {
        self.num_commits
    }

    pub closed spec fn spec_num_duplicated(self) -> usize {
        self.num_duplicated_commits
    }

    pub closed spec fn spec_num_invalid_voters(self) -> usize {
        self.num_invalid_voters
    }

    /// Get the number of precommits
    pub fn num_commits(&self) -> (r: usize)
        ensures
            r == self.spec_num_commits(),
    {
        self.num_commits
    }

    /// Get the number of duplicated precommits
    pub fn num_duplicated(&self) -> (r: usize)
        ensures
            r == self.spec_num_duplicated(),
    {
        self.num_duplicated_commits
    }

    /// Get the number of invalid voters in the precommits
    pub fn num_invalid_voters(&self) -> (r: usize)
        ensures
            r == self.spec_num_invalid_voters(),
    {
        self.num_invalid_voters
    }
}

impl<H, N> From<CommitValidationResult<H, N>> for BadCommit {
    fn from(r: CommitValidationResult<H, N>) -> (b: Self)
        ensures
            b.spec_num_commits() == r.spec_num_commits(),
            b.spec_num_duplicated() == r.spec_num_duplicated_commits(),
            b.spec_num_invalid_voters() == r.spec_num_invalid_voters(),
    {
        BadCommit {
            num_commits: r.num_commits(),
            num_duplicated_commits: r.num_duplicated_commits(),
            num_invalid_voters: r.num_invalid_voters(),
        }
    }
}

impl<H, N> FromSpecImpl<CommitValidationResult<H, N>> for BadCommit {
    open spec fn obeys_from_spec() -> bool {
        false
    }

    open spec fn from_spec(r: CommitValidationResult<H, N>) -> Self {
        arbitrary()
    }
}

/// The outcome of processing a catch up.
#[derive(Debug, Clone, PartialEq, Eq)]
pub enum CatchUpProcessingOutcome {
    /// It was beneficial to process this catch up.
    Good(GoodCatchUp),
    /// It wasn't beneficial to process this catch up, it is invalid and we
    /// wasted resources.
    Bad(BadCatchUp),
    /// The catch up wasn't processed because it is useless, e.g. it is for a
    /// round lower than we're currently in.
    Useless,
}

impl CatchUpProcessingOutcome {
    /// Returns a `Bad` instance of catch up processing outcome's opaque type. Useful for testing.
    pub fn bad() -> (r: CatchUpProcessingOutcome)
        ensures
            r is Bad,
    {
        CatchUpProcessingOutcome::Bad(BadCatchUp::new())
    }

    /// Returns a `Good` instance of catch up processing outcome's opaque type. Useful for testing.
    pub fn good() -> (r: CatchUpProcessingOutcome)
        ensures
            r is Good,
    {
        CatchUpProcessingOutcome::Good(GoodCatchUp::new())
    }
}

/// The result of processing for a good catch up.
#[derive(Debug, Clone, PartialEq, Eq)]
pub struct GoodCatchUp {}

impl GoodCatchUp {
    pub(crate) fn new() -> (r: Self) {
        GoodCatchUp {  }
    }
}

/// The result of processing for a bad catch up.
#[derive(Debug, Clone, PartialEq, Eq)]
pub struct BadCatchUp {}

impl BadCatchUp {
    pub(crate) fn new() -> (r: Self) {
        BadCatchUp {  }
    }
}

/// Communication between nodes that is not round-localized.
#[derive(Debug, Clone)]
pub enum GlobalMessageIn<D, N, S, Id> {
    /// A commit message.
    Commit(u64, CompactCommit<D, N, S, Id>),
    /// A catch up message.
    CatchUp(CatchUp<N, D, S, Id>),
    /// multicast <view + 1, latest stable checkpoint, C: a set of pairs with the sequence number
    /// and digest of each checkpoint, P, Q, i>
    ViewChange(ViewChange<Id>),
    /// A workaround for test network.
    Empty,
}

/// Global messages compare equal only when both are `Empty`.
impl<D, N, S, Id> PartialEq for GlobalMessageIn<D, N, S, Id> {
    fn eq(&self, other: &Self) -> (r: bool) {
        match (self, other) {
            (Self::Empty, Self::Empty) => true,
            _ => false,
        }
    }
}

impl<D, N, S, Id> PartialEqSpecImpl for GlobalMessageIn<D, N, S, Id> {
    open spec fn obeys_eq_spec() -> bool {
        true
    }

    open spec fn eq_spec(&self, other: &Self) -> bool {
        *self is Empty && *other is Empty
    }
}

/// Communication between nodes that is not round-localized.
#[derive(Debug, Clone)]
pub enum GlobalMessageOut<D, N, S, Id> {
    /// A commit message.
    Commit(u64, FinalizedCommit<N, D, S, Id>),
    /// multicast <view + 1, latest stable checkpoint, C: a set of pairs with the sequence number
    /// and digest of each checkpoint, P, Q, i>
    ViewChange(ViewChange<Id>),
    Empty,
}

/// A global message as the voter handles it.
pub type VoterGlobalMessage = GlobalMessageIn<Digest, BlockNumber, Signature, VoterId>;

/// The views after every signer of `commits`, in order, votes for `view`.
pub open spec fn record_signers(
    views: Map<VoterId, u64>,
    commits: Seq<SignedCommit<BlockNumber, Digest, Signature, VoterId>>,
    view: u64,
) -> Map<VoterId, u64>
    decreases commits.len(),
{
    if commits.len() == 0 {
        views
    } else {
        record_view(record_signers(views, commits.drop_last(), view), commits.last().id, view)
    }
}

impl PeerViewChange {
    /// Process a global message received while voting.
    ///
    /// A catch-up records its view for every signer of its commits and becomes the
    /// best finalized commit, targeting the block of its first commit; a view change
    /// from a peer records the peer's view (the voter's own is ignored).
    pub fn process_global_message(&mut self, msg: VoterGlobalMessage, local_id: VoterId)
        requires
            !(msg is Commit),
            msg matches GlobalMessageIn::CatchUp(c) ==> c.commits@.len() > 0,
        ensures
            match msg {
                GlobalMessageIn::CatchUp(c) => {
                    &&& final(self).views() == record_signers(old(self).views(), c.commits@, c.view_number)
                    &&& final(self).best_finalized() matches Some(f) && f.target_number
                        == c.commits@[0].commit.target_number && f.target_hash
                        == c.commits@[0].commit.target_hash && f.commits@ == c.commits@
                },
                GlobalMessageIn::ViewChange(vc) => {
                    &&& final(self).views() == if vc.id == local_id {
                        old(self).views()
                    } else {
                        record_view(old(self).views(), vc.id, vc.new_view)
                    }
                    &&& final(self).best_finalized() == old(self).best_finalized()
                },
                _ => final(self).views() == old(self).views() && final(self).best_finalized()
                    == old(self).best_finalized(),
            },
    {
        match msg {
            GlobalMessageIn::CatchUp(catch_up) => {
                let view_number = catch_up.view_number;
                let commits = catch_up.commits;
                let target = (commits[0].commit.target_number, commits[0].commit.target_hash);
                let n = commits.len();
                let mut i: usize = 0;
                while i < n
                    invariant
                        n == commits@.len(),
                        i <= n,
                        self.views() == record_signers(old(self).views(), commits@.take(i as int), view_number),
                        self.best_finalized() == old(self).best_finalized(),
                    decreases n - i,
                {
                    proof {
                        assert(commits@.take(i + 1).drop_last() =~= commits@.take(i as int));
                    }
                    self.insert(commits[i].id, view_number);
                    i = i + 1;
                }
                proof {
                    assert(commits@.take(n as int) =~= commits@);
                }
                let f_commit = FinalizedCommit { target_number: target.0, target_hash: target.1, commits };
                self.insert_best_common_finalized(f_commit);
            },
            GlobalMessageIn::ViewChange(view_change) => {
                if view_change.id == local_id {
                    return ;
                }
                self.insert(view_change.id, view_change.new_view);
            },
            _ => {},
        }
    }

    /// One check of a view change to `new_view`: when enough peers (besides this
    /// voter, whose vote is not logged) want a view at least `new_view`, the highest
    /// such view is taken with the best finalized commit heard of, and the votes are
    /// forgotten.
    pub fn try_change_view(&mut self, new_view: u64, voters: &VoterSet) -> (r: Option<
        (u64, Option<VoterFinalizedCommit>),
    >)
        ensures
            ({
                let t = (voters.spec_threshold() - 1) as usize;
                let views = old(self).views();
                &&& r is None <==> !(exists|id: VoterId| #[trigger]
                    views.contains_key(id) && valid_view(views, views[id], new_view, t))
                &&& r matches Some(p) ==> views.values().contains(p.0) && valid_view(
                    views,
                    p.0,
                    new_view,
                    t,
                ) && same_optional_commit(p.1, old(self).best_finalized())
                &&& r matches Some(p) ==> forall|id: VoterId| #[trigger]
                    views.contains_key(id) && valid_view(views, views[id], new_view, t) ==> views[id]
                        <= p.0
            }),
            r is Some ==> final(self).views() == Map::<VoterId, u64>::empty(),
            r is None ==> final(self).views() == old(self).views(),
            final(self).best_finalized() == old(self).best_finalized(),
    {
        let result = self.exist_valid_view(new_view, voters.threshold() - 1);
        if result.is_some() {
            self.prune();
        }
        result
    }
}

/// What the voter reports of its round.
pub fn view_state(storage: &Storage) -> (r: report::ViewState<Digest, VoterId>)
    requires
        storage@.wf(),
    ensures
        r.state == storage@.current_state,
        r.total_voters == storage@.voters.len(),
        r.threshold == storage@.threshold,
        r.preprepare_hash == match storage@.target {
            Some(t) => Some(t.1),
            None => None::<Digest>,
        },
        r.prepare_ids@ == storage@.prepare.dom(),
        r.commit_ids@ == storage@.commit.dom(),
{
    let preprepare_hash = match storage.target() {
        Some(t) => Some(*t.0),
        None => None,
    };
    report::ViewState {
        state: storage.current_state(),
        total_voters: storage.voters().len(),
        threshold: storage.voters().threshold(),
        preprepare_hash,
        prepare_ids: storage.prepare_ids(),
        commit_ids: storage.commit_ids(),
    }
}

/// Where a voter stands between voting rounds: its view and the last block it
/// finalized, on top of which the next round votes.
#[derive(Clone, Copy, Debug)]
pub struct VoterProgress {
    pub view: u64,
    pub last_finalized: (BlockNumber, Digest),
}

/// What the runtime reports back to a voter.
#[derive(Clone, Copy, Debug)]
pub enum VoterEvent {
    /// A voting round ended: the block it finalized, or none when it failed.
    RoundEnded(Option<(BlockNumber, Digest)>),
    /// A view change settled on this view, with the finalized block the peers
    /// agreed on, if any.
    ViewChanged(u64, Option<(BlockNumber, Digest)>),
}

/// What the runtime does next for a voter.
#[derive(Clone, Copy, Debug)]
pub enum VoterAction {
    /// Run the next voting round in the current view.
    NextRound,
    /// Ask the peers to move to this view.
    ChangeView(u64),
    /// Start a fresh voting round in the view just entered.
    NewView,
}

/// One step of a voter: a round that finalized a block moves the base of the next
/// round there and stays in its view; a failed round asks for the next view; a
/// settled view change enters its view, on top of the block the peers finalized
/// when they report one.
pub fn voter_step(p: VoterProgress, event: VoterEvent) -> (r: (VoterProgress, VoterAction))
    requires
        event matches VoterEvent::RoundEnded(None) ==> p.view < u64::MAX,
    ensures
        match event {
            VoterEvent::RoundEnded(Some(base)) => r == (
                VoterProgress { view: p.view, last_finalized: base },
                VoterAction::NextRound,
            ),
            VoterEvent::RoundEnded(None) => r == (p, VoterAction::ChangeView((p.view + 1) as u64)),
            VoterEvent::ViewChanged(view, finalized) => r == (
                VoterProgress {
                    view,
                    last_finalized: match finalized {
                        Some(f) => f,
                        None => p.last_finalized,
                    },
                },
                VoterAction::NewView,
            ),
        },
{
    match event {
        VoterEvent::RoundEnded(Some(base)) => (
            VoterProgress { view: p.view, last_finalized: base },
            VoterAction::NextRound,
        ),
        VoterEvent::RoundEnded(None) => (p, VoterAction::ChangeView(p.view + 1)),
        VoterEvent::ViewChanged(view, finalized) => {
            let last_finalized = match finalized {
                Some(f) => f,
                None => p.last_finalized,
            };
            (VoterProgress { view, last_finalized }, VoterAction::NewView)
        },
    }
}

/// Trait for querying the state of the voter. Used by `Voter` to return a queryable object
/// without exposing too many data types.
pub trait VoterState<Hash, Id: Eq + std::hash::Hash> {
    /// Returns a plain data type, `report::VoterState`, describing the current state
    /// of the voter relevant to the voting process.
    fn get(&self) -> report::VoterState<Hash, Id>;
}

} // verus!
