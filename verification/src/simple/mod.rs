//! PBFT finality in single-block form: each view round finalizes one block
//! proposed by the environment, and a view change is decided by counting
//! view-change votes for the next view.
pub mod communicate;
pub mod helper;
pub mod report;
pub mod view_round;
mod voter_set;

pub use helper::{lemma_supermajority_is_two_thirds, supermajority};
pub use voter_set::VoterSet;

use std::collections::HashMap;

use vstd::prelude::*;

use crate::leader::{primary_of, BlockNumber, Digest, VoterId};

verus! {

/// Error for PBFT consensus.
#[derive(Debug, Clone, Copy, PartialEq, Eq, Structural)]
pub enum Error {
    /// No Primary message was received.
    PrimaryFailure,
}

impl Error {
    /// The message that describes the error.
    pub fn to_string(&self) -> (r: String)
        ensures
            r@ == "No primary message, may need to initiate view change."@,
    {
        let r = String::from_str("No primary message, may need to initiate view change.");
        proof {
            reveal_strlit("No primary message, may need to initiate view change.");
        }
        r
    }
}

/// V: view number
/// N: sequence number
/// D: Digest of the block, that is header
#[derive(Clone, Copy, Debug, PartialEq, Eq)]
pub enum Message<N, D> {
    /// A message to be sent to the network by primary alive but not yet have a new
    /// block to make consensus.
    EmptyPrePrepare,
    /// multicast (except from the primary) <view, number, Digest(m)>
    Prepare { view: u64, seq_number: N, digest: D },
    /// multicast <view, number>
    Commit { view: u64, seq_number: N },
}

/// A message of the view change protocol.
#[derive(Clone, Copy, Debug, PartialEq, Eq)]
pub enum GlobalMessage<ID> {
    /// multicast <view + 1, latest stable checkpoint, C: a set of pairs with the sequence number
    /// and digest of each checkpoint, P, Q, i>
    ViewChange { new_view: u64, id: ID },
    /// NOTE: This is a hack to make the consensus work.
    Empty,
}

/// A round message with its sender and signature.
#[derive(Clone, Copy, Debug)]
pub struct SignedMessage<N, H, Signature, ID> {
    pub from: ID,
    pub message: Message<N, H>,
    pub signature: Signature,
}

/// Phase of a view round.
#[derive(PartialEq, Eq, Clone, Copy, Debug, Structural)]
pub enum CurrentState {
    // Initial state.
    PrePrepare,
    Prepare,
    Commit,
}

/// A round message as the log holds it.
pub type LogMessage = Message<BlockNumber, Digest>;

/// The abstract content of a [`Storage`].
pub struct StorageView {
    pub preprepare_hash: Option<Digest>,
    pub preprepare: Map<VoterId, ()>,
    pub prepare: Map<VoterId, LogMessage>,
    pub commit: Map<VoterId, LogMessage>,
}

impl StorageView {
    /// Whether `id` has sent any message in the round.
    pub open spec fn has_voted(self, id: VoterId) -> bool {
        self.preprepare.contains_key(id) || self.prepare.contains_key(id) || self.commit.contains_key(
            id,
        )
    }
}

/// The log after saving `message` from `from`: each kind of message is kept per sender,
/// the latest one replacing an earlier one.
pub open spec fn save_message_spec(s: StorageView, from: VoterId, message: LogMessage) -> StorageView {
    match message {
        Message::Prepare { .. } => StorageView { prepare: s.prepare.insert(from, message), ..s },
        Message::Commit { .. } => StorageView { commit: s.commit.insert(from, message), ..s },
        Message::EmptyPrePrepare => StorageView { preprepare: s.preprepare.insert(from, ()), ..s },
    }
}

/// Each kind of message goes to its own table alone: an empty PREPREPARE records
/// its sender among the PREPREPAREs and is no PREPARE or COMMIT vote, a PREPARE is
/// counted among the PREPAREs only and a COMMIT among the COMMITs only; the other
/// senders' entries and the proposed hash stay as they were.
pub proof fn lemma_save_message_by_kind(s: StorageView, from: VoterId, message: LogMessage)
    ensures
        ({
            let after = save_message_spec(s, from, message);
            &&& after.preprepare_hash == s.preprepare_hash
            &&& message is EmptyPrePrepare ==> {
                &&& after.prepare == s.prepare
                &&& after.commit == s.commit
                &&& after.preprepare.contains_key(from)
                &&& after.preprepare.remove(from) == s.preprepare.remove(from)
            }
            &&& message is Prepare ==> {
                &&& after.preprepare == s.preprepare
                &&& after.commit == s.commit
                &&& after.prepare.contains_key(from) && after.prepare[from] == message
                &&& after.prepare.remove(from) == s.prepare.remove(from)
            }
            &&& message is Commit ==> {
                &&& after.preprepare == s.preprepare
                &&& after.prepare == s.prepare
                &&& after.commit.contains_key(from) && after.commit[from] == message
                &&& after.commit.remove(from) == s.commit.remove(from)
            }
        }),
{
    let after = save_message_spec(s, from, message);
    match message {
        Message::EmptyPrePrepare => {
            assert(after.preprepare.remove(from) =~= s.preprepare.remove(from));
        },
        Message::Prepare { .. } => {
            assert(after.prepare.remove(from) =~= s.prepare.remove(from));
        },
        Message::Commit { .. } => {
            assert(after.commit.remove(from) =~= s.commit.remove(from));
        },
    }
}

/// The messages of a view round.
#[derive(Debug)]
pub struct Storage {
    preprepare_hash: Option<Digest>,
    preprepare: HashMap<VoterId, ()>,
    prepare: HashMap<VoterId, LogMessage>,
    commit: HashMap<VoterId, LogMessage>,
}

impl View for Storage {
    type V = StorageView;

    closed spec fn view(&self) -> StorageView {
        StorageView {
            preprepare_hash: self.preprepare_hash,
            preprepare: self.preprepare@,
            prepare: self.prepare@,
            commit: self.commit@,
        }
    }
}

impl Storage {
    pub fn new() -> (r: Self)
        ensures
            r@ == (StorageView {
                preprepare_hash: None,
                preprepare: Map::empty(),
                prepare: Map::empty(),
                commit: Map::empty(),
            }),
    {
        Self {
            preprepare_hash: None,
            preprepare: HashMap::new(),
            prepare: HashMap::new(),
            commit: HashMap::new(),
        }
    }

    /// Whether `key` has sent any message in the round.
    pub fn contains_key(&self, key: &VoterId) -> (r: bool)
        ensures
            r == self@.has_voted(*key),
    {
        self.preprepare.contains_key(key) || self.prepare.contains_key(key)
            || self.commit.contains_key(key)
    }

    /// Record a message of the round.
    pub fn save_message(&mut self, from: VoterId, message: LogMessage)
        ensures
            final(self)@ == save_message_spec(old(self)@, from, message),
    {
        match message {
            Message::Prepare { .. } => {
                self.prepare.insert(from, message);
            },
            Message::Commit { .. } => {
                self.commit.insert(from, message);
            },
            Message::EmptyPrePrepare => {
                self.preprepare.insert(from, ());
            },
        }
    }

    /// The number of voters that sent a PREPARE.
    pub fn count_prepare(&self) -> (r: usize)
        ensures
            r == self@.prepare.len(),
    {
        self.prepare.len()
    }

    /// The number of voters that sent a COMMIT.
    pub fn count_commit(&self) -> (r: usize)
        ensures
            r == self@.commit.len(),
    {
        self.commit.len()
    }

    /// The hash of the block proposed in the round, if any.
    pub fn preprepare_hash(&self) -> (r: Option<Digest>)
        ensures
            r == self@.preprepare_hash,
    {
        self.preprepare_hash
    }

    /// Record the hash of the block proposed in the round.
    pub fn set_preprepare_hash(&mut self, hash: Digest)
        ensures
            final(self)@ == (StorageView { preprepare_hash: Some(hash), ..old(self)@ }),
    {
        self.preprepare_hash = Some(hash);
    }
}

/// The decisions of a voter in one view round.
#[derive(Debug)]
pub struct RoundCore {
    voter_set: VoterSet,
    current_state: CurrentState,
    view: u64,
    current_height: BlockNumber,
    id: VoterId,
}

impl RoundCore {
    #[verifier::type_invariant]
    spec fn inv(self) -> bool {
        self.voter_set@.len() > 0
    }

    /// The voters of the round.
    pub closed spec fn spec_voters(self) -> Seq<VoterId> {
        self.voter_set@
    }

    /// The phase of the round.
    pub closed spec fn spec_state(self) -> CurrentState {
        self.current_state
    }

    /// The view of the round.
    pub closed spec fn spec_view(self) -> u64 {
        self.view
    }

    /// The height of the block the round votes on.
    pub closed spec fn spec_height(self) -> BlockNumber {
        self.current_height
    }

    /// This voter.
    pub closed spec fn spec_id(self) -> VoterId {
        self.id
    }

    /// A round of `view` at `current_height`, in the PREPREPARE phase.
    pub fn new(view: u64, current_height: BlockNumber, voter_set: VoterSet, voter_id: VoterId) -> (r: Self)
        requires
            voter_set@.len() > 0,
        ensures
            r.spec_voters() == voter_set@,
            r.spec_state() == CurrentState::PrePrepare,
            r.spec_view() == view,
            r.spec_height() == current_height,
            r.spec_id() == voter_id,
    {
        RoundCore {
            voter_set,
            current_state: CurrentState::PrePrepare,
            view,
            current_height,
            id: voter_id,
        }
    }

    /// The phase of the round.
    pub fn current_state(&self) -> (r: CurrentState)
        ensures
            r == self.spec_state(),
    {
        self.current_state
    }

    /// The height of the block the round votes on.
    pub fn current_height(&self) -> (r: BlockNumber)
        ensures
            r == self.spec_height(),
    {
        self.current_height
    }

    /// The view of the round.
    pub fn view(&self) -> (r: u64)
        ensures
            r == self.spec_view(),
    {
        self.view
    }

    /// Move to another phase.
    pub fn change_state(&mut self, state: CurrentState)
        ensures
            final(self).spec_state() == state,
            final(self).spec_voters() == old(self).spec_voters(),
            final(self).spec_view() == old(self).spec_view(),
            final(self).spec_height() == old(self).spec_height(),
            final(self).spec_id() == old(self).spec_id(),
    {
        proof {
            use_type_invariant(&*self);
        }
        self.current_state = state;
    }

    /// Whether this voter leads the round's view.
    pub fn is_primary(&self) -> (r: bool)
        ensures
            r == (primary_of(self.spec_voters(), self.spec_view()) == self.spec_id()),
    {
        proof {
            use_type_invariant(self);
        }
        self.voter_set.get_primary(self.view) == self.id
    }

    /// Accept the round's PREPREPARE: enter PREPARE.
    pub fn validate_preprepare(&mut self) -> (r: bool)
        ensures
            r,
            final(self).spec_state() == CurrentState::Prepare,
            final(self).spec_voters() == old(self).spec_voters(),
            final(self).spec_view() == old(self).spec_view(),
            final(self).spec_height() == old(self).spec_height(),
            final(self).spec_id() == old(self).spec_id(),
    {
        if self.is_primary() {
            self.change_state(CurrentState::Prepare);
        } else {
            // A backup accepts the PREPREPARE as well.
            self.change_state(CurrentState::Prepare);
        }
        true
    }

    /// Enter COMMIT once a supermajority of voters sent a PREPARE.
    pub fn validate_prepare(&mut self, log: &Storage) -> (r: bool)
        requires
            log@.prepare.len() <= old(self).spec_voters().len(),
            3 * (old(self).spec_voters().len() - log@.prepare.len()) <= usize::MAX,
        ensures
            r,
            final(self).spec_state() == if old(self).spec_voters().len() > 3 * (old(
                self,
            ).spec_voters().len() - log@.prepare.len()) {
                CurrentState::Commit
            } else {
                old(self).spec_state()
            },
            final(self).spec_voters() == old(self).spec_voters(),
            final(self).spec_view() == old(self).spec_view(),
            final(self).spec_height() == old(self).spec_height(),
            final(self).spec_id() == old(self).spec_id(),
    {
        let c = log.count_prepare();
        if supermajority(self.voter_set.voters().len(), c) {
            self.change_state(CurrentState::Commit)
        }
        true
    }

    /// Back to PREPREPARE once a supermajority of voters sent a COMMIT; `true` then.
    pub fn validate_commit(&mut self, log: &Storage) -> (r: bool)
        requires
            log@.commit.len() <= old(self).spec_voters().len(),
            3 * (old(self).spec_voters().len() - log@.commit.len()) <= usize::MAX,
        ensures
            r == (old(self).spec_voters().len() > 3 * (old(self).spec_voters().len()
                - log@.commit.len())),
            final(self).spec_state() == if r {
                CurrentState::PrePrepare
            } else {
                old(self).spec_state()
            },
            final(self).spec_voters() == old(self).spec_voters(),
            final(self).spec_view() == old(self).spec_view(),
            final(self).spec_height() == old(self).spec_height(),
            final(self).spec_id() == old(self).spec_id(),
    {
        let c = log.count_commit();
        if supermajority(self.voter_set.voters().len(), c) {
            self.change_state(CurrentState::PrePrepare);
            return true;
        }
        false
    }

    /// Whether the leader of the round's view has sent any message.
    pub fn primary_alive(&self, log: &Storage) -> (r: Result<(), Error>)
        ensures
            r is Ok <==> log@.has_voted(primary_of(self.spec_voters(), self.spec_view())),
            r matches Err(e) ==> e == Error::PrimaryFailure,
    {
        proof {
            use_type_invariant(self);
        }
        let primary = self.voter_set.get_primary(self.view);
        if log.contains_key(&primary) {
            Ok(())
        } else {
            Err(Error::PrimaryFailure)
        }
    }

    /// Take the environment's proposal for the round: with a block, vote on it;
    /// without one, the message to multicast to show this voter is alive.
    pub fn record_preprepare(&mut self, log: &mut Storage, proposal: Option<(Digest, BlockNumber)>) -> (r: Option<LogMessage>)
        ensures
            match proposal {
                Some(p) => {
                    &&& r is None
                    &&& final(self).spec_height() == p.1
                    &&& final(log)@ == (StorageView { preprepare_hash: Some(p.0), ..old(log)@ })
                },
                None => {
                    &&& r == Some(Message::<BlockNumber, Digest>::EmptyPrePrepare)
                    &&& final(self).spec_height() == old(self).spec_height()
                    &&& final(log)@ == old(log)@
                },
            },
            final(self).spec_state() == old(self).spec_state(),
            final(self).spec_voters() == old(self).spec_voters(),
            final(self).spec_view() == old(self).spec_view(),
            final(self).spec_id() == old(self).spec_id(),
    {
        match proposal {
            Some((hash, height)) => {
                proof {
                    use_type_invariant(&*self);
                }
                self.current_height = height;
                log.set_preprepare_hash(hash);
                None
            },
            None => Some(Message::EmptyPrePrepare),
        }
    }

    /// Enter the PREPARE phase and give the PREPARE to multicast.
    pub fn prepare(&mut self, log: &Storage) -> (r: LogMessage)
        requires
            log@.preprepare_hash is Some,
        ensures
            r == (Message::Prepare {
                view: old(self).spec_view(),
                seq_number: old(self).spec_height(),
                digest: log@.preprepare_hash.unwrap(),
            }),
            final(self).spec_state() == if old(self).spec_state() == CurrentState::PrePrepare {
                CurrentState::Prepare
            } else {
                old(self).spec_state()
            },
            final(self).spec_voters() == old(self).spec_voters(),
            final(self).spec_view() == old(self).spec_view(),
            final(self).spec_height() == old(self).spec_height(),
            final(self).spec_id() == old(self).spec_id(),
    {
        if self.current_state == CurrentState::PrePrepare {
            self.change_state(CurrentState::Prepare);
        }
        Message::Prepare {
            view: self.view,
            seq_number: self.current_height,
            digest: log.preprepare_hash().unwrap(),
        }
    }

    /// Enter the COMMIT phase when a supermajority prepared, and give the COMMIT to
    /// multicast.
    pub fn commit(&mut self, log: &Storage) -> (r: LogMessage)
        requires
            log@.prepare.len() <= old(self).spec_voters().len(),
            3 * (old(self).spec_voters().len() - log@.prepare.len()) <= usize::MAX,
        ensures
            r == (Message::<BlockNumber, Digest>::Commit {
                view: old(self).spec_view(),
                seq_number: old(self).spec_height(),
            }),
            final(self).spec_state() == if old(self).spec_state() == CurrentState::Prepare && old(
                self,
            ).spec_voters().len() > 3 * (old(self).spec_voters().len() - log@.prepare.len()) {
                CurrentState::Commit
            } else {
                old(self).spec_state()
            },
            final(self).spec_voters() == old(self).spec_voters(),
            final(self).spec_view() == old(self).spec_view(),
            final(self).spec_height() == old(self).spec_height(),
            final(self).spec_id() == old(self).spec_id(),
    {
        if self.current_state == CurrentState::Prepare {
            self.validate_prepare(log);
        }
        Message::Commit { view: self.view, seq_number: self.current_height }
    }
}

/// The view-change votes collected for one view.
pub type ViewChangeLog = HashMap<VoterId, GlobalMessage<VoterId>>;

/// Keep `msg` in `log` when it is a vote to change to `new_view`.
pub fn record_view_change(log: &mut ViewChangeLog, new_view: u64, msg: GlobalMessage<VoterId>)
    ensures
        final(log)@ == match msg {
            GlobalMessage::ViewChange { new_view: v, id } => if v == new_view {
                old(log)@.insert(id, msg)
            } else {
                old(log)@
            },
            GlobalMessage::Empty => old(log)@,
        },
{
    if let GlobalMessage::ViewChange { new_view: new_view_received, id } = msg {
        if new_view == new_view_received {
            log.insert(id, msg);
        }
    }
}

/// What a voter does after collecting view-change votes for `new_view`.
#[derive(Debug, Clone, Copy, PartialEq, Eq)]
pub enum ViewChangeStep {
    /// Enough voters agree: the voter moves to this view.
    Changed(u64),
    /// Not enough voters agree: vote again, for this view.
    Retry(u64),
}

/// The decision after a round of view-change votes: move to `new_view` with a
/// threshold of votes; otherwise vote again, for the same view when its leader
/// voted for it, for the next view when not.
pub fn view_change_step(log: &ViewChangeLog, voters: &VoterSet, new_view: u64) -> (r: ViewChangeStep)
    requires
        voters@.len() > 0,
        log@.len() < voters.spec_threshould() && !log@.contains_key(primary_of(voters@, new_view))
            ==> new_view < u64::MAX,
    ensures
        log@.len() >= voters.spec_threshould() ==> r == ViewChangeStep::Changed(new_view),
        log@.len() < voters.spec_threshould() && log@.contains_key(primary_of(voters@, new_view))
            ==> r == ViewChangeStep::Retry(new_view),
        log@.len() < voters.spec_threshould() && !log@.contains_key(primary_of(voters@, new_view))
            ==> r == ViewChangeStep::Retry((new_view + 1) as u64),
{
    if log.len() >= voters.threshould() {
        ViewChangeStep::Changed(new_view)
    } else {
        let primary = voters.get_primary(new_view);
        if log.contains_key(&primary) {
            ViewChangeStep::Retry(new_view)
        } else {
            ViewChangeStep::Retry(new_view + 1)
        }
    }
}

} // verus!
