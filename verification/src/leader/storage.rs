use std::collections::{BTreeMap, HashSet};

use vstd::prelude::*;
use vstd::laws_cmp::obeys_cmp;
use vstd::std_specs::btree::increasing_seq;
use vstd::std_specs::cmp::OrdSpec;
use vstd::std_specs::iter::IteratorSpec;

use super::messages::{
    message_seq, message_target, message_view, Commit, CurrentState, Error, FinalizedCommit,
    Message, PrePrepare, Prepare, SignedCommit, SignedMessage,
};
use super::voter_set::{lemma_quorums_intersect, max_faulty, primary_of, quorum_threshold, VoterSet};
use super::{BlockNumber, Digest, Signature, VoterId};

verus! {

/// A round message as the log holds it.
pub type LogMessage = Message<BlockNumber, Digest>;

/// A message kept back while catching up: sender, message, signature.
pub type PendingMessage = (VoterId, LogMessage, Signature);

/// The abstract content of a [`Storage`].
pub struct StorageView {
    pub seq: u64,
    pub last_round_base: (BlockNumber, Digest),
    pub current_state: CurrentState,
    pub voters: Seq<VoterId>,
    pub threshold: nat,
    pub target: Option<(BlockNumber, Digest)>,
    pub preprepare: Map<VoterId, (PrePrepare<BlockNumber, Digest>, Signature)>,
    pub prepare: Map<VoterId, (Prepare<BlockNumber, Digest>, Signature)>,
    pub commit: Map<VoterId, (Commit<BlockNumber, Digest>, Signature)>,
    pub block_catch_up: bool,
    pub pending_msg: Seq<PendingMessage>,
}

impl StorageView {
    /// The log with every vote of the round dropped, no target and the phase back at
    /// PREPREPARE, now at sequence number `seq`.
    pub open spec fn moved_to_seq(self, seq: u64) -> StorageView {
        StorageView {
            seq,
            target: None,
            current_state: CurrentState::PrePrepare,
            preprepare: Map::empty(),
            prepare: Map::empty(),
            commit: Map::empty(),
            ..self
        }
    }

    /// The log once its round is concluded: the next sequence number, on top of the
    /// round's target, with every vote dropped and the phase back at PREPREPARE.
    pub open spec fn concluded(self) -> StorageView
        recommends
            self.target is Some,
            self.seq < u64::MAX,
    {
        StorageView {
            seq: (self.seq + 1) as u64,
            last_round_base: self.target->0,
            preprepare: Map::empty(),
            prepare: Map::empty(),
            commit: Map::empty(),
            target: None,
            current_state: CurrentState::PrePrepare,
            block_catch_up: false,
            ..self
        }
    }

    /// The log with no kept-back messages.
    pub open spec fn without_pending(self) -> StorageView {
        StorageView { pending_msg: Seq::empty(), ..self }
    }

    /// Whether `m` votes for a block other than the round's target.
    pub open spec fn conflicts_with_target(self, m: LogMessage) -> bool {
        match self.target {
            Some(t) => (t.1, t.0) != message_target(m),
            None => false,
        }
    }

    /// Whether `id` has sent any vote in the round.
    pub open spec fn has_voted(self, id: VoterId) -> bool {
        self.preprepare.contains_key(id) || self.prepare.contains_key(id)
            || self.commit.contains_key(id)
    }

    /// The log holds a PREPREPARE from the leader of `view`.
    pub open spec fn has_primary_preprepare(self, view: u64) -> bool {
        self.preprepare.contains_key(primary_of(self.voters, view))
    }

    /// The quorum facts behind each phase: a round is past PREPARE only with a
    /// quorum of PREPAREs, and finalized only with a quorum of COMMITs.
    pub open spec fn quorum_backed(self) -> bool {
        &&& (self.current_state == CurrentState::Commit || self.current_state
            == CurrentState::Finalize) ==> self.prepare.len() >= self.threshold
        &&& self.current_state == CurrentState::Finalize ==> self.commit.len() >= self.threshold
    }

    /// Well-formedness of a log.
    pub open spec fn wf(self) -> bool {
        &&& self.voters.len() > 0
        &&& self.threshold >= 1
        &&& self.preprepare.dom().finite()
        &&& self.prepare.dom().finite()
        &&& self.commit.dom().finite()
        &&& self.quorum_backed()
    }
}

/// The order of the voting phases; the view-change state stands apart.
pub open spec fn phase_rank(s: CurrentState) -> int {
    match s {
        CurrentState::PrePrepare => 0,
        CurrentState::Prepare => 1,
        CurrentState::Commit => 2,
        CurrentState::Finalize => 3,
        CurrentState::ViewChange => 4,
    }
}

/// The log after `save_message(from, m, sig)`.
///
/// Messages of an older sequence number are dropped; a newer one moves the log to
/// that sequence number first. A PREPARE or COMMIT for another block than the
/// target is dropped. A PREPREPARE below the last finalized block is dropped.
/// Otherwise the vote is recorded and the phase advances when its condition holds.
pub open spec fn save_message_spec(s: StorageView, from: VoterId, m: LogMessage, sig: Signature) -> StorageView {
    if message_seq(m) < s.seq {
        s
    } else {
        let s1 = if message_seq(m) > s.seq {
            s.moved_to_seq(message_seq(m))
        } else {
            s
        };
        if s1.conflicts_with_target(m) && !(m is PrePrepare) {
            s1
        } else {
            match m {
                Message::PrePrepare(p) => {
                    if p.target_number < s1.last_round_base.0 {
                        s1
                    } else {
                        let pp = s1.preprepare.insert(from, (p, sig));
                        let primary = primary_of(s1.voters, p.view);
                        StorageView {
                            preprepare: pp,
                            current_state: if s1.current_state == CurrentState::PrePrepare
                                && pp.contains_key(primary) {
                                CurrentState::Prepare
                            } else {
                                s1.current_state
                            },
                            target: if primary == from {
                                Some((p.target_number, p.target_hash))
                            } else {
                                s1.target
                            },
                            ..s1
                        }
                    }
                },
                Message::Prepare(p) => {
                    let pr = s1.prepare.insert(from, (p, sig));
                    StorageView {
                        prepare: pr,
                        current_state: if s1.current_state == CurrentState::Prepare && pr.len()
                            >= s1.threshold {
                            CurrentState::Commit
                        } else {
                            s1.current_state
                        },
                        ..s1
                    }
                },
                Message::Commit(c) => {
                    let cm = s1.commit.insert(from, (c, sig));
                    StorageView {
                        commit: cm,
                        current_state: if s1.current_state == CurrentState::Commit && cm.len()
                            >= s1.threshold {
                            CurrentState::Finalize
                        } else {
                            s1.current_state
                        },
                        ..s1
                    }
                },
            }
        }
    }
}

/// Saving the kept-back messages, the last one first.
pub open spec fn replay_spec(s: StorageView, pending: Seq<PendingMessage>) -> StorageView
    decreases pending.len(),
{
    if pending.len() == 0 {
        s
    } else {
        let (from, m, sig) = pending.last();
        replay_spec(save_message_spec(s, from, m, sig), pending.drop_last())
    }
}

/// The log after `save_message_with_block(from, m, sig)`.
///
/// While catching up is blocked, a message of a newer sequence number is kept
/// back. Otherwise the kept-back messages are saved first, then `m`.
pub open spec fn save_message_with_block_spec(
    s: StorageView,
    from: VoterId,
    m: LogMessage,
    sig: Signature,
) -> StorageView {
    if s.block_catch_up && message_seq(m) > s.seq {
        StorageView { pending_msg: s.pending_msg.push((from, m, sig)), ..s }
    } else {
        let replayed = replay_spec(s.without_pending(), s.pending_msg);
        save_message_spec(replayed, from, m, sig)
    }
}

/// A struct that restore all the state of the consensus node.
#[derive(Debug)]
pub struct Storage {
    /// Sequence number in current view.
    /// A pair of (view_number, sequence_number) can determine a unique consensus round.
    seq: u64,
    /// The finalized block in last round.
    last_round_base: (BlockNumber, Digest),
    /// Current consensus state.
    current_state: CurrentState,
    /// The set of validators.
    voters: VoterSet,
    /// The target block we want to finalize in current round.
    /// This target can be retrieved from valid preprepare msg.
    target: Option<(BlockNumber, Digest)>,
    /// PREPREPARE messages in current round.
    preprepare: BTreeMap<VoterId, (PrePrepare<BlockNumber, Digest>, Signature)>,
    /// PREPARE messages in current round.
    prepare: BTreeMap<VoterId, (Prepare<BlockNumber, Digest>, Signature)>,
    /// COMMIT messages in current round.
    commit: BTreeMap<VoterId, (Commit<BlockNumber, Digest>, Signature)>,
    /// Whether the node is trying to catch-up.
    ///
    /// When voter run into prepare stage (and the following stage)
    /// `current_state` and seq should not be lift.
    block_catch_up: bool,
    /// Pending messages that are not yet processed (due to a catch-up).
    pending_msg: Vec<PendingMessage>,
}

impl View for Storage {
    type V = StorageView;

    closed spec fn view(&self) -> StorageView {
        StorageView {
            seq: self.seq,
            last_round_base: self.last_round_base,
            current_state: self.current_state,
            voters: self.voters@,
            threshold: self.voters.spec_threshold(),
            target: self.target,
            preprepare: self.preprepare@,
            prepare: self.prepare@,
            commit: self.commit@,
            block_catch_up: self.block_catch_up,
            pending_msg: self.pending_msg@,
        }
    }
}

impl Storage {
    /// A fresh log for a round on top of `last_round_base`.
    pub fn new(last_round_base: (BlockNumber, Digest), voters: VoterSet) -> (r: Self)
        requires
            voters@.len() > 0,
        ensures
            r@ == (StorageView {
                seq: 0,
                last_round_base,
                current_state: CurrentState::PrePrepare,
                voters: voters@,
                threshold: voters.spec_threshold(),
                target: None,
                preprepare: Map::empty(),
                prepare: Map::empty(),
                commit: Map::empty(),
                block_catch_up: false,
                pending_msg: Seq::empty(),
            }),
            r@.wf(),
    {
        proof {
            use_type_invariant(&voters);
        }
        Self {
            seq: 0,
            last_round_base,
            current_state: CurrentState::PrePrepare,
            target: None,
            voters,
            preprepare: BTreeMap::new(),
            prepare: BTreeMap::new(),
            commit: BTreeMap::new(),
            block_catch_up: false,
            pending_msg: Vec::new(),
        }
    }

    /// If specified voter has sent a message in current round.
    pub fn contains_key(&self, key: &VoterId) -> (r: bool)
        ensures
            r == self@.has_voted(*key),
    {
        self.preprepare.contains_key(key) || self.prepare.contains_key(key)
            || self.commit.contains_key(key)
    }

    /// Get sequence number in current round.
    pub fn seq(&self) -> (r: u64)
        ensures
            r == self@.seq,
    {
        self.seq
    }

    /// Count the number of PREPARE messages.
    pub fn count_prepares(&self) -> (r: usize)
        ensures
            r == self@.prepare.len(),
    {
        self.prepare.len()
    }

    /// Count the number of COMMIT messages.
    pub fn count_commits(&self) -> (r: usize)
        ensures
            r == self@.commit.len(),
    {
        self.commit.len()
    }

    /// Check if the PREPREPARE message **from leader** exists.
    pub fn validate_primary_preprepare(&self, view: u64) -> (r: bool)
        requires
            self@.wf(),
        ensures
            r == self@.has_primary_preprepare(view),
    {
        let primary = self.voters.get_primary(view);
        self.preprepare.contains_key(&primary)
    }

    /// Save a message to storage.
    pub fn save_message(&mut self, from: VoterId, message: LogMessage, signature: Signature)
        requires
            old(self)@.wf(),
        ensures
            final(self)@ == save_message_spec(old(self)@, from, message, signature),
            final(self)@.wf(),
    {
        let ghost s0 = self@;
        if message.seq() < self.seq {
            // Discard old message.
            return ;
        } else if message.seq() > self.seq {
            // Clean votes and target.
            self.preprepare.clear();
            self.prepare.clear();
            self.commit.clear();
            self.target = None;
            self.current_state = CurrentState::PrePrepare;
            self.seq = message.seq();
        }
        let ghost s1 = self@;
        assert(s1 == if message_seq(message) > s0.seq {
            s0.moved_to_seq(message_seq(message))
        } else {
            s0
        });
        let conflicts = match self.target {
            Some(t) => {
                let (h, n) = message.target();
                t.0 != n || t.1 != *h
            },
            None => false,
        };
        if conflicts {
            match message {
                Message::PrePrepare(_) => {
                    // Receive different PREPREPARE message is acceptable.
                    // Only leader's PREPREPARE will be treated as valid.
                },
                _ => {
                    // Otherwise, drop the message.
                    return ;
                },
            }
        }
        match message {
            Message::PrePrepare(msg) => {
                if msg.target_number < self.last_round_base.0 {
                    return ;
                }
                self.preprepare.insert(from, (msg, signature));
                if self.current_state == CurrentState::PrePrepare
                    && self.validate_primary_preprepare(msg.view) {
                    self.current_state = CurrentState::Prepare
                }
                if self.voters.get_primary(msg.view) == from {
                    self.target = Some((msg.target_number, msg.target_hash))
                }
            },
            Message::Prepare(msg) => {
                self.prepare.insert(from, (msg, signature));
                if self.current_state == CurrentState::Prepare && self.count_prepares()
                    >= self.voters.threshold() {
                    self.current_state = CurrentState::Commit;
                }
            },
            Message::Commit(msg) => {
                self.commit.insert(from, (msg, signature));
                if self.current_state == CurrentState::Commit && self.count_commits()
                    >= self.voters.threshold() {
                    self.current_state = CurrentState::Finalize;
                }
            },
        }
        proof {
            lemma_save_message_preserves_wf(s0, from, message, signature);
        }
    }

    /// Calling save_message will update CurrentState automaticallly.
    ///
    /// When message is coming:
    /// 1. If it has the samve seq number, save and check if it's valid to update to next state.
    /// 2. Or if its seq number larger than ours, then we move to next seq.
    ///   - clean current state and logs
    /// 3. Discard others.
    ///
    /// While catching up is blocked, a message of a newer sequence number is kept back.
    pub fn save_message_with_block(&mut self, from: VoterId, message: LogMessage, signature: Signature)
        requires
            old(self)@.wf(),
        ensures
            final(self)@ == save_message_with_block_spec(old(self)@, from, message, signature),
            final(self)@.wf(),
    {
        if self.block_catch_up && message.seq() > self.seq() {
            self.pending_msg.push((from, message, signature));
            return ;
        } else {
            let ghost all = self.pending_msg@;
            let ghost start = self@.without_pending();
            while self.pending_msg.len() > 0
                invariant
                    self@.wf(),
                    replay_spec(start, all) == replay_spec(
                        self@.without_pending(),
                        self.pending_msg@,
                    ),
                decreases self.pending_msg@.len(),
            {
                let ghost before = self@;
                let (f, msg, sig) = self.pending_msg.pop().unwrap();
                proof {
                    let cleared = before.without_pending();
                    lemma_save_message_preserves_wf(cleared, f, msg, sig);
                }
                self.save_message(f, msg, sig);
                proof {
                    let cleared = before.without_pending();
                    lemma_save_keeps_pending(cleared, f, msg, sig);
                    lemma_save_keeps_pending(before, f, msg, sig);
                    assert(self@.without_pending() == save_message_spec(
                        cleared,
                        f,
                        msg,
                        sig,
                    ));
                }
            }
            assert(self.pending_msg@ =~= Seq::<PendingMessage>::empty());
            assert(self@.without_pending() == self@);
            self.save_message(from, message, signature)
        }
    }
}

/// `commits` lists the COMMIT votes of `cm`, one per voter, in increasing voter order.
pub open spec fn lists_commits(
    cm: Map<VoterId, (Commit<BlockNumber, Digest>, Signature)>,
    commits: Seq<SignedCommit<BlockNumber, Digest, Signature, VoterId>>,
) -> bool {
    &&& commits.len() == cm.len()
    &&& forall|i: int|
        #![trigger commits[i]]
        0 <= i < commits.len() ==> cm.contains_key(commits[i].id) && cm[commits[i].id] == (
        commits[i].commit,
        commits[i].signature,
    )
    &&& forall|i: int, j: int|
        #![trigger commits[i], commits[j]]
        0 <= i < j < commits.len() ==> commits[i].id < commits[j].id
}

impl Storage {
    /// Gnerate a commit indicate finalize the block.
    ///
    /// `Some` exactly when the round is finalized; it then carries the round's
    /// target and every COMMIT vote of the round.
    pub fn gen_f_commit(&self) -> (r: Option<FinalizedCommit<BlockNumber, Digest, Signature, VoterId>>)
        requires
            self@.current_state == CurrentState::Finalize ==> self@.target is Some,
        ensures
            r is Some <==> self@.current_state == CurrentState::Finalize,
            r matches Some(fc) ==> {
                &&& self@.target == Some((fc.target_number, fc.target_hash))
                &&& lists_commits(self@.commit, fc.commits@)
            },
    {
        if self.current_state == CurrentState::Finalize {
            let (target_height, target_hash) = self.target.unwrap();
            let mut commits: Vec<SignedCommit<BlockNumber, Digest, Signature, VoterId>> = Vec::new();
            for kv in it: self.commit.iter()
                invariant
                    commits@.len() == it.index(),
                    forall|i: int|
                        #![trigger commits@[i]]
                        0 <= i < it.index() ==> commits@[i].id == *it.seq()[i].0 && (
                        commits@[i].commit,
                        commits@[i].signature,
                    ) == *it.seq()[i].1,
            {
                let (id, cs) = kv;
                commits.push(SignedCommit { commit: cs.0, signature: cs.1, id: *id });
            }
            proof {
                let v = self.commit.iter().remaining();
                let keys = v.map_values(|kv: (&VoterId, &(Commit<BlockNumber, Digest>, Signature))| *kv.0);
                assert(increasing_seq(keys));
                assert(obeys_cmp::<VoterId>());
                assert forall|i: int, j: int| 0 <= i < j < commits@.len() implies commits@[i].id < commits@[j].id by {
                    assert(keys[i] == commits@[i].id);
                    assert(keys[j] == commits@[j].id);
                    assert(keys[i].cmp_spec(&keys[j]) is Less);
                }
                assert forall|i: int| 0 <= i < commits@.len() implies self.commit@.contains_key(commits@[i].id) by {
                    assert(self.commit@.contains_key(*v[i].0));
                }
            }
            Some(FinalizedCommit { target_hash, target_number: target_height, commits })
        } else {
            None
        }
    }
}

impl Storage {
    /// Get current block we are trying to finalize, as (hash, number).
    pub fn target(&self) -> (r: Option<(&Digest, BlockNumber)>)
        ensures
            match self@.target {
                Some(t) => r matches Some(p) && *p.0 == t.1 && p.1 == t.0,
                None => r is None,
            },
    {
        match &self.target {
            Some(t) => Some((&t.1, t.0)),
            None => None,
        }
    }

    /// Current consensus state.
    pub fn current_state(&self) -> (r: CurrentState)
        ensures
            r == self@.current_state,
    {
        self.current_state
    }

    /// The finalized block the round builds on, as (number, hash).
    pub fn last_round_base(&self) -> (r: (BlockNumber, Digest))
        ensures
            r == self@.last_round_base,
    {
        self.last_round_base
    }

    /// The set of validators of the round.
    pub fn voters(&self) -> (r: &VoterSet)
        ensures
            r@ == self@.voters,
            r.spec_threshold() == self@.threshold,
    {
        &self.voters
    }

    /// Bump sequence number in current round.
    fn bump_seq(&mut self)
        requires
            old(self)@.wf(),
            old(self)@.seq < u64::MAX,
        ensures
            final(self)@ == (StorageView { seq: (old(self)@.seq + 1) as u64, ..old(self)@ }),
            final(self)@.wf(),
    {
        self.seq = self.seq + 1;
    }

    /// Clear current round messages.
    fn clear_votes(&mut self)
        requires
            old(self)@.wf(),
            old(self)@.current_state == CurrentState::PrePrepare || old(self)@.current_state
                == CurrentState::Prepare || old(self)@.current_state == CurrentState::ViewChange,
        ensures
            final(self)@ == (StorageView {
                preprepare: Map::empty(),
                prepare: Map::empty(),
                commit: Map::empty(),
                ..old(self)@
            }),
            final(self)@.wf(),
    {
        self.preprepare.clear();
        self.prepare.clear();
        self.commit.clear();
    }

    /// Clear state related to a round.
    ///
    /// Can be used in a in-view catch up or start the new round.
    pub fn clear_rounds(&mut self)
        requires
            old(self)@.wf(),
        ensures
            final(self)@ == (StorageView {
                preprepare: Map::empty(),
                prepare: Map::empty(),
                commit: Map::empty(),
                target: None,
                current_state: CurrentState::PrePrepare,
                block_catch_up: false,
                ..old(self)@
            }),
            final(self)@.wf(),
    {
        self.current_state = CurrentState::PrePrepare;
        self.clear_votes();
        self.target = None;
        self.block_catch_up = false;
    }

    /// Set block_catch_up flag, which indicates whether the node should stop trying to catch-up.
    pub fn block_catch_up(&mut self)
        requires
            old(self)@.wf(),
        ensures
            final(self)@ == (StorageView { block_catch_up: true, ..old(self)@ }),
            final(self)@.wf(),
    {
        self.block_catch_up = true;
    }

    /// Mark the voter as changing view.
    pub fn enter_view_change(&mut self)
        requires
            old(self)@.wf(),
        ensures
            final(self)@ == (StorageView { current_state: CurrentState::ViewChange, ..old(self)@ }),
            final(self)@.wf(),
    {
        self.current_state = CurrentState::ViewChange;
    }

    /// Mark the voter as voting again after a view change.
    pub fn leave_view_change(&mut self)
        requires
            old(self)@.wf(),
        ensures
            final(self)@ == (StorageView { current_state: CurrentState::PrePrepare, ..old(self)@ }),
            final(self)@.wf(),
    {
        self.current_state = CurrentState::PrePrepare;
    }

    /// Take in a round message received in `view`: messages of other views are
    /// ignored, the rest go through [`Self::save_message_with_block`].
    pub fn receive(&mut self, view: u64, msg: SignedMessage<BlockNumber, Digest, Signature, VoterId>)
        requires
            old(self)@.wf(),
        ensures
            final(self)@ == if message_view(msg.message) != view {
                old(self)@
            } else {
                save_message_with_block_spec(old(self)@, msg.id, msg.message, msg.signature)
            },
            final(self)@.wf(),
    {
        if msg.view() != view {
            return ;
        }
        self.save_message_with_block(msg.id, msg.message, msg.signature);
    }

    /// Has the primary (leader) of `view` sent a message in this round.
    pub fn primary_alive(&self, view: u64) -> (r: Result<(), Error>)
        requires
            self@.wf(),
        ensures
            r is Ok <==> self@.has_voted(primary_of(self@.voters, view)),
            r matches Err(e) ==> e == Error::PrimaryFailure,
    {
        let primary = self.voters.get_primary(view);
        if self.contains_key(&primary) {
            Ok(())
        } else {
            Err(Error::PrimaryFailure)
        }
    }

    /// The PREPREPARE this voter multicasts for the round: its proposal on top of the
    /// last finalized block.
    pub fn preprepare_message(&self, view: u64, height: BlockNumber, hash: Digest) -> (r: LogMessage)
        ensures
            r == Message::PrePrepare(PrePrepare { view, seq: self@.seq, target_number: height, target_hash: hash }),
    {
        Message::PrePrepare(PrePrepare::new(view, self.seq, height, hash))
    }

    /// End of the PREPREPARE stage: the round's target, with newer sequence numbers
    /// blocked from now on; without a target the leader of `view` has failed.
    pub fn close_preprepare(&mut self, view: u64) -> (r: Result<(BlockNumber, Digest), Error>)
        requires
            old(self)@.wf(),
            old(self)@.target is None ==> !old(self)@.has_voted(primary_of(old(self)@.voters, view)),
        ensures
            final(self)@.wf(),
            match old(self)@.target {
                None => r == Err::<(BlockNumber, Digest), Error>(Error::PrimaryFailure) && final(self)@
                    == old(self)@,
                Some(t) => r == Ok::<(BlockNumber, Digest), Error>(t) && final(self)@ == (StorageView {
                    block_catch_up: true,
                    ..old(self)@
                }),
            },
    {
        match self.target {
            None => Err(Error::PrimaryFailure),
            Some(t) => {
                self.block_catch_up();
                Ok(t)
            },
        }
    }

    /// The PREPARE this voter multicasts for the round's target.
    pub fn prepare_message(&self, view: u64) -> (r: LogMessage)
        requires
            self@.target is Some,
        ensures
            r == Message::Prepare(Prepare {
                view,
                seq: self@.seq,
                target_number: self@.target.unwrap().0,
                target_hash: self@.target.unwrap().1,
            }),
    {
        let (height, hash) = self.target.unwrap();
        Message::Prepare(Prepare::new(view, self.seq, height, hash))
    }

    /// The COMMIT this voter multicasts for the round's target.
    pub fn commit_message(&self, view: u64) -> (r: LogMessage)
        requires
            self@.target is Some,
        ensures
            r == Message::Commit(Commit {
                view,
                seq: self@.seq,
                target_number: self@.target.unwrap().0,
                target_hash: self@.target.unwrap().1,
            }),
    {
        let (height, hash) = self.target.unwrap();
        Message::Commit(Commit::new(view, self.seq, height, hash))
    }

    /// After the COMMIT stage: the finalized commit to hand out, `None` when the
    /// block at `height` is the one already finalized, and an error when the round
    /// did not gather a quorum of COMMITs.
    pub fn decide_finalization(&self, height: BlockNumber) -> (r: Result<
        Option<FinalizedCommit<BlockNumber, Digest, Signature, VoterId>>,
        Error,
    >)
        requires
            self@.wf(),
            self@.current_state == CurrentState::Finalize ==> self@.target is Some,
        ensures
            r is Err <==> self@.current_state != CurrentState::Finalize,
            r matches Err(e) ==> e == Error::CommitNotEnough,
            r matches Ok(o) ==> (o is Some <==> self@.last_round_base.0 != height),
            r matches Ok(Some(fc)) ==> {
                &&& self@.target == Some((fc.target_number, fc.target_hash))
                &&& lists_commits(self@.commit, fc.commits@)
                &&& fc.commits@.len() >= self@.threshold
            },
    {
        match self.gen_f_commit() {
            Some(f_commit) => {
                if self.last_round_base.0 != height {
                    Ok(Some(f_commit))
                } else {
                    Ok(None)
                }
            },
            None => Err(Error::CommitNotEnough),
        }
    }

    /// End of the round: with the leader of `view` alive, move to the next sequence
    /// number on top of the round's target and clear the round.
    pub fn conclude_round(&mut self, view: u64) -> (r: Result<(BlockNumber, Digest), Error>)
        requires
            old(self)@.wf(),
            old(self)@.has_voted(primary_of(old(self)@.voters, view)) ==> old(self)@.target is Some
                && old(self)@.seq < u64::MAX,
        ensures
            final(self)@.wf(),
            !old(self)@.has_voted(primary_of(old(self)@.voters, view)) ==> r == Err::<
                (BlockNumber, Digest),
                Error,
            >(Error::PrimaryFailure) && final(self)@ == old(self)@,
            old(self)@.has_voted(primary_of(old(self)@.voters, view)) ==> r == Ok::<
                (BlockNumber, Digest),
                Error,
            >(old(self)@.target->0) && final(self)@ == old(self)@.concluded(),
            old(self)@.has_voted(primary_of(old(self)@.voters, view)) ==> final(self)@.commit.len()
                == 0 && final(self)@.prepare.len() == 0 && final(self)@.preprepare.len() == 0,
    {
        if self.primary_alive(view).is_err() {
            return Err(Error::PrimaryFailure);
        }
        let target = self.target.unwrap();
        self.bump_seq();
        self.last_round_base = target;
        self.clear_rounds();
        Ok(target)
    }
}

/// The voters that are keys of `m`, as a hash set.
fn key_set<V>(m: &BTreeMap<VoterId, V>) -> (r: HashSet<VoterId>)
    ensures
        r@ == m@.dom(),
{
    let mut r: HashSet<VoterId> = HashSet::new();
    for id in it: m.keys()
        invariant
            it.seq() == m.keys().remaining(),
            r@ == it.seq().take(it.index()).unref().to_set(),
    {
        proof {
            let k = it.index();
            assert(it.seq().take(k + 1).unref() =~= it.seq().take(k).unref().push(*id));
            it.seq().take(k).unref().lemma_push_to_set_commute(*id);
        }
        r.insert(*id);
    }
    proof {
        assert(m.keys().remaining().take(m.keys().remaining().len() as int) =~= m.keys().remaining());
    }
    r
}

impl Storage {
    /// The voters that have cast a PREPARE in the round.
    pub fn prepare_ids(&self) -> (r: HashSet<VoterId>)
        ensures
            r@ == self@.prepare.dom(),
    {
        key_set(&self.prepare)
    }

    /// The voters that have cast a COMMIT in the round.
    pub fn commit_ids(&self) -> (r: HashSet<VoterId>)
        ensures
            r@ == self@.commit.dom(),
    {
        key_set(&self.commit)
    }
}

/// The sequence number of the log only moves forward: saving a message leaves it at
/// the larger of the two, and a message of an older sequence number changes nothing.
pub proof fn lemma_save_message_seq(s: StorageView, from: VoterId, m: LogMessage, sig: Signature)
    ensures
        save_message_spec(s, from, m, sig).seq == if message_seq(m) > s.seq {
            message_seq(m)
        } else {
            s.seq
        },
        message_seq(m) < s.seq ==> save_message_spec(s, from, m, sig) == s,
{
}

/// Within one sequence number the phase never goes back: a message either leaves it
/// or moves it one step along PREPREPARE, PREPARE, COMMIT, FINALIZE. A voter that is
/// changing view stays so.
pub proof fn lemma_phase_never_regresses(s: StorageView, from: VoterId, m: LogMessage, sig: Signature)
    requires
        message_seq(m) <= s.seq,
    ensures
        ({
            let after = save_message_spec(s, from, m, sig).current_state;
            ||| after == s.current_state
            ||| (s.current_state != CurrentState::ViewChange && phase_rank(after) == phase_rank(
                s.current_state,
            ) + 1)
        }),
        s.current_state == CurrentState::ViewChange ==> save_message_spec(s, from, m, sig).current_state
            == CurrentState::ViewChange,
{
}

/// A message of a newer sequence number restarts the round there: the log then
/// holds that message's vote alone, and the phase is PREPREPARE or PREPARE.
pub proof fn lemma_newer_seq_restarts_round(s: StorageView, from: VoterId, m: LogMessage, sig: Signature)
    requires
        message_seq(m) > s.seq,
    ensures
        ({
            let after = save_message_spec(s, from, m, sig);
            &&& after.seq == message_seq(m)
            &&& after.current_state == CurrentState::PrePrepare || after.current_state
                == CurrentState::Prepare
            &&& after.preprepare.dom().subset_of(set![from])
            &&& after.prepare.dom().subset_of(set![from])
            &&& after.commit.dom().subset_of(set![from])
        }),
{
}

/// While catching up is blocked, a message of a newer sequence number is kept back
/// and the round is left untouched; it is saved once the block is lifted.
pub proof fn lemma_blocked_message_kept_back(s: StorageView, from: VoterId, m: LogMessage, sig: Signature)
    requires
        s.block_catch_up,
        message_seq(m) > s.seq,
    ensures
        save_message_with_block_spec(s, from, m, sig).without_pending() == s.without_pending(),
        save_message_with_block_spec(s, from, m, sig).pending_msg == s.pending_msg.push((from, m, sig)),
{
}

/// Two finalized rounds over the same voters share more than `max_faulty` of their
/// COMMIT voters: whatever blocks they target, more voters than can be faulty
/// committed in both.
pub proof fn lemma_finalized_rounds_share_committers(a: StorageView, b: StorageView, all: Set<VoterId>)
    requires
        a.wf(),
        b.wf(),
        a.current_state == CurrentState::Finalize,
        b.current_state == CurrentState::Finalize,
        all.finite(),
        all.len() > 0,
        a.threshold == quorum_threshold(all.len()),
        b.threshold == quorum_threshold(all.len()),
        a.commit.dom().subset_of(all),
        b.commit.dom().subset_of(all),
    ensures
        a.commit.dom().intersect(b.commit.dom()).len() > max_faulty(all.len()),
{
    lemma_quorums_intersect(all, a.commit.dom(), b.commit.dom());
}

/// Only the leader of a view fixes the round's target. A PREPREPARE from any other
/// voter, and every PREPARE or COMMIT, leaves the target as it was, or without one
/// when the message starts a newer sequence number; the leader's accepted
/// PREPREPARE sets the target to the block it proposes.
pub proof fn lemma_only_leader_sets_target(s: StorageView, from: VoterId, m: LogMessage, sig: Signature)
    ensures
        ({
            let after = save_message_spec(s, from, m, sig);
            let kept = if message_seq(m) > s.seq {
                None
            } else {
                s.target
            };
            &&& !(m matches Message::PrePrepare(p) && from == primary_of(s.voters, p.view))
                ==> after.target == kept
            &&& (m matches Message::PrePrepare(p) && from == primary_of(s.voters, p.view)
                && p.seq >= s.seq && p.target_number >= s.last_round_base.0) ==> after.target
                == Some((m->PrePrepare_0.target_number, m->PrePrepare_0.target_hash))
        }),
{
}

/// Saving a message never changes the voters, the quorum size, the finalized base,
/// the catch-up flag or the kept-back messages.
pub proof fn lemma_save_message_frame(s: StorageView, from: VoterId, m: LogMessage, sig: Signature)
    ensures
        save_message_spec(s, from, m, sig).voters == s.voters,
        save_message_spec(s, from, m, sig).threshold == s.threshold,
        save_message_spec(s, from, m, sig).last_round_base == s.last_round_base,
        save_message_spec(s, from, m, sig).block_catch_up == s.block_catch_up,
        save_message_spec(s, from, m, sig).pending_msg == s.pending_msg,
{
}

/// A vote of the log's own sequence number. A PREPARE or COMMIT for another block
/// than the target changes nothing, nor does a PREPREPARE below the finalized base.
/// Otherwise the sender's vote is recorded in the table of its kind, replacing an
/// earlier one of that sender, the other tables stay as they were, and the phase
/// advances one step exactly when the vote completes its condition: the leader's
/// PREPREPARE in PREPREPARE, a quorum of PREPAREs in PREPARE, a quorum of COMMITs
/// in COMMIT.
pub proof fn lemma_vote_in_current_round(s: StorageView, from: VoterId, m: LogMessage, sig: Signature)
    requires
        message_seq(m) == s.seq,
    ensures
        ({
            let after = save_message_spec(s, from, m, sig);
            let agrees = match s.target {
                Some(t) => t.0 == message_target(m).1 && t.1 == message_target(m).0,
                None => true,
            };
            &&& after.seq == s.seq
            &&& (m is Prepare || m is Commit) && !agrees ==> after == s
            &&& m matches Message::PrePrepare(p) ==> (p.target_number < s.last_round_base.0 ==> after
                == s)
            &&& m matches Message::PrePrepare(p) ==> (p.target_number >= s.last_round_base.0 ==> {
                &&& after.preprepare == s.preprepare.insert(from, (p, sig))
                &&& after.prepare == s.prepare
                &&& after.commit == s.commit
                &&& after.current_state == if s.current_state == CurrentState::PrePrepare
                    && after.preprepare.contains_key(primary_of(s.voters, p.view)) {
                    CurrentState::Prepare
                } else {
                    s.current_state
                }
            })
            &&& m matches Message::Prepare(p) ==> (agrees ==> {
                &&& after.prepare == s.prepare.insert(from, (p, sig))
                &&& after.preprepare == s.preprepare
                &&& after.commit == s.commit
                &&& after.target == s.target
                &&& after.current_state == if s.current_state == CurrentState::Prepare
                    && after.prepare.len() >= s.threshold {
                    CurrentState::Commit
                } else {
                    s.current_state
                }
            })
            &&& m matches Message::Commit(c) ==> (agrees ==> {
                &&& after.commit == s.commit.insert(from, (c, sig))
                &&& after.preprepare == s.preprepare
                &&& after.prepare == s.prepare
                &&& after.target == s.target
                &&& after.current_state == if s.current_state == CurrentState::Commit
                    && after.commit.len() >= s.threshold {
                    CurrentState::Finalize
                } else {
                    s.current_state
                }
            })
        }),
{
}

/// A listing of the COMMIT votes names every committer exactly once: a voter
/// has a COMMIT in the round exactly when some entry of the listing is its vote.
pub proof fn lemma_listed_commits_are_the_committers(
    cm: Map<VoterId, (Commit<BlockNumber, Digest>, Signature)>,
    commits: Seq<SignedCommit<BlockNumber, Digest, Signature, VoterId>>,
    id: VoterId,
)
    requires
        cm.dom().finite(),
        lists_commits(cm, commits),
    ensures
        cm.contains_key(id) <==> exists|i: int| 0 <= i < commits.len() && #[trigger] commits[i].id == id,
        commits.no_duplicates(),
{
    let ids = commits.map_values(|c: SignedCommit<BlockNumber, Digest, Signature, VoterId>| c.id);
    assert(ids.no_duplicates()) by {
        assert forall|i: int, j: int| 0 <= i < ids.len() && 0 <= j < ids.len() && i != j implies ids[i]
            != ids[j] by {
            if i < j {
                assert(commits[i].id < commits[j].id);
            } else {
                assert(commits[j].id < commits[i].id);
            }
        }
    }
    ids.unique_seq_to_set();
    assert(ids.to_set().subset_of(cm.dom())) by {
        assert forall|x: VoterId| ids.to_set().contains(x) implies cm.dom().contains(x) by {
            let i = choose|i: int| 0 <= i < ids.len() && ids[i] == x;
            assert(commits[i].id == x);
        }
    }
    vstd::set_lib::lemma_subset_equality(ids.to_set(), cm.dom());
    if cm.contains_key(id) {
        assert(ids.to_set().contains(id));
        let i = choose|i: int| 0 <= i < ids.len() && ids[i] == id;
        assert(commits[i].id == id);
    }
    assert forall|i: int, j: int| 0 <= i < commits.len() && 0 <= j < commits.len() && i != j implies commits[i]
        != commits[j] by {
        assert(ids[i] != ids[j]);
    }
}

/// The kept-back messages and the catch-up flag survive a replay, and the sequence
/// number only moves forward.
proof fn lemma_replay_keeps_pending(s: StorageView, pending: Seq<PendingMessage>)
    ensures
        replay_spec(s, pending).pending_msg == s.pending_msg,
        replay_spec(s, pending).block_catch_up == s.block_catch_up,
        replay_spec(s, pending).seq >= s.seq,
    decreases pending.len(),
{
    if pending.len() > 0 {
        let (from, m, sig) = pending.last();
        lemma_save_keeps_pending(s, from, m, sig);
        lemma_save_message_seq(s, from, m, sig);
        lemma_replay_keeps_pending(save_message_spec(s, from, m, sig), pending.drop_last());
    }
}

/// Unless catching up is blocked and the message is of a newer sequence number,
/// nothing is kept back: the kept-back messages are saved, then the message, so
/// the log holds no kept-back message afterwards and has reached the message's
/// sequence number; with nothing kept back, it is saving the message alone.
pub proof fn lemma_unblocked_message_saved_at_once(s: StorageView, from: VoterId, m: LogMessage, sig: Signature)
    requires
        !s.block_catch_up || message_seq(m) <= s.seq,
    ensures
        save_message_with_block_spec(s, from, m, sig).pending_msg.len() == 0,
        save_message_with_block_spec(s, from, m, sig).seq >= message_seq(m),
        save_message_with_block_spec(s, from, m, sig).seq >= s.seq,
        s.pending_msg.len() == 0 ==> save_message_with_block_spec(s, from, m, sig)
            == save_message_spec(s, from, m, sig),
{
    let replayed = replay_spec(s.without_pending(), s.pending_msg);
    lemma_replay_keeps_pending(s.without_pending(), s.pending_msg);
    lemma_save_keeps_pending(replayed, from, m, sig);
    lemma_save_message_seq(replayed, from, m, sig);
    if s.pending_msg.len() == 0 {
        assert(s.pending_msg =~= Seq::<PendingMessage>::empty());
        assert(s.without_pending() == s);
    }
}

/// Concluding a round leaves no vote of it behind: no voter has a PREPREPARE,
/// PREPARE or COMMIT in the log, which moves one sequence number on, on top of the
/// round's target, with no target yet and the same voters.
pub proof fn lemma_concluded_round_holds_no_votes(s: StorageView, id: VoterId)
    requires
        s.target is Some,
        s.seq < u64::MAX,
    ensures
        !s.concluded().has_voted(id),
        s.concluded().preprepare.len() == 0,
        s.concluded().prepare.len() == 0,
        s.concluded().commit.len() == 0,
        s.concluded().seq == s.seq + 1,
        s.concluded().last_round_base == s.target->0,
        s.concluded().target is None,
        s.concluded().current_state == CurrentState::PrePrepare,
        s.concluded().voters == s.voters,
        s.concluded().threshold == s.threshold,
{
}

/// Saving a message leaves the kept-back messages and the catch-up flag alone,
/// and changes nothing else when applied to a log that differs only in those.
proof fn lemma_save_keeps_pending(s: StorageView, from: VoterId, m: LogMessage, sig: Signature)
    ensures
        save_message_spec(s, from, m, sig).pending_msg == s.pending_msg,
        save_message_spec(s, from, m, sig).block_catch_up == s.block_catch_up,
        save_message_spec(s, from, m, sig).without_pending()
            == save_message_spec(s.without_pending(), from, m, sig),
{
}

/// Map insertion never shrinks a finite map.
proof fn lemma_insert_len<K, V>(m: Map<K, V>, k: K, v: V)
    requires
        m.dom().finite(),
    ensures
        m.insert(k, v).len() >= m.len(),
        m.insert(k, v).dom().finite(),
{
    if m.contains_key(k) {
        assert(m.insert(k, v).dom() =~= m.dom());
    } else {
        assert(m.insert(k, v).dom() =~= m.dom().insert(k));
    }
}

/// Saving a message keeps a log well-formed: in particular a round is past
/// PREPARE only with a quorum of PREPAREs and finalized only with a quorum of COMMITs.
pub proof fn lemma_save_message_preserves_wf(s: StorageView, from: VoterId, m: LogMessage, sig: Signature)
    requires
        s.wf(),
    ensures
        save_message_spec(s, from, m, sig).wf(),
{
    let s1 = if message_seq(m) > s.seq {
        s.moved_to_seq(message_seq(m))
    } else {
        s
    };
    assert(s1.wf());
    match m {
        Message::PrePrepare(p) => {
            lemma_insert_len(s1.preprepare, from, (p, sig));
        },
        Message::Prepare(p) => {
            lemma_insert_len(s1.prepare, from, (p, sig));
        },
        Message::Commit(c) => {
            lemma_insert_len(s1.commit, from, (c, sig));
        },
    }
}

} // verus!
