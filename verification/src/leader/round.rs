//! The order of the stages of a voting round, as a step function over the log.
use vstd::prelude::*;

use super::messages::{Commit, CurrentState, Error, FinalizedCommit, Message, PrePrepare, Prepare};
use super::storage::{lists_commits, LogMessage, Storage, StorageView};
use super::voter_set::primary_of;
use super::{BlockNumber, Digest, Signature, VoterId};

verus! {

/// Where a voting round stands between two pieces of outside work.
#[derive(Clone, Copy, Debug)]
pub enum RoundStage {
    /// The environment proposed this block on top of the last finalized one.
    Propose(BlockNumber, Digest),
    /// The PREPREPARE stage is over; the round's target is to be fixed.
    ClosePrePrepare,
    /// The PREPARE stage for this target is over.
    SendCommit((BlockNumber, Digest)),
    /// The COMMIT stage for this target is over; finalization is to be decided.
    Decide((BlockNumber, Digest)),
    /// The finalized commit of this target was handed out; the round is to end.
    Conclude((BlockNumber, Digest)),
}

/// What the runtime does next for a voting round.
#[derive(Debug)]
pub enum RoundAction {
    /// Multicast the message, wait while the log is in the phase, then take the stage.
    Multicast(LogMessage, CurrentState, RoundStage),
    /// Hand the finalized commit of the target to the environment, then take the stage.
    Finalize(FinalizedCommit<BlockNumber, Digest, Signature, VoterId>, (BlockNumber, Digest), RoundStage),
    /// The round is over, with the block it finalized or the reason it failed.
    Finish(Result<(BlockNumber, Digest), Error>),
}

/// The inputs on which a step of the round is defined. Elsewhere the round has
/// no answer: a leader that voted without proposing leaves no target, a round
/// without a target has nothing to vote for, and the sequence number cannot move
/// past its largest value.
pub open spec fn round_step_defined(s: StorageView, view: u64, stage: RoundStage) -> bool {
    let leader_alive = s.has_voted(primary_of(s.voters, view));
    match stage {
        RoundStage::Propose(_, _) => true,
        RoundStage::ClosePrePrepare => s.target is None ==> !leader_alive,
        RoundStage::SendCommit(_) => s.target is Some,
        RoundStage::Decide(t) => {
            &&& s.current_state == CurrentState::Finalize ==> s.target is Some
            &&& (s.current_state == CurrentState::Finalize && s.last_round_base.0 == t.0
                && leader_alive) ==> s.seq < u64::MAX
        },
        RoundStage::Conclude(_) => leader_alive ==> s.target is Some && s.seq < u64::MAX,
    }
}

/// How the round ends once the target `t` is to be concluded: with `t` when the
/// leader of `view` is alive, and a leader failure otherwise.
pub open spec fn concluded_by(s: StorageView, view: u64, t: (BlockNumber, Digest)) -> (StorageView, Result<(BlockNumber, Digest), Error>) {
    if s.has_voted(primary_of(s.voters, view)) {
        (s.concluded(), Ok(t))
    } else {
        (s, Err(Error::PrimaryFailure))
    }
}

impl Storage {
    /// Whether [`Self::round_step`] is defined on this log for `stage`.
    pub fn round_step_defined(&self, view: u64, stage: &RoundStage) -> (r: bool)
        requires
            self@.wf(),
        ensures
            r == round_step_defined(self@, view, *stage),
    {
        let leader_alive = self.primary_alive(view).is_ok();
        match *stage {
            RoundStage::Propose(_, _) => true,
            RoundStage::ClosePrePrepare => self.target().is_some() || !leader_alive,
            RoundStage::SendCommit(_) => self.target().is_some(),
            RoundStage::Decide(t) => {
                let finalized = self.current_state() == CurrentState::Finalize;
                (!finalized || self.target().is_some()) && (!(finalized
                    && self.last_round_base().0 == t.0 && leader_alive) || self.seq() < u64::MAX)
            },
            RoundStage::Conclude(_) => !leader_alive || (self.target().is_some() && self.seq()
                < u64::MAX),
        }
    }

    /// One step of a voting round in `view`.
    ///
    /// The stages run in order: the proposal is multicast as a PREPREPARE; closing
    /// that stage fixes the target, or ends the round when the leader failed; a
    /// PREPARE and then a COMMIT for the target are multicast; a round without a
    /// quorum of COMMITs ends there; a finalized round hands out its commit unless
    /// the block was finalized already, and is concluded after that.
    pub fn round_step(&mut self, view: u64, stage: RoundStage) -> (r: RoundAction)
        requires
            old(self)@.wf(),
            round_step_defined(old(self)@, view, stage),
        ensures
            final(self)@.wf(),
            match stage {
                RoundStage::Propose(height, hash) => {
                    &&& final(self)@ == old(self)@
                    &&& r == RoundAction::Multicast(
                        Message::PrePrepare(PrePrepare { view, seq: old(self)@.seq, target_number: height, target_hash: hash }),
                        CurrentState::PrePrepare,
                        RoundStage::ClosePrePrepare,
                    )
                },
                RoundStage::ClosePrePrepare => match old(self)@.target {
                    None => final(self)@ == old(self)@ && r == RoundAction::Finish(
                        Err(Error::PrimaryFailure),
                    ),
                    Some(t) => {
                        &&& final(self)@ == (StorageView { block_catch_up: true, ..old(self)@ })
                        &&& r == RoundAction::Multicast(
                            Message::Prepare(Prepare { view, seq: old(self)@.seq, target_number: t.0, target_hash: t.1 }),
                            CurrentState::Prepare,
                            RoundStage::SendCommit(t),
                        )
                    },
                },
                RoundStage::SendCommit(t) => {
                    let u = old(self)@.target->0;
                    &&& final(self)@ == old(self)@
                    &&& r == RoundAction::Multicast(
                        Message::Commit(Commit { view, seq: old(self)@.seq, target_number: u.0, target_hash: u.1 }),
                        CurrentState::Commit,
                        RoundStage::Decide(t),
                    )
                },
                RoundStage::Decide(t) => if old(self)@.current_state != CurrentState::Finalize {
                    final(self)@ == old(self)@ && r == RoundAction::Finish(Err(Error::CommitNotEnough))
                } else if old(self)@.last_round_base.0 != t.0 {
                    &&& final(self)@ == old(self)@
                    &&& r matches RoundAction::Finalize(fc, target, next)
                    &&& target == t
                    &&& next == RoundStage::Conclude(t)
                    &&& old(self)@.target == Some((fc.target_number, fc.target_hash))
                    &&& lists_commits(old(self)@.commit, fc.commits@)
                    &&& fc.commits@.len() >= old(self)@.threshold
                } else {
                    let (after, result) = concluded_by(old(self)@, view, t);
                    final(self)@ == after && r == RoundAction::Finish(result)
                },
                RoundStage::Conclude(t) => {
                    let (after, result) = concluded_by(old(self)@, view, t);
                    final(self)@ == after && r == RoundAction::Finish(result)
                },
            },
    {
        match stage {
            RoundStage::Propose(height, hash) => RoundAction::Multicast(
                self.preprepare_message(view, height, hash),
                CurrentState::PrePrepare,
                RoundStage::ClosePrePrepare,
            ),
            RoundStage::ClosePrePrepare => match self.close_preprepare(view) {
                Err(e) => RoundAction::Finish(Err(e)),
                Ok(t) => RoundAction::Multicast(
                    self.prepare_message(view),
                    CurrentState::Prepare,
                    RoundStage::SendCommit(t),
                ),
            },
            RoundStage::SendCommit(t) => RoundAction::Multicast(
                self.commit_message(view),
                CurrentState::Commit,
                RoundStage::Decide(t),
            ),
            RoundStage::Decide(t) => match self.decide_finalization(t.0) {
                Err(e) => RoundAction::Finish(Err(e)),
                Ok(Some(fc)) => RoundAction::Finalize(fc, t, RoundStage::Conclude(t)),
                Ok(None) => self.finish_round(view, t),
            },
            RoundStage::Conclude(t) => self.finish_round(view, t),
        }
    }

    /// Conclude the round on target `t`.
    fn finish_round(&mut self, view: u64, t: (BlockNumber, Digest)) -> (r: RoundAction)
        requires
            old(self)@.wf(),
            old(self)@.has_voted(primary_of(old(self)@.voters, view)) ==> old(self)@.target is Some
                && old(self)@.seq < u64::MAX,
        ensures
            final(self)@.wf(),
            ({
                let (after, result) = concluded_by(old(self)@, view, t);
                final(self)@ == after && r == RoundAction::Finish(result)
            }),
    {
        match self.conclude_round(view) {
            Ok(_) => RoundAction::Finish(Ok(t)),
            Err(e) => RoundAction::Finish(Err(e)),
        }
    }
}

} // verus!
