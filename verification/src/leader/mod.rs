//! PBFT consensus core: messages, voter set and round storage.
mod messages;
mod round;
mod storage;
mod validation;
pub mod view_round;
pub mod voter;
mod voter_set;

pub use messages::{
    auth_data_of, commits_of, error_text, lemma_compact_round_trip, message_seq, message_target,
    message_view, zip_commits, CatchUp, Commit, CompactCommit, CurrentState, Error,
    FinalizedCommit, Message, MultiAuthData, PrePrepare, Prepare, SignedCommit, SignedMessage,
    SignedPrePrepare, SignedPrepare, State, ViewChange,
};
pub use round::{concluded_by, round_step_defined, RoundAction, RoundStage};
pub use storage::{
    lemma_blocked_message_kept_back, lemma_concluded_round_holds_no_votes,
    lemma_finalized_rounds_share_committers, lemma_listed_commits_are_the_committers,
    lemma_only_leader_sets_target,
    lemma_save_message_frame, lemma_unblocked_message_saved_at_once, lemma_vote_in_current_round,
    lemma_newer_seq_restarts_round, lemma_phase_never_regresses, lemma_save_message_preserves_wf,
    lemma_save_message_seq, lists_commits, phase_rank, replay_spec, save_message_spec,
    save_message_with_block_spec, LogMessage, PendingMessage, Storage, StorageView,
};
pub use validation::CommitValidationResult;
pub(crate) use voter_set::retain_others;
pub use voter_set::{
    apply_change, apply_changes, lemma_adds_append, lemma_changes_keep_threshold, lemma_filter_push, lemma_primary_is_member, lemma_primary_rotates, lemma_quorum_threshold_bounds, lemma_remove_drops_only_that_voter,
    lemma_quorums_intersect, max_faulty, other_than, primary_of, quorum_threshold, without_voter,
    VoterChange, VoterSet,
};

use vstd::prelude::*;

verus! {

/// Identity of a voter.
pub type VoterId = u64;

/// Number (height) of a block.
pub type BlockNumber = u64;

/// Digest (hash) of a block.
pub type Digest = u64;

/// Signature of a voter on a message.
pub type Signature = u64;

/// Arithmetic necessary for a block number.
pub trait BlockNumberOps:
    std::fmt::Debug + std::cmp::Ord + std::ops::Add<Output = Self> + std::ops::Sub<Output = Self> + Copy {

}

impl<T> BlockNumberOps for T where
    T: std::fmt::Debug + std::cmp::Ord + std::ops::Add<Output = T> + std::ops::Sub<Output = T> + Copy,
 {

}

} // verus!
