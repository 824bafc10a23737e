use std::collections::{HashMap, HashSet};

use finality_pbft::simple::report::{Log, ViewState};
use finality_pbft::simple::view_round::State;
use finality_pbft::simple::{
    record_view_change, supermajority, view_change_step, CurrentState, Error, GlobalMessage,
    Message, RoundCore, Storage, ViewChangeStep, VoterSet,
};

fn voters(n: u64) -> VoterSet {
    VoterSet::new((0..n).into_iter().collect())
}

#[test]
fn simple_threshould_is_a_supermajority() {
    assert_eq!(voters(1).threshould(), 1);
    assert_eq!(voters(4).threshould(), 3);
    assert_eq!(voters(6).threshould(), 5);
    assert_eq!(voters(7).threshould(), 5);
    assert_eq!(voters(0).threshould(), 1);
}

#[test]
fn supermajority_counts_missing_votes() {
    assert!(supermajority(4, 3));
    assert!(!supermajority(4, 2));
    assert!(supermajority(1, 1));
    assert!(!supermajority(3, 2));
}

#[test]
fn simple_round_runs_to_commit() {
    let set = voters(4);
    let mut log = Storage::new();
    let mut core = RoundCore::new(1, 1, set, 1);
    assert!(core.is_primary());
    assert_eq!(core.record_preprepare(&mut log, None), Some(Message::EmptyPrePrepare));
    assert_eq!(core.record_preprepare(&mut log, Some((200, 2))), None);
    assert_eq!(core.current_height(), 2);
    assert_eq!(log.preprepare_hash(), Some(200));
    let p = core.prepare(&log);
    assert_eq!(p, Message::Prepare { view: 1, seq_number: 2, digest: 200 });
    assert_eq!(core.current_state(), CurrentState::Prepare);
    for id in [0, 2, 3] {
        log.save_message(id, p);
    }
    assert_eq!(log.count_prepare(), 3);
    let c = core.commit(&log);
    assert_eq!(c, Message::Commit { view: 1, seq_number: 2 });
    assert_eq!(core.current_state(), CurrentState::Commit);
    log.save_message(0, c);
    assert!(!core.validate_commit(&log));
    log.save_message(2, c);
    log.save_message(3, c);
    assert!(core.validate_commit(&log));
    assert_eq!(core.current_state(), CurrentState::PrePrepare);
    assert_eq!(core.primary_alive(&log), Err(Error::PrimaryFailure));
    log.save_message(1, Message::EmptyPrePrepare);
    assert_eq!(core.primary_alive(&log), Ok(()));
}

#[test]
fn simple_view_change_steps() {
    let set = voters(4);
    let mut log: HashMap<u64, GlobalMessage<u64>> = HashMap::new();
    record_view_change(&mut log, 2, GlobalMessage::ViewChange { new_view: 3, id: 0 });
    record_view_change(&mut log, 2, GlobalMessage::Empty);
    assert!(log.is_empty());
    assert_eq!(view_change_step(&log, &set, 2), ViewChangeStep::Retry(3));
    record_view_change(&mut log, 2, GlobalMessage::ViewChange { new_view: 2, id: 2 });
    assert_eq!(view_change_step(&log, &set, 2), ViewChangeStep::Retry(2));
    record_view_change(&mut log, 2, GlobalMessage::ViewChange { new_view: 2, id: 3 });
    assert_eq!(view_change_step(&log, &set, 2), ViewChangeStep::Retry(2));
    record_view_change(&mut log, 2, GlobalMessage::ViewChange { new_view: 2, id: 0 });
    assert_eq!(view_change_step(&log, &set, 2), ViewChangeStep::Changed(2));
    // A quorum changes to the last view number too.
    let mut top: HashMap<u64, GlobalMessage<u64>> = HashMap::new();
    for id in [0, 1, 3] {
        record_view_change(&mut top, u64::MAX, GlobalMessage::ViewChange { new_view: u64::MAX, id });
    }
    assert_eq!(view_change_step(&top, &set, u64::MAX), ViewChangeStep::Changed(u64::MAX));
}

#[test]
fn simple_genesis_state() {
    let s = State::genesis(("genesis", 1u64));
    assert_eq!(s.finalized, Some(("genesis", 1)));
    assert!(s.completable);
    assert_eq!(Error::PrimaryFailure.to_string(), "No primary message, may need to initiate view change.");
}

#[test]
fn simple_log_clone_keeps_counts() {
    let log: Log<u64, u64> = Log {
        id: 7,
        state: ViewState {
            state: CurrentState::Commit,
            total_number: 4,
            threshold: 3,
            preprepare_hash: Some(200),
            prepare_count: 3,
            prepare_ids: HashSet::from([0, 1, 2]),
            commit_count: 2,
            commit_ids: HashSet::from([1, 2]),
        },
    };
    let copy = log.clone();
    assert_eq!(copy.id, 7);
    assert_eq!(copy.state.state, CurrentState::Commit);
    assert_eq!(copy.state.total_number, 4);
    assert_eq!(copy.state.threshold, 3);
    assert_eq!(copy.state.preprepare_hash, Some(200));
    assert_eq!(copy.state.prepare_count, 3);
    assert_eq!(copy.state.prepare_ids, HashSet::from([0, 1, 2]));
    assert_eq!(copy.state.commit_count, 2);
    assert_eq!(copy.state.commit_ids, HashSet::from([1, 2]));
}
