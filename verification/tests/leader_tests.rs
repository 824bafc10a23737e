use finality_pbft::leader::voter::{
    view_state, voter_step, CatchUpProcessingOutcome, CommitProcessingOutcome, GlobalMessageIn,
    PeerViewChange, VoterAction, VoterEvent, VoterProgress,
};
use finality_pbft::leader::{
    CatchUp, Commit, CommitValidationResult, CompactCommit, CurrentState, Error, FinalizedCommit,
    Message, PrePrepare, Prepare, RoundAction, RoundStage, SignedCommit, SignedMessage, State,
    Storage, ViewChange, VoterSet,
};

fn voters(n: u64) -> VoterSet {
    VoterSet::new((0..n).into_iter().collect()).unwrap()
}

fn preprepare(view: u64, seq: u64, number: u64, hash: u64) -> Message<u64, u64> {
    Message::PrePrepare(PrePrepare::new(view, seq, number, hash))
}

fn prepare(view: u64, seq: u64, number: u64, hash: u64) -> Message<u64, u64> {
    Message::Prepare(Prepare::new(view, seq, number, hash))
}

fn commit(view: u64, seq: u64, number: u64, hash: u64) -> Message<u64, u64> {
    Message::Commit(Commit::new(view, seq, number, hash))
}

#[test]
fn test_threshold() {
    assert_eq!(VoterSet::new((0..1).into_iter().collect()).unwrap().threshold(), 1);
    assert_eq!(VoterSet::new((0..2).into_iter().collect()).unwrap().threshold(), 2);
    assert_eq!(VoterSet::new((0..3).into_iter().collect()).unwrap().threshold(), 3);
    assert_eq!(VoterSet::new((0..4).into_iter().collect()).unwrap().threshold(), 3);
    assert_eq!(VoterSet::new((0..5).into_iter().collect()).unwrap().threshold(), 4);
}

#[test]
fn state_should_change_for_enough_prepare_msg() {}

#[test]
fn view_did_not_change_when_primary_alive_without_preprepare() {}

#[test]
fn fail() {}

#[test]
fn empty_voter_set_is_refused() {
    assert!(VoterSet::new(Vec::new()).is_none());
}

#[test]
fn voter_set_membership_and_primary() {
    let mut set = voters(4);
    assert_eq!(set.len(), 4);
    assert!(set.is_full());
    assert!(set.is_member(&3));
    assert!(!set.contains(&7));
    assert_eq!(set.get_primary(0), 0);
    assert_eq!(set.get_primary(5), 1);
    assert_eq!(set.nth(2), Some(&2));
    assert_eq!(set.nth(4), None);
    assert_eq!(set.get(&1), Some(&1));
    assert_eq!(set.get(&9), None);
    assert_eq!(set.iter().copied().collect::<Vec<_>>(), vec![0, 1, 2, 3]);
    set.add(2);
    assert_eq!(set.voters(), &[0, 1, 2, 3, 2]);
    set.remove(&2);
    assert_eq!(set.voters(), &[0, 1, 3]);
    assert_eq!(set.threshold(), 3);
    assert!(set.is_full());
    set.remove(&0);
    assert!(!set.is_full());
    assert!(!set.is_empty());
}

#[test]
fn round_reaches_finalize_with_quorums() {
    // Voter 1 leads view 1 of a set of four; the quorum is three.
    let mut log = Storage::new((1, 100), voters(4));
    assert_eq!(log.current_state(), CurrentState::PrePrepare);
    log.save_message(1, preprepare(1, 0, 2, 200), 11);
    assert_eq!(log.current_state(), CurrentState::Prepare);
    assert_eq!(log.target(), Some((&200, 2)));
    log.save_message(0, prepare(1, 0, 2, 200), 10);
    log.save_message(2, prepare(1, 0, 2, 200), 12);
    assert_eq!(log.current_state(), CurrentState::Prepare);
    log.save_message(3, prepare(1, 0, 2, 200), 13);
    assert_eq!(log.current_state(), CurrentState::Commit);
    assert_eq!(log.count_prepares(), 3);
    assert!(log.gen_f_commit().is_none());
    log.save_message(3, commit(1, 0, 2, 200), 23);
    log.save_message(1, commit(1, 0, 2, 200), 21);
    log.save_message(2, commit(1, 0, 2, 200), 22);
    assert_eq!(log.current_state(), CurrentState::Finalize);
    let f = log.gen_f_commit().unwrap();
    assert_eq!((f.target_number, f.target_hash), (2, 200));
    let ids: Vec<u64> = f.commits.iter().map(|c| c.id).collect();
    assert_eq!(ids, vec![1, 2, 3]);
    assert_eq!(f.commits[0].signature, 21);
    match log.decide_finalization(2) {
        Ok(Some(fc)) => assert_eq!(fc.commits.len(), 3),
        _ => panic!("the round should finalize"),
    }
    assert!(matches!(log.decide_finalization(1), Ok(None)));
    assert_eq!(log.conclude_round(1), Ok((2, 200)));
    assert_eq!(log.seq(), 1);
    assert_eq!(log.last_round_base(), (2, 200));
    assert_eq!(log.current_state(), CurrentState::PrePrepare);
    assert_eq!(log.target(), None);
}

#[test]
fn conflicting_and_old_votes_are_dropped() {
    let mut log = Storage::new((1, 100), voters(4));
    log.save_message(1, preprepare(1, 0, 2, 200), 11);
    // A PREPARE for another block is dropped.
    log.save_message(0, prepare(1, 0, 2, 999), 10);
    assert_eq!(log.count_prepares(), 0);
    // A PREPREPARE below the last finalized block is dropped.
    log.save_message(2, preprepare(1, 0, 0, 50), 12);
    assert!(!log.contains_key(&2));
    // A newer sequence number restarts the round.
    log.save_message(0, prepare(1, 3, 7, 700), 10);
    assert_eq!(log.seq(), 3);
    assert_eq!(log.count_prepares(), 1);
    assert_eq!(log.target(), None);
    assert_eq!(log.current_state(), CurrentState::PrePrepare);
    // An older one is dropped.
    log.save_message(2, prepare(1, 2, 7, 700), 12);
    assert_eq!(log.count_prepares(), 1);
    assert!(!log.contains_key(&2));
}

#[test]
fn blocked_catch_up_keeps_newer_messages_back() {
    let mut log = Storage::new((1, 100), voters(4));
    log.save_message(1, preprepare(1, 0, 2, 200), 11);
    assert_eq!(log.close_preprepare(1), Ok((2, 200)));
    log.save_message_with_block(0, prepare(1, 5, 9, 900), 10);
    assert_eq!(log.seq(), 0);
    assert_eq!(log.count_prepares(), 0);
    // A message of the current round lets the kept-back ones through first.
    log.save_message_with_block(2, prepare(1, 0, 2, 200), 12);
    assert_eq!(log.seq(), 5);
    assert_eq!(log.count_prepares(), 1);
}

#[test]
fn receive_ignores_other_views_and_reports_state() {
    let mut log = Storage::new((1, 100), voters(4));
    log.receive(2, SignedMessage { message: preprepare(1, 0, 2, 200), signature: 1, id: 1 });
    assert!(!log.contains_key(&1));
    log.receive(1, SignedMessage { message: preprepare(1, 0, 2, 200), signature: 1, id: 1 });
    log.receive(1, SignedMessage { message: prepare(1, 0, 2, 200), signature: 3, id: 3 });
    let state = view_state(&log);
    assert_eq!(state.state, CurrentState::Prepare);
    assert_eq!(state.total_voters, 4);
    assert_eq!(state.threshold, 3);
    assert_eq!(state.preprepare_hash, Some(200));
    assert!(state.prepare_ids.contains(&3));
    assert_eq!(state.prepare_ids.len(), 1);
    assert!(state.commit_ids.is_empty());
}

#[test]
fn primary_failure_and_commit_not_enough() {
    let mut log = Storage::new((1, 100), voters(4));
    assert_eq!(log.primary_alive(1), Err(Error::PrimaryFailure));
    assert_eq!(log.close_preprepare(1), Err(Error::PrimaryFailure));
    log.save_message(1, preprepare(1, 0, 2, 200), 11);
    assert_eq!(log.primary_alive(1), Ok(()));
    assert!(matches!(log.decide_finalization(2), Err(Error::CommitNotEnough)));
    assert_eq!(log.prepare_message(1), prepare(1, 0, 2, 200));
    assert_eq!(log.commit_message(1), commit(1, 0, 2, 200));
    assert_eq!(log.preprepare_message(1, 4, 400), preprepare(1, 0, 4, 400));
    assert_eq!(Error::CommitNotEnough.to_string(), "Commit not enough.");
}

#[test]
fn message_accessors() {
    let m = commit(3, 4, 5, 6);
    assert_eq!(m.view(), 3);
    assert_eq!(m.seq(), 4);
    assert_eq!(m.target(), (&6, 5));
    let sc = SignedCommit { commit: Commit::new(3, 4, 5, 6), signature: 9, id: 2 };
    let sm = SignedMessage::from(sc);
    assert_eq!(sm.message, m);
    assert_eq!(sm.target(), (&6, 5));
    assert_eq!(sm.id, 2);
    assert_eq!(ViewChange::new(3, 7u64).new_view, 3);
    assert_eq!(State::genesis((1u64, 2u64)).finalized, Some((1, 2)));
}

#[test]
fn compact_commit_round_trip() {
    let commits: Vec<SignedCommit<u64, u64, u64, u64>> = (0..3)
        .map(|i| SignedCommit { commit: Commit::new(1, 2, 3, 4), signature: 10 + i, id: i })
        .collect();
    let fc = FinalizedCommit { target_hash: 4u64, target_number: 3u64, commits: commits.clone() };
    let compact = CompactCommit::from(fc.clone());
    assert_eq!(compact.auth_data, vec![(10, 0), (11, 1), (12, 2)]);
    assert_eq!(compact.commits.len(), 3);
    let back = FinalizedCommit::from(compact.clone());
    assert_eq!(back, fc);
    let mut short = compact;
    short.auth_data.pop();
    assert_eq!(FinalizedCommit::from(short).commits.len(), 2);
}

#[test]
fn peer_view_changes() {
    let mut peers = PeerViewChange::new();
    peers.insert(1, 3);
    peers.insert(2, 3);
    peers.insert(1, 2);
    assert!(peers.exist(&1, 3));
    assert!(!peers.exist_higher(&2, 4));
    assert!(!peers.exist_higher(&2, 3));
    assert!(peers.exist_higher(&2, 2));
    assert!(!peers.exist_higher(&5, 0));
    assert_eq!(peers.count_view_change(3), 2);
    assert_eq!(peers.exist_valid_view(3, 2).map(|v| v.0), Some(3));
    assert!(peers.exist_valid_view(4, 2).is_none());
    assert!(peers.exist_valid_view(3, 3).is_none());
    // The voter's own vote is not logged: two peers suffice in a set of four.
    assert_eq!(peers.try_change_view(3, &voters(4)).map(|v| v.0), Some(3));
    assert_eq!(peers.count_view_change(3), 0);
    peers.insert(1, 3);
    peers.prune();
    assert!(!peers.exist(&1, 3));
}

#[test]
fn highest_valid_view_is_chosen() {
    let mut peers = PeerViewChange::new();
    for (id, view) in [(0, 2), (1, 2), (2, 7), (3, 7), (4, 5)] {
        peers.insert(id, view);
    }
    assert_eq!(peers.exist_valid_view(0, 2).map(|v| v.0), Some(7));
    assert_eq!(peers.exist_valid_view(0, 1).map(|v| v.0), Some(7));
    assert_eq!(peers.exist_valid_view(8, 1).map(|v| v.0), None);
    assert_eq!(peers.exist_valid_view(3, 1).map(|v| v.0), Some(7));
    // In a set of seven the threshold is five; four other voters suffice.
    peers.insert(4, 7);
    peers.insert(5, 7);
    let seven = VoterSet::new((0..7).into_iter().collect()).unwrap();
    assert_eq!(peers.try_change_view(2, &seven).map(|v| v.0), Some(7));
}

#[test]
fn global_messages_update_peer_views() {
    let mut peers = PeerViewChange::new();
    peers.process_global_message(GlobalMessageIn::ViewChange(ViewChange::new(5, 0)), 0);
    assert_eq!(peers.count_view_change(5), 0);
    peers.process_global_message(GlobalMessageIn::ViewChange(ViewChange::new(5, 1)), 0);
    assert!(peers.exist(&1, 5));
    let cm = |id| SignedCommit { id, signature: 1234, commit: Commit::new(1, 2, 4, 30) };
    let catch_up = CatchUp {
        view_number: 3,
        base_number: 1,
        base_hash: 0,
        prepares: Vec::new(),
        commits: vec![cm(0), cm(1), cm(2), cm(3)],
    };
    peers.process_global_message(GlobalMessageIn::CatchUp(catch_up), 0);
    assert!(peers.exist(&1, 5));
    assert_eq!(peers.count_view_change(3), 3);
    let (view, best) = peers.exist_valid_view(3, 3).unwrap();
    assert_eq!(view, 3);
    let best = best.unwrap();
    assert_eq!((best.target_number, best.target_hash), (4, 30));
    assert_eq!(best.commits.len(), 4);
    assert!(GlobalMessageIn::<u64, u64, u64, u64>::Empty == GlobalMessageIn::Empty);
    assert!(GlobalMessageIn::<u64, u64, u64, u64>::ViewChange(ViewChange::new(1, 1)) != GlobalMessageIn::ViewChange(ViewChange::new(1, 1)));
}

#[test]
fn processing_outcomes() {
    match CommitProcessingOutcome::bad() {
        CommitProcessingOutcome::Bad(b) => {
            assert_eq!(b.num_commits(), 0);
            assert_eq!(b.num_duplicated(), 0);
            assert_eq!(b.num_invalid_voters(), 0);
        },
        _ => panic!("expected a bad outcome"),
    }
    assert!(matches!(CommitProcessingOutcome::good(), CommitProcessingOutcome::Good(_)));
    assert!(matches!(CatchUpProcessingOutcome::good(), CatchUpProcessingOutcome::Good(_)));
    assert!(matches!(CatchUpProcessingOutcome::bad(), CatchUpProcessingOutcome::Bad(_)));
    let r = CommitValidationResult::<u64, u64>::default();
    assert_eq!(r.target(), None);
    assert_eq!(r.num_commits(), 0);
}

/// Feed the votes that take a round of four voters led by voter 1 to FINALIZE.
fn finalize_round(log: &mut Storage, number: u64, hash: u64) {
    for id in 0..3 {
        log.save_message(id, prepare(1, 0, number, hash), 20 + id);
    }
    for id in 0..3 {
        log.save_message(id, commit(1, 0, number, hash), 30 + id);
    }
    assert_eq!(log.current_state(), CurrentState::Finalize);
}

#[test]
fn round_step_runs_the_stages_in_order() {
    let mut log = Storage::new((1, 100), voters(4));

    let stage = match log.round_step(1, RoundStage::Propose(2, 200)) {
        RoundAction::Multicast(msg, phase, next) => {
            assert_eq!(msg, preprepare(1, 0, 2, 200));
            assert_eq!(phase, CurrentState::PrePrepare);
            next
        },
        other => panic!("unexpected action {:?}", other),
    };
    assert!(matches!(stage, RoundStage::ClosePrePrepare));

    log.save_message(1, preprepare(1, 0, 2, 200), 11);
    let stage = match log.round_step(1, stage) {
        RoundAction::Multicast(msg, phase, next) => {
            assert_eq!(msg, prepare(1, 0, 2, 200));
            assert_eq!(phase, CurrentState::Prepare);
            next
        },
        other => panic!("unexpected action {:?}", other),
    };
    assert!(matches!(stage, RoundStage::SendCommit((2, 200))));

    let stage = match log.round_step(1, stage) {
        RoundAction::Multicast(msg, phase, next) => {
            assert_eq!(msg, commit(1, 0, 2, 200));
            assert_eq!(phase, CurrentState::Commit);
            next
        },
        other => panic!("unexpected action {:?}", other),
    };
    assert!(matches!(stage, RoundStage::Decide((2, 200))));

    finalize_round(&mut log, 2, 200);
    let stage = match log.round_step(1, stage) {
        RoundAction::Finalize(fc, target, next) => {
            assert_eq!((fc.target_number, fc.target_hash), (2, 200));
            assert_eq!(fc.commits.iter().map(|c| c.id).collect::<Vec<_>>(), vec![0, 1, 2]);
            assert_eq!(target, (2, 200));
            next
        },
        other => panic!("unexpected action {:?}", other),
    };
    assert!(matches!(stage, RoundStage::Conclude((2, 200))));

    assert!(matches!(log.round_step(1, stage), RoundAction::Finish(Ok((2, 200)))));
    assert_eq!(log.seq(), 1);
    assert_eq!(log.last_round_base(), (2, 200));
    assert_eq!(log.current_state(), CurrentState::PrePrepare);
    assert!(log.target().is_none());
}

#[test]
fn round_step_ends_on_failures() {
    // No PREPREPARE from the leader: the round ends with a leader failure.
    let mut log = Storage::new((1, 100), voters(4));
    assert!(log.round_step_defined(1, &RoundStage::ClosePrePrepare));
    assert!(matches!(
        log.round_step(1, RoundStage::ClosePrePrepare),
        RoundAction::Finish(Err(Error::PrimaryFailure))
    ));
    assert_eq!(log.seq(), 0);

    // A target but no quorum of COMMITs: the round ends there.
    log.save_message(1, preprepare(1, 0, 2, 200), 11);
    assert!(matches!(
        log.round_step(1, RoundStage::Decide((2, 200))),
        RoundAction::Finish(Err(Error::CommitNotEnough))
    ));
    assert_eq!(log.current_state(), CurrentState::Prepare);
}

#[test]
fn round_step_concludes_an_already_finalized_block_at_once() {
    let mut log = Storage::new((2, 100), voters(4));
    log.save_message(1, preprepare(1, 0, 2, 200), 11);
    finalize_round(&mut log, 2, 200);
    assert!(matches!(
        log.round_step(1, RoundStage::Decide((2, 200))),
        RoundAction::Finish(Ok((2, 200)))
    ));
    assert_eq!(log.seq(), 1);
    assert_eq!(log.last_round_base(), (2, 200));
}

#[test]
fn round_step_is_defined_where_the_round_can_go_on() {
    let mut log = Storage::new((1, 100), voters(4));
    assert!(log.round_step_defined(1, &RoundStage::Propose(2, 200)));
    assert!(!log.round_step_defined(1, &RoundStage::SendCommit((2, 200))));
    // With the leader silent, concluding needs no target.
    assert!(log.round_step_defined(1, &RoundStage::Conclude((2, 200))));
    assert!(matches!(
        log.round_step(1, RoundStage::Conclude((2, 200))),
        RoundAction::Finish(Err(Error::PrimaryFailure))
    ));
    // The leader voted without proposing: the round has no answer.
    log.save_message(1, prepare(1, 0, 2, 200), 21);
    assert!(!log.round_step_defined(1, &RoundStage::ClosePrePrepare));
    assert!(!log.round_step_defined(1, &RoundStage::Conclude((2, 200))));
}

#[test]
fn voter_step_advances_or_changes_view() {
    let p = VoterProgress { view: 3, last_finalized: (1, 100) };

    let (q, action) = voter_step(p, VoterEvent::RoundEnded(Some((2, 200))));
    assert_eq!((q.view, q.last_finalized), (3, (2, 200)));
    assert!(matches!(action, VoterAction::NextRound));

    let (q, action) = voter_step(p, VoterEvent::RoundEnded(None));
    assert_eq!((q.view, q.last_finalized), (3, (1, 100)));
    assert!(matches!(action, VoterAction::ChangeView(4)));

    let (q, action) = voter_step(p, VoterEvent::ViewChanged(5, None));
    assert_eq!((q.view, q.last_finalized), (5, (1, 100)));
    assert!(matches!(action, VoterAction::NewView));

    let (q, action) = voter_step(p, VoterEvent::ViewChanged(6, Some((4, 400))));
    assert_eq!((q.view, q.last_finalized), (6, (4, 400)));
    assert!(matches!(action, VoterAction::NewView));
}
