use std::ops::BitXor;

use overlord::error::ConsensusError;
use overlord::smr::smr_types::{
    FromWhere, Lock, SMREvent, SMRStatus, SMRTrigger, Step, TriggerSource, TriggerType,
};
use overlord::smr::state_machine::StateMachine;
use overlord::types::{INIT_HEIGHT, INIT_ROUND};

fn trigger(
    trigger_type: TriggerType,
    source: TriggerSource,
    hash: Vec<u8>,
    lock_round: Option<u64>,
    round: u64,
    height: u64,
) -> SMRTrigger {
    SMRTrigger { trigger_type, source, hash, lock_round, round, height }
}

fn state(height: u64, round: u64, step: Step, hash: Vec<u8>, lock: Option<(u64, Vec<u8>)>) -> StateMachine {
    let lock = lock.map(|(round, hash)| Lock { round, hash });
    StateMachine::restore(height, round, step, hash, lock).unwrap()
}

fn assert_state(
    sm: &StateMachine,
    height: u64,
    round: u64,
    step: Step,
    hash: Vec<u8>,
    lock: Option<(u64, Vec<u8>)>,
) {
    assert_eq!(sm.height(), height);
    assert_eq!(sm.round(), round);
    assert_eq!(sm.step(), step);
    assert_eq!(sm.block_hash(), hash);
    assert_eq!(sm.lock(), lock.map(|(round, hash)| Lock { round, hash }));
}

fn new_height(height: u64, source: TriggerSource) -> SMRTrigger {
    trigger(TriggerType::NewHeight(SMRStatus::new(height)), source, Vec::new(), None, INIT_ROUND, INIT_HEIGHT)
}

#[test]
fn test_smr() {
    let mut smr = StateMachine::new();
    let status = SMRStatus::new(INIT_HEIGHT + 1);
    let msg = trigger(
        TriggerType::NewHeight(status),
        TriggerSource::State,
        Vec::new(),
        None,
        INIT_ROUND,
        INIT_HEIGHT,
    );
    let events = smr.process(msg).unwrap();
    assert_eq!(events.len(), 1);
    assert!(matches!(events[0], SMREvent::NewRoundInfo { height: 1, round: 0, .. }));
}

#[test]
fn test_xor() {
    let left = bytes::Bytes::new();
    let right: Option<u64> = None;
    assert!(!left.is_empty().bitxor(&right.is_none()));
}

#[test]
fn cold_start_then_new_height() {
    let mut sm = StateMachine::new();
    assert_state(&sm, 0, 0, Step::Propose, vec![], None);
    let events = sm.process(new_height(1, TriggerSource::State)).unwrap();
    assert_state(&sm, 1, 0, Step::Propose, vec![], None);
    assert_eq!(
        events,
        vec![SMREvent::NewRoundInfo {
            height: 1,
            round: 0,
            lock_round: None,
            lock_proposal: None,
            new_interval: None,
            new_config: None,
            from_where: FromWhere::PrecommitQC(u64::MAX),
        }]
    );
}

#[test]
fn happy_path_proposal_prevote_precommit() {
    let mut sm = state(1, 0, Step::Propose, vec![], None);
    let events = sm
        .process(trigger(TriggerType::Proposal, TriggerSource::State, vec![0xAA], None, 0, 1))
        .unwrap();
    assert_state(&sm, 1, 0, Step::Prevote, vec![0xAA], None);
    assert_eq!(
        events,
        vec![SMREvent::PrevoteVote { height: 1, round: 0, block_hash: vec![0xAA], lock_round: None }]
    );

    let events = sm
        .process(trigger(TriggerType::PrevoteQC, TriggerSource::State, vec![0xAA], None, 0, 1))
        .unwrap();
    assert_state(&sm, 1, 0, Step::Precommit, vec![0xAA], Some((0, vec![0xAA])));
    assert_eq!(
        events,
        vec![SMREvent::PrecommitVote { height: 1, round: 0, block_hash: vec![0xAA], lock_round: Some(0) }]
    );

    let events = sm
        .process(trigger(TriggerType::PrecommitQC, TriggerSource::State, vec![0xAA], None, 0, 1))
        .unwrap();
    assert_eq!(sm.step(), Step::Commit);
    assert_eq!((sm.height(), sm.round()), (1, 0));
    assert_eq!(events, vec![SMREvent::Commit(vec![0xAA])]);
}

#[test]
fn round_change_on_nil_precommit() {
    let mut sm = state(1, 0, Step::Precommit, vec![0xAA], Some((0, vec![0xAA])));
    let events = sm
        .process(trigger(TriggerType::PrecommitQC, TriggerSource::State, vec![], None, 0, 1))
        .unwrap();
    assert_eq!(
        events,
        vec![SMREvent::NewRoundInfo {
            height: 1,
            round: 1,
            lock_round: Some(0),
            lock_proposal: Some(vec![0xAA]),
            new_interval: None,
            new_config: None,
            from_where: FromWhere::PrecommitQC(0),
        }]
    );
    assert_state(&sm, 1, 1, Step::Propose, vec![0xAA], Some((0, vec![0xAA])));
}

#[test]
fn unlock_on_higher_polc() {
    let mut sm = state(1, 1, Step::Propose, vec![0xAA], Some((0, vec![0xAA])));
    let events = sm
        .process(trigger(TriggerType::Proposal, TriggerSource::State, vec![0xBB], Some(1), 1, 1))
        .unwrap();
    assert_state(&sm, 1, 1, Step::Prevote, vec![0xBB], None);
    assert_eq!(
        events,
        vec![SMREvent::PrevoteVote { height: 1, round: 1, block_hash: vec![0xBB], lock_round: None }]
    );
}

#[test]
fn fork_detection() {
    let mut sm = state(1, 0, Step::Propose, vec![0xAA], Some((0, vec![0xAA])));
    let r = sm.process(trigger(TriggerType::Proposal, TriggerSource::State, vec![0xCC], Some(0), 0, 1));
    assert_eq!(r, Err(ConsensusError::CorrectnessErr("Fork".to_string())));
    assert!(r.unwrap_err().is_fatal());
    assert_state(&sm, 1, 0, Step::Propose, vec![0xAA], Some((0, vec![0xAA])));
}

#[test]
fn same_hash_at_lock_round_is_no_fork() {
    let mut sm = state(1, 1, Step::Propose, vec![0xAA], Some((0, vec![0xAA])));
    let events = sm
        .process(trigger(TriggerType::Proposal, TriggerSource::State, vec![0xAA], Some(0), 1, 1))
        .unwrap();
    assert_state(&sm, 1, 1, Step::Prevote, vec![0xAA], Some((0, vec![0xAA])));
    assert_eq!(
        events,
        vec![SMREvent::PrevoteVote { height: 1, round: 1, block_hash: vec![0xAA], lock_round: Some(0) }]
    );
}

#[test]
fn locked_replica_keeps_lock_on_unlocked_or_older_proposal() {
    let mut sm = state(1, 2, Step::Propose, vec![0xAA], Some((1, vec![0xAA])));
    sm.process(trigger(TriggerType::Proposal, TriggerSource::State, vec![0xBB], None, 2, 1)).unwrap();
    assert_state(&sm, 1, 2, Step::Prevote, vec![0xAA], Some((1, vec![0xAA])));

    let mut sm = state(1, 2, Step::Propose, vec![0xAA], Some((1, vec![0xAA])));
    let events = sm
        .process(trigger(TriggerType::Proposal, TriggerSource::State, vec![0xBB], Some(0), 2, 1))
        .unwrap();
    assert_state(&sm, 1, 2, Step::Prevote, vec![0xAA], Some((1, vec![0xAA])));
    assert_eq!(
        events,
        vec![SMREvent::PrevoteVote { height: 1, round: 2, block_hash: vec![0xAA], lock_round: Some(1) }]
    );
}

#[test]
fn timer_prevote_on_proposal_timeout_unlocked() {
    let mut sm = state(1, 0, Step::Propose, vec![], None);
    let events = sm
        .process(trigger(TriggerType::Proposal, TriggerSource::Timer, vec![], None, 0, 1))
        .unwrap();
    assert_eq!(
        events,
        vec![SMREvent::PrevoteVote { height: 1, round: 0, block_hash: vec![], lock_round: None }]
    );
    assert_state(&sm, 1, 0, Step::Prevote, vec![], None);
}

#[test]
fn timer_prevote_on_proposal_timeout_locked() {
    let mut sm = state(1, 1, Step::Propose, vec![0xAA], Some((0, vec![0xAA])));
    let events = sm
        .process(trigger(TriggerType::Proposal, TriggerSource::Timer, vec![], None, 1, 1))
        .unwrap();
    assert_eq!(
        events,
        vec![SMREvent::PrevoteVote { height: 1, round: 1, block_hash: vec![0xAA], lock_round: Some(0) }]
    );
    assert_state(&sm, 1, 1, Step::Prevote, vec![0xAA], Some((0, vec![0xAA])));
}

#[test]
fn empty_state_proposal_is_refused() {
    let mut sm = state(1, 0, Step::Propose, vec![], None);
    let r = sm.process(trigger(TriggerType::Proposal, TriggerSource::State, vec![], None, 0, 1));
    assert_eq!(r, Err(ConsensusError::ProposalErr("Empty proposal".to_string())));
    assert_state(&sm, 1, 0, Step::Propose, vec![], None);
}

#[test]
fn delayed_status_is_refused() {
    let mut sm = state(3, 2, Step::Prevote, vec![0x01], None);
    for h in [0u64, 2, 3] {
        let r = sm.process(new_height(h, TriggerSource::State));
        assert_eq!(r, Err(ConsensusError::Other("Delayed status".to_string())));
        assert_state(&sm, 3, 2, Step::Prevote, vec![0x01], None);
    }
}

#[test]
fn timer_status_is_refused() {
    let mut sm = StateMachine::new();
    let r = sm.process(new_height(5, TriggerSource::Timer));
    assert_eq!(r, Err(ConsensusError::Other("Rich status source error".to_string())));
    assert_state(&sm, 0, 0, Step::Propose, vec![], None);
}

#[test]
fn new_height_clears_lock_and_round() {
    let mut sm = state(1, 4, Step::Precommit, vec![0xAA], Some((3, vec![0xAA])));
    let mut status = SMRStatus::new(2);
    status.new_interval = Some(3000);
    let events = sm
        .process(trigger(TriggerType::NewHeight(status), TriggerSource::State, vec![], None, 0, 0))
        .unwrap();
    assert_state(&sm, 2, 0, Step::Propose, vec![], None);
    assert_eq!(
        events,
        vec![SMREvent::NewRoundInfo {
            height: 2,
            round: 0,
            lock_round: None,
            lock_proposal: None,
            new_interval: Some(3000),
            new_config: None,
            from_where: FromWhere::PrecommitQC(u64::MAX),
        }]
    );
}

#[test]
fn continue_round_stale_is_noop() {
    let mut sm = state(1, 3, Step::Prevote, vec![0xAA], None);
    for r in [0u64, 2, 3] {
        let events = sm
            .process(trigger(TriggerType::ContinueRound, TriggerSource::State, vec![], None, r, 1))
            .unwrap();
        assert!(events.is_empty());
        assert_state(&sm, 1, 3, Step::Prevote, vec![0xAA], None);
    }
}

#[test]
fn continue_round_jumps_forward() {
    let mut sm = state(1, 1, Step::Precommit, vec![0xAA], Some((1, vec![0xAA])));
    let events = sm
        .process(trigger(TriggerType::ContinueRound, TriggerSource::State, vec![], None, 5, 1))
        .unwrap();
    assert_state(&sm, 1, 5, Step::Propose, vec![0xAA], Some((1, vec![0xAA])));
    assert_eq!(
        events,
        vec![SMREvent::NewRoundInfo {
            height: 1,
            round: 5,
            lock_round: Some(1),
            lock_proposal: Some(vec![0xAA]),
            new_interval: None,
            new_config: None,
            from_where: FromWhere::ChokeQC(4),
        }]
    );
}

#[test]
fn timer_prevote_other_round_is_noop() {
    let mut sm = state(1, 2, Step::Prevote, vec![0xAA], None);
    for r in [1u64, 3] {
        let events = sm
            .process(trigger(TriggerType::PrevoteQC, TriggerSource::Timer, vec![], None, r, 1))
            .unwrap();
        assert!(events.is_empty());
        assert_state(&sm, 1, 2, Step::Prevote, vec![0xAA], None);
    }
}

#[test]
fn timer_prevote_precommits_nil() {
    let mut sm = state(1, 2, Step::Prevote, vec![0xAA], None);
    let events = sm
        .process(trigger(TriggerType::PrevoteQC, TriggerSource::Timer, vec![], None, 2, 1))
        .unwrap();
    assert_state(&sm, 1, 2, Step::Precommit, vec![], None);
    assert_eq!(
        events,
        vec![SMREvent::PrecommitVote { height: 1, round: 2, block_hash: vec![], lock_round: None }]
    );

    let mut sm = state(1, 2, Step::Prevote, vec![0xAA], Some((1, vec![0xAA])));
    let events = sm
        .process(trigger(TriggerType::PrevoteQC, TriggerSource::Timer, vec![], None, 2, 1))
        .unwrap();
    assert_state(&sm, 1, 2, Step::Precommit, vec![0xAA], Some((1, vec![0xAA])));
    assert_eq!(
        events,
        vec![SMREvent::PrecommitVote { height: 1, round: 2, block_hash: vec![], lock_round: Some(1) }]
    );
}

#[test]
fn prevote_qc_of_later_round_jumps() {
    let mut sm = state(1, 0, Step::Prevote, vec![0xAA], None);
    let events = sm
        .process(trigger(TriggerType::PrevoteQC, TriggerSource::State, vec![0xBB], None, 2, 1))
        .unwrap();
    assert_state(&sm, 1, 3, Step::Precommit, vec![0xBB], Some((2, vec![0xBB])));
    assert_eq!(
        events,
        vec![
            SMREvent::NewRoundInfo {
                height: 1,
                round: 3,
                lock_round: Some(2),
                lock_proposal: Some(vec![0xBB]),
                new_interval: None,
                new_config: None,
                from_where: FromWhere::PrevoteQC(2),
            },
            SMREvent::PrecommitVote { height: 1, round: 3, block_hash: vec![0xBB], lock_round: Some(2) },
        ]
    );
}

#[test]
fn nil_prevote_qc_unlocks() {
    let mut sm = state(1, 1, Step::Prevote, vec![0xAA], Some((0, vec![0xAA])));
    let events = sm
        .process(trigger(TriggerType::PrevoteQC, TriggerSource::State, vec![], None, 1, 1))
        .unwrap();
    assert_state(&sm, 1, 1, Step::Precommit, vec![], None);
    assert_eq!(
        events,
        vec![SMREvent::PrecommitVote { height: 1, round: 1, block_hash: vec![], lock_round: None }]
    );
}

#[test]
fn stale_triggers_are_idempotent() {
    let stale = [
        trigger(TriggerType::Proposal, TriggerSource::State, vec![0xBB], None, 0, 2),
        trigger(TriggerType::PrevoteQC, TriggerSource::State, vec![0xBB], None, 0, 1),
        trigger(TriggerType::PrecommitQC, TriggerSource::State, vec![], None, 0, 1),
        trigger(TriggerType::ContinueRound, TriggerSource::State, vec![], None, 1, 1),
    ];
    for t in stale {
        let mut sm = state(1, 1, Step::Prevote, vec![0xAA], Some((0, vec![0xAA])));
        assert!(sm.process(t.clone()).unwrap().is_empty());
        assert!(sm.process(t).unwrap().is_empty());
        assert_state(&sm, 1, 1, Step::Prevote, vec![0xAA], Some((0, vec![0xAA])));
    }
}

#[test]
fn committed_height_ignores_precommit() {
    let mut sm = state(1, 0, Step::Commit, vec![0xAA], Some((0, vec![0xAA])));
    let events = sm
        .process(trigger(TriggerType::PrecommitQC, TriggerSource::State, vec![0xAA], None, 0, 1))
        .unwrap();
    assert!(events.is_empty());
    assert_eq!(sm.step(), Step::Commit);
}

#[test]
fn monotonic_over_a_run() {
    let mut sm = StateMachine::new();
    let run = vec![
        new_height(1, TriggerSource::State),
        trigger(TriggerType::Proposal, TriggerSource::State, vec![0xAA], None, 0, 1),
        trigger(TriggerType::PrevoteQC, TriggerSource::State, vec![0xAA], None, 0, 1),
        trigger(TriggerType::PrecommitQC, TriggerSource::State, vec![], None, 0, 1),
        trigger(TriggerType::Proposal, TriggerSource::Timer, vec![], None, 1, 1),
        trigger(TriggerType::PrevoteQC, TriggerSource::State, vec![0xBB], None, 3, 1),
        trigger(TriggerType::ContinueRound, TriggerSource::State, vec![], None, 7, 1),
        new_height(2, TriggerSource::State),
    ];
    let mut last = (sm.height(), sm.round(), sm.step());
    for t in run {
        sm.process(t).unwrap();
        let now = (sm.height(), sm.round(), sm.step());
        assert!(now.0 >= last.0);
        if now.0 == last.0 {
            assert!(now.1 >= last.1);
            if now.1 == last.1 {
                assert!(now.2 >= last.2);
            }
        }
        if let Some(l) = sm.lock() {
            assert!(!l.hash.is_empty());
            assert_eq!(l.hash, sm.block_hash());
            assert!(l.round <= sm.round());
        }
        last = now;
    }
    assert_state(&sm, 2, 0, Step::Propose, vec![], None);
}

#[test]
fn restore_refuses_broken_lock() {
    let bad = [
        (vec![], Lock { round: 0, hash: vec![] }),
        (vec![0xAA], Lock { round: 0, hash: vec![0xBB] }),
        (vec![0xAA], Lock { round: 2, hash: vec![0xAA] }),
    ];
    for (hash, lock) in bad {
        let r = StateMachine::restore(1, 1, Step::Propose, hash, Some(lock));
        assert!(matches!(r, Err(ConsensusError::SelfCheckErr(_))));
    }
}

#[test]
fn strict_check_covers_all_invariants() {
    assert_eq!(StateMachine::new().strict_check(), Ok(()));
    let sm = state(1, 0, Step::Propose, vec![0xAA], Some((0, vec![0xAA])));
    assert_eq!(sm.strict_check(), Err(ConsensusError::SelfCheckErr("Invalid lock".to_string())));
    let sm = state(1, 1, Step::Propose, vec![0xAA], None);
    assert_eq!(
        sm.strict_check(),
        Err(ConsensusError::SelfCheckErr("Proposal without lock".to_string()))
    );
    let sm = state(1, 0, Step::Precommit, vec![0xAA], Some((0, vec![0xAA])));
    assert_eq!(sm.strict_check(), Ok(()));
}
