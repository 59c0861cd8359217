use overlord::error::ConsensusError;
use overlord::smr::smr_types::{Step, TriggerType};
use overlord::types::{DurationConfig, VoteType};

#[test]
fn duration_config_new() {
    let c = DurationConfig::new(24, 30, 6, 3);
    assert_eq!(c.propose_ratio, 24);
    assert_eq!(c.prevote_ratio, 30);
    assert_eq!(c.precommit_ratio, 6);
    assert_eq!(c.brake_ratio, 3);
    assert_eq!(DurationConfig::default(), DurationConfig::new(0, 0, 0, 0));
}

#[test]
fn vote_type_conversions() {
    assert_eq!(u8::from(VoteType::Prevote), 1);
    assert_eq!(u8::from(VoteType::Precommit), 2);
    assert_eq!(TriggerType::from(VoteType::Prevote), TriggerType::PrevoteQC);
    assert_eq!(TriggerType::from(VoteType::Precommit), TriggerType::PrecommitQC);
    assert_eq!(Step::from(VoteType::Prevote), Step::Prevote);
    assert_eq!(Step::from(VoteType::Precommit), Step::Precommit);
    assert_eq!(VoteType::try_from(1u8), Ok(VoteType::Prevote));
    assert_eq!(VoteType::try_from(2u8), Ok(VoteType::Precommit));
    assert_eq!(VoteType::try_from(0u8), Err(ConsensusError::Other(String::new())));
    assert_eq!(VoteType::try_from(3u8), Err(ConsensusError::Other(String::new())));
    assert_eq!(VoteType::Prevote.name(), "Prevote");
}

#[test]
fn step_order() {
    assert!(Step::Propose < Step::Prevote);
    assert!(Step::Prevote < Step::Precommit);
    assert!(Step::Precommit < Step::Commit);
    assert_eq!(Step::default(), Step::Propose);
    assert_eq!(Step::Commit.index(), 3);
}

#[test]
fn fatal_errors() {
    assert!(ConsensusError::CorrectnessErr("Fork".to_string()).is_fatal());
    assert!(ConsensusError::SelfCheckErr("Lock".to_string()).is_fatal());
    assert!(!ConsensusError::ProposalErr("Empty proposal".to_string()).is_fatal());
    assert!(!ConsensusError::ThrowEventErr(String::new()).is_fatal());
    assert!(!ConsensusError::Other(String::new()).is_fatal());
}
