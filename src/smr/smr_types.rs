use vstd::prelude::*;

use crate::types::DurationConfig;

verus! {

/// The step of a round, ordered Propose < Prevote < Precommit < Commit.
#[derive(Clone, Copy, Debug, PartialEq, Eq, Structural, PartialOrd, Ord, Hash)]
pub enum Step {
    /// Waiting for a proposal.
    Propose,
    /// Prevoted, waiting for a prevote QC.
    Prevote,
    /// Precommitted, waiting for a precommit QC.
    Precommit,
    /// The block of this height is committed.
    Commit,
}

impl Step {
    /// The position of a step in the order of steps.
    pub open spec fn rank(self) -> int {
        match self {
            Step::Propose => 0,
            Step::Prevote => 1,
            Step::Precommit => 2,
            Step::Commit => 3,
        }
    }

    /// The position of a step in the order of steps.
    pub fn index(&self) -> (r: u8)
        ensures
            r as int == self.rank(),
    {
        match self {
            Step::Propose => 0,
            Step::Prevote => 1,
            Step::Precommit => 2,
            Step::Commit => 3,
        }
    }
}

impl Default for Step {
    fn default() -> (r: Step)
        ensures
            r == Step::Propose,
    {
        Step::Propose
    }
}

/// Where a trigger comes from.
#[derive(Clone, Copy, Debug, PartialEq, Eq, Structural, Hash)]
pub enum TriggerSource {
    /// Validated by the network.
    State,
    /// A local timeout.
    Timer,
}

/// A new height status.
#[derive(Clone, Copy, Debug, PartialEq, Eq, Structural)]
pub struct SMRStatus {
    /// The height to go to.
    pub height: u64,
    /// A new block interval, if it changes.
    pub new_interval: Option<u64>,
    /// A new timeout configuration, if it changes.
    pub new_config: Option<DurationConfig>,
}

impl SMRStatus {
    /// A status of the given height that changes nothing else.
    pub fn new(height: u64) -> (r: SMRStatus)
        ensures
            r.height == height,
            r.new_interval is None,
            r.new_config is None,
    {
        SMRStatus { height, new_interval: None, new_config: None }
    }
}

/// The type of a trigger.
#[derive(Clone, Copy, Debug, PartialEq, Eq, Structural)]
pub enum TriggerType {
    /// Go to a new height.
    NewHeight(SMRStatus),
    /// A proposal, or a proposal timeout.
    Proposal,
    /// A prevote QC, or a prevote timeout.
    PrevoteQC,
    /// A precommit QC.
    PrecommitQC,
    /// Jump forward to a round, on brake or choke recovery.
    ContinueRound,
}

/// A trigger of the state machine.
#[derive(Clone, Debug, PartialEq, Eq)]
pub struct SMRTrigger {
    /// What the trigger is.
    pub trigger_type: TriggerType,
    /// Where the trigger comes from.
    pub source: TriggerSource,
    /// The hash the trigger carries, empty for timeouts and nil QCs.
    pub hash: crate::types::Hash,
    /// The proposer's own lock round, carried by a proposal.
    pub lock_round: Option<u64>,
    /// The round the trigger refers to.
    pub round: u64,
    /// The height the trigger refers to.
    pub height: u64,
}

/// The mathematical value of a trigger: its hash as a sequence of bytes.
pub struct TriggerModel {
    pub trigger_type: TriggerType,
    pub source: TriggerSource,
    pub hash: Seq<u8>,
    pub lock_round: Option<u64>,
    pub round: u64,
    pub height: u64,
}

impl View for SMRTrigger {
    type V = TriggerModel;

    open spec fn view(&self) -> TriggerModel {
        TriggerModel {
            trigger_type: self.trigger_type,
            source: self.source,
            hash: self.hash@,
            lock_round: self.lock_round,
            round: self.round,
            height: self.height,
        }
    }
}

/// A proof-of-lock-change: the replica is locked on `hash` since `round`.
#[derive(Clone, Debug, PartialEq, Eq)]
pub struct Lock {
    /// The round of the prevote QC that locked.
    pub round: u64,
    /// The locked hash.
    pub hash: crate::types::Hash,
}

/// The mathematical value of a lock.
pub struct LockModel {
    pub round: u64,
    pub hash: Seq<u8>,
}

impl View for Lock {
    type V = LockModel;

    open spec fn view(&self) -> LockModel {
        LockModel { round: self.round, hash: self.hash@ }
    }
}

/// Why a round was entered.
#[derive(Clone, Copy, Debug, PartialEq, Eq, Structural, Hash)]
pub enum FromWhere {
    /// A precommit QC of the given round; `u64::MAX` on a new height.
    PrecommitQC(u64),
    /// A prevote QC of the given round.
    PrevoteQC(u64),
    /// A choke QC of the given round.
    ChokeQC(u64),
}

/// An event emitted by the state machine.
#[derive(Clone, Debug, PartialEq, Eq)]
pub enum SMREvent {
    /// A new round is entered.
    NewRoundInfo {
        height: u64,
        round: u64,
        lock_round: Option<u64>,
        lock_proposal: Option<crate::types::Hash>,
        new_interval: Option<u64>,
        new_config: Option<DurationConfig>,
        from_where: FromWhere,
    },
    /// Prevote for a hash.
    PrevoteVote { height: u64, round: u64, block_hash: crate::types::Hash, lock_round: Option<u64> },
    /// Precommit for a hash.
    PrecommitVote { height: u64, round: u64, block_hash: crate::types::Hash, lock_round: Option<u64> },
    /// Commit a hash.
    Commit(crate::types::Hash),
}

/// The mathematical value of an event: hashes as sequences of bytes.
pub enum EventModel {
    NewRoundInfo {
        height: u64,
        round: u64,
        lock_round: Option<u64>,
        lock_proposal: Option<Seq<u8>>,
        new_interval: Option<u64>,
        new_config: Option<DurationConfig>,
        from_where: FromWhere,
    },
    PrevoteVote { height: u64, round: u64, block_hash: Seq<u8>, lock_round: Option<u64> },
    PrecommitVote { height: u64, round: u64, block_hash: Seq<u8>, lock_round: Option<u64> },
    Commit(Seq<u8>),
}

impl View for SMREvent {
    type V = EventModel;

    open spec fn view(&self) -> EventModel {
        match self {
            SMREvent::NewRoundInfo {
                height,
                round,
                lock_round,
                lock_proposal,
                new_interval,
                new_config,
                from_where,
            } => EventModel::NewRoundInfo {
                height: *height,
                round: *round,
                lock_round: *lock_round,
                lock_proposal: match lock_proposal {
                    Some(h) => Some(h@),
                    None => None,
                },
                new_interval: *new_interval,
                new_config: *new_config,
                from_where: *from_where,
            },
            SMREvent::PrevoteVote { height, round, block_hash, lock_round } => EventModel::PrevoteVote {
                height: *height,
                round: *round,
                block_hash: block_hash@,
                lock_round: *lock_round,
            },
            SMREvent::PrecommitVote { height, round, block_hash, lock_round } => EventModel::PrecommitVote {
                height: *height,
                round: *round,
                block_hash: block_hash@,
                lock_round: *lock_round,
            },
            SMREvent::Commit(h) => EventModel::Commit(h@),
        }
    }
}

/// The views of a sequence of events.
pub open spec fn events_view(evs: Seq<SMREvent>) -> Seq<EventModel> {
    evs.map_values(|e: SMREvent| e@)
}

} // verus!
