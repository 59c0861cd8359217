use vstd::prelude::*;

use crate::error::ConsensusError;
use crate::smr::smr_types::{Step, TriggerType};

verus! {

/// Address type.
pub type Address = Vec<u8>;

/// Hash type: an opaque byte string, empty meaning "no block".
pub type Hash = Vec<u8>;

/// Signature type.
pub type Signature = Vec<u8>;

/// Result of the state machine's operations.
pub type ConsensusResult<T> = Result<T, ConsensusError>;

/// The height a replica starts at.
pub const INIT_HEIGHT: u64 = 0;

/// The round a height starts at.
pub const INIT_ROUND: u64 = 0;

/// Vote or QC types. Prevote and precommit QCs promise the rightness and the
/// final consistency of the overlord consensus protocol.
#[derive(Clone, Copy, Debug, PartialEq, Eq, Structural, Hash)]
pub enum VoteType {
    /// Prevote vote or QC.
    Prevote,
    /// Precommit vote or QC.
    Precommit,
}

impl VoteType {
    /// The wire code of a vote type.
    pub open spec fn spec_code(self) -> u8 {
        match self {
            VoteType::Prevote => 1,
            VoteType::Precommit => 2,
        }
    }

    /// The name of a vote type.
    pub fn name(&self) -> (r: String)
        ensures
            self is Prevote ==> r@ == "Prevote"@,
            self is Precommit ==> r@ == "Precommit"@,
    {
        match self {
            VoteType::Prevote => String::from_str("Prevote"),
            VoteType::Precommit => String::from_str("Precommit"),
        }
    }
}

impl From<VoteType> for u8 {
    fn from(v: VoteType) -> (r: u8) {
        match v {
            VoteType::Prevote => 1,
            VoteType::Precommit => 2,
        }
    }
}

impl vstd::std_specs::convert::FromSpecImpl<VoteType> for u8 {
    open spec fn obeys_from_spec() -> bool {
        true
    }

    open spec fn from_spec(v: VoteType) -> u8 {
        v.spec_code()
    }
}

impl From<VoteType> for TriggerType {
    fn from(v: VoteType) -> (r: TriggerType) {
        match v {
            VoteType::Prevote => TriggerType::PrevoteQC,
            VoteType::Precommit => TriggerType::PrecommitQC,
        }
    }
}

impl vstd::std_specs::convert::FromSpecImpl<VoteType> for TriggerType {
    open spec fn obeys_from_spec() -> bool {
        true
    }

    open spec fn from_spec(v: VoteType) -> TriggerType {
        match v {
            VoteType::Prevote => TriggerType::PrevoteQC,
            VoteType::Precommit => TriggerType::PrecommitQC,
        }
    }
}

impl From<VoteType> for Step {
    fn from(v: VoteType) -> (r: Step) {
        match v {
            VoteType::Prevote => Step::Prevote,
            VoteType::Precommit => Step::Precommit,
        }
    }
}

impl vstd::std_specs::convert::FromSpecImpl<VoteType> for Step {
    open spec fn obeys_from_spec() -> bool {
        true
    }

    open spec fn from_spec(v: VoteType) -> Step {
        match v {
            VoteType::Prevote => Step::Prevote,
            VoteType::Precommit => Step::Precommit,
        }
    }
}

impl TryFrom<u8> for VoteType {
    type Error = ConsensusError;

    fn try_from(s: u8) -> (r: Result<VoteType, ConsensusError>) {
        VoteType::from_code(s)
    }
}

impl vstd::std_specs::convert::TryFromSpecImpl<u8> for VoteType {
    /// What `try_from` returns is stated by `from_code`, whose error carries a
    /// `String` that no spec value names.
    open spec fn obeys_try_from_spec() -> bool {
        false
    }

    open spec fn try_from_spec(v: u8) -> Result<VoteType, ConsensusError> {
        arbitrary()
    }
}

impl VoteType {
    /// Decodes a wire code: 1 is a prevote, 2 a precommit, anything else an
    /// `Other` error with an empty message.
    pub fn from_code(s: u8) -> (r: Result<VoteType, ConsensusError>)
        ensures
            s == 1 ==> r == Ok::<VoteType, ConsensusError>(VoteType::Prevote),
            s == 2 ==> r == Ok::<VoteType, ConsensusError>(VoteType::Precommit),
            s != 1 && s != 2 ==> (r matches Err(e) && e@ == crate::error::ErrorModel::Other(Seq::<char>::empty())),
            r matches Ok(v) ==> v.spec_code() == s,
    {
        match s {
            1 => Ok(VoteType::Prevote),
            2 => Ok(VoteType::Precommit),
            _ => Err(ConsensusError::Other(String::new())),
        }
    }
}

/// The reason of an overlord view change.
#[derive(Clone, Debug)]
pub enum ViewChangeReason {
    /// No proposal was received from the network.
    NoProposalFromNetwork,
    /// No prevote QC was received from the network.
    NoPrevoteQCFromNetwork,
    /// No precommit QC was received from the network.
    NoPrecommitQCFromNetwork,
    /// The block did not pass its check.
    CheckBlockNotPass,
    /// Updated from a higher round prevote QC, from a round to another.
    UpdateFromHigherPrevoteQC(u64, u64),
    /// Updated from a higher round precommit QC, from a round to another.
    UpdateFromHigherPrecommitQC(u64, u64),
    /// Updated from a higher round choke QC, from a round to another.
    UpdateFromHigherChokeQC(u64, u64),
    /// The votes of a type counted by the leader are below the threshold.
    LeaderReceivedVoteBelowThreshold(VoteType),
    /// Other reasons.
    Others,
}

/// The setting of the timeout interval of each step.
#[derive(Clone, Copy, Debug, Default, PartialEq, Eq, Structural)]
pub struct DurationConfig {
    /// The proportion of propose timeout to the height interval.
    pub propose_ratio: u64,
    /// The proportion of prevote timeout to the height interval.
    pub prevote_ratio: u64,
    /// The proportion of precommit timeout to the height interval.
    pub precommit_ratio: u64,
    /// The proportion of retry choke message timeout to the height interval.
    pub brake_ratio: u64,
}

impl DurationConfig {
    /// Create a consensus timeout configuration.
    pub fn new(propose_ratio: u64, prevote_ratio: u64, precommit_ratio: u64, brake_ratio: u64) -> (r: Self)
        ensures
            r.propose_ratio == propose_ratio,
            r.prevote_ratio == prevote_ratio,
            r.precommit_ratio == precommit_ratio,
            r.brake_ratio == brake_ratio,
    {
        DurationConfig { propose_ratio, prevote_ratio, precommit_ratio, brake_ratio }
    }
}

} // verus!
