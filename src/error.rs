use vstd::prelude::*;

verus! {

/// Errors returned by the state machine.
#[derive(Clone, Debug, PartialEq, Eq)]
pub enum ConsensusError {
    /// A state-sourced proposal without a hash.
    ProposalErr(String),
    /// Two distinct proposals at the same lock round: a safety violation.
    CorrectnessErr(String),
    /// A self-check found the replica's state inconsistent.
    SelfCheckErr(String),
    /// An event could not be published.
    ThrowEventErr(String),
    /// Anything else: a wrong trigger source, a delayed status.
    Other(String),
}

/// The mathematical value of a [`ConsensusError`]: its kind and its message.
pub enum ErrorModel {
    ProposalErr(Seq<char>),
    CorrectnessErr(Seq<char>),
    SelfCheckErr(Seq<char>),
    ThrowEventErr(Seq<char>),
    Other(Seq<char>),
}

impl View for ConsensusError {
    type V = ErrorModel;

    open spec fn view(&self) -> ErrorModel {
        match self {
            ConsensusError::ProposalErr(m) => ErrorModel::ProposalErr(m@),
            ConsensusError::CorrectnessErr(m) => ErrorModel::CorrectnessErr(m@),
            ConsensusError::SelfCheckErr(m) => ErrorModel::SelfCheckErr(m@),
            ConsensusError::ThrowEventErr(m) => ErrorModel::ThrowEventErr(m@),
            ConsensusError::Other(m) => ErrorModel::Other(m@),
        }
    }
}

impl ConsensusError {
    /// Whether the error is fatal from the consensus-safety standpoint.
    pub fn is_fatal(&self) -> (r: bool)
        ensures
            r <==> (self is CorrectnessErr || self is SelfCheckErr),
    {
        match self {
            ConsensusError::CorrectnessErr(_) | ConsensusError::SelfCheckErr(_) => true,
            _ => false,
        }
    }
}

} // verus!
