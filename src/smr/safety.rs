use vstd::prelude::*;

use crate::error::ErrorModel;
use crate::smr::smr_types::{EventModel, Step, TriggerModel, TriggerSource, TriggerType};
use crate::smr::state_machine::{ignored, round_fits, transition, SmrModel};

verus! {

/// A state-sourced prevote QC of a later round: the one trigger that both
/// advances the round and leaves the replica past the propose step.
pub open spec fn is_prevote_jump(s: SmrModel, t: TriggerModel) -> bool {
    &&& t.trigger_type is PrevoteQC
    &&& t.source == TriggerSource::State
    &&& t.height == s.height
    &&& t.round > s.round
}

/// The triggers that are dropped: another height, a stale round, a step
/// already past.
pub open spec fn is_stale(s: SmrModel, t: TriggerModel) -> bool {
    match t.trigger_type {
        TriggerType::NewHeight(_) => false,
        TriggerType::Proposal => t.height != s.height || t.round != s.round || s.step != Step::Propose,
        TriggerType::PrevoteQC => {
            ||| t.height != s.height
            ||| (t.round == s.round && s.step.rank() > Step::Prevote.rank())
            ||| (t.source == TriggerSource::Timer && t.round != s.round)
            ||| (t.source == TriggerSource::State && t.round < s.round)
        },
        TriggerType::PrecommitQC => {
            ||| t.height != s.height
            ||| s.step == Step::Commit
            ||| (t.hash.len() == 0 && t.round < s.round)
        },
        TriggerType::ContinueRound => t.height != s.height || t.round <= s.round,
    }
}

/// Every trigger keeps the lock invariants: a lock holds a non-empty hash,
/// which is the block hash.
pub proof fn lemma_lock_invariant(s: SmrModel, t: TriggerModel)
    requires
        s.wf(),
        round_fits(t),
    ensures
        transition(s, t).state.wf(),
        transition(s, t).state.lock matches Some(l) ==> l.hash.len() > 0 && l.hash == transition(s, t).state.block_hash,
{
}

/// The height never decreases.
pub proof fn lemma_height_monotonic(s: SmrModel, t: TriggerModel)
    requires
        s.wf(),
        round_fits(t),
    ensures
        transition(s, t).state.height >= s.height,
{
}

/// Within a height, the round never decreases.
pub proof fn lemma_round_monotonic(s: SmrModel, t: TriggerModel)
    requires
        s.wf(),
        round_fits(t),
        transition(s, t).state.height == s.height,
    ensures
        transition(s, t).state.round >= s.round,
{
}

/// Within a height and round, the step never goes back; entering a new round
/// or height resets it to propose, except on a prevote QC of a later round,
/// which moves to the next round and precommits there.
pub proof fn lemma_step_order(s: SmrModel, t: TriggerModel)
    requires
        s.wf(),
        round_fits(t),
    ensures
        ({
            let s2 = transition(s, t).state;
            &&& (s2.height == s.height && s2.round == s.round) ==> s2.step.rank() >= s.step.rank()
            &&& (s2.height != s.height || s2.round != s.round) && !is_prevote_jump(s, t) ==> s2.step == Step::Propose
            &&& (s2.height != s.height || s2.round != s.round) && is_prevote_jump(s, t) ==> s2.step == Step::Precommit
        }),
{
}

/// A fork is raised exactly on a state-sourced proposal, at the current
/// height, round and propose step, whose lock round is the replica's own lock
/// round and whose non-empty hash differs from the locked one.
pub proof fn lemma_fork_iff(s: SmrModel, t: TriggerModel)
    requires
        s.wf(),
        round_fits(t),
    ensures
        transition(s, t).result == Err::<Seq<EventModel>, ErrorModel>(ErrorModel::CorrectnessErr("Fork"@)) <==> {
            &&& t.trigger_type is Proposal
            &&& t.source == TriggerSource::State
            &&& t.height == s.height
            &&& t.round == s.round
            &&& s.step == Step::Propose
            &&& t.hash.len() > 0
            &&& s.lock matches Some(l) && t.lock_round == Some(l.round) && t.hash != l.hash
        },
{
    reveal_strlit("Fork");
    reveal_strlit("Lock");
    reveal_strlit("Empty proposal");
    reveal_strlit("Rich status source error");
    reveal_strlit("Delayed status");
}

/// A dropped trigger changes nothing and emits nothing, so applying it twice
/// ends in the same state as applying it once.
pub proof fn lemma_stale_idempotent(s: SmrModel, t: TriggerModel)
    requires
        s.wf(),
        is_stale(s, t),
    ensures
        transition(s, t) == ignored(s),
        transition(transition(s, t).state, t) == transition(s, t),
{
}

/// How many events a trigger emits: a new height one round info; a
/// state-sourced proposal one prevote; a state-sourced prevote QC a round
/// info on a round jump, then one precommit; a nil precommit QC one round
/// info; any other precommit QC one commit.
pub proof fn lemma_emission_count(s: SmrModel, t: TriggerModel)
    requires
        s.wf(),
        round_fits(t),
        !is_stale(s, t),
        transition(s, t).result is Ok,
    ensures
        ({
            let evs = transition(s, t).result->Ok_0;
            &&& t.trigger_type is NewHeight ==> evs.len() == 1 && evs[0] is NewRoundInfo
            &&& t.trigger_type is Proposal && t.source == TriggerSource::State ==> evs.len() == 1 && evs[0] is PrevoteVote
            &&& t.trigger_type is PrevoteQC && t.source == TriggerSource::State ==> {
                &&& t.round > s.round ==> evs.len() == 2 && evs[0] is NewRoundInfo && evs[1] is PrecommitVote
                &&& t.round <= s.round ==> evs.len() == 1 && evs[0] is PrecommitVote
            }
            &&& t.trigger_type is PrecommitQC && t.hash.len() == 0 ==> evs.len() == 1 && evs[0] is NewRoundInfo
            &&& t.trigger_type is PrecommitQC && t.hash.len() > 0 ==> evs.len() == 1 && evs[0] is Commit
        }),
{
}

/// A state-sourced new height status that is not above the current height
/// is refused as delayed and changes nothing.
pub proof fn lemma_delayed_status(s: SmrModel, t: TriggerModel)
    requires
        t.trigger_type matches TriggerType::NewHeight(status) && status.height <= s.height,
        t.source == TriggerSource::State,
    ensures
        transition(s, t).result == Err::<Seq<EventModel>, ErrorModel>(ErrorModel::Other("Delayed status"@)),
        transition(s, t).state == s,
{
}

/// A new height status from the timer is refused and changes nothing.
pub proof fn lemma_timer_status(s: SmrModel, t: TriggerModel)
    requires
        t.trigger_type is NewHeight,
        t.source == TriggerSource::Timer,
    ensures
        transition(s, t).result == Err::<Seq<EventModel>, ErrorModel>(ErrorModel::Other("Rich status source error"@)),
        transition(s, t).state == s,
{
}

/// A jump to a round that is not ahead of the current one is dropped.
pub proof fn lemma_continue_round_stale(s: SmrModel, t: TriggerModel)
    requires
        t.trigger_type is ContinueRound,
        t.round <= s.round,
    ensures
        transition(s, t) == ignored(s),
{
}

/// A prevote timeout of another round is dropped.
pub proof fn lemma_prevote_timeout_other_round(s: SmrModel, t: TriggerModel)
    requires
        t.trigger_type is PrevoteQC,
        t.source == TriggerSource::Timer,
        t.round != s.round,
    ensures
        transition(s, t) == ignored(s),
{
}

} // verus!
