use vstd::prelude::*;

use crate::error::{ConsensusError, ErrorModel};
use crate::smr::smr_types::{
    events_view, EventModel, FromWhere, Lock, LockModel, SMREvent, SMRStatus, SMRTrigger, Step,
    TriggerModel, TriggerSource, TriggerType,
};
use crate::types::{ConsensusResult, INIT_HEIGHT, INIT_ROUND};

verus! {

/// The mathematical value of the replica's state.
pub struct SmrModel {
    pub height: u64,
    pub round: u64,
    pub step: Step,
    pub block_hash: Seq<u8>,
    pub lock: Option<LockModel>,
}

impl SmrModel {
    /// The lock invariants: a lock holds a non-empty hash, which is the block
    /// hash, and its round is not past the current round.
    pub open spec fn wf(self) -> bool {
        match self.lock {
            Some(l) => l.hash.len() > 0 && l.hash == self.block_hash && l.round <= self.round,
            None => true,
        }
    }

    pub open spec fn lock_round(self) -> Option<u64> {
        match self.lock {
            Some(l) => Some(l.round),
            None => None,
        }
    }

    pub open spec fn lock_proposal(self) -> Option<Seq<u8>> {
        match self.lock {
            Some(l) => Some(l.hash),
            None => None,
        }
    }

    /// The full self-check: beyond `check_passes`, no lock before the
    /// precommit step of round 0, and no block hash at the propose step
    /// without a lock.
    pub open spec fn strict_check_passes(self) -> bool {
        &&& self.check_passes()
        &&& !(self.step.rank() < Step::Precommit.rank() && self.round == 0 && self.lock is Some)
        &&& !(self.step == Step::Propose && self.lock is None && self.block_hash.len() > 0)
    }

    /// The self-check made before each state-sourced decision: a lock is never
    /// held with an empty block hash, and its hash is the block hash.
    pub open spec fn check_passes(self) -> bool {
        match self.lock {
            Some(l) => self.block_hash.len() > 0 && l.hash == self.block_hash,
            None => true,
        }
    }

    pub open spec fn with_step(self, step: Step) -> SmrModel {
        SmrModel { step, ..self }
    }

    /// Enter `round` at the propose step, keeping the lock.
    pub open spec fn enter_round(self, round: u64) -> SmrModel {
        SmrModel { round, step: Step::Propose, ..self }
    }
}

/// The state a replica starts in.
pub open spec fn initial_model() -> SmrModel {
    SmrModel {
        height: INIT_HEIGHT,
        round: INIT_ROUND,
        step: Step::Propose,
        block_hash: Seq::empty(),
        lock: None,
    }
}

/// What one trigger does: the state after it, and the events emitted or the
/// error returned.
pub struct Outcome {
    pub state: SmrModel,
    pub result: Result<Seq<EventModel>, ErrorModel>,
}

pub open spec fn done(state: SmrModel, events: Seq<EventModel>) -> Outcome {
    Outcome { state, result: Ok(events) }
}

/// A trigger that changes nothing and emits nothing.
pub open spec fn ignored(s: SmrModel) -> Outcome {
    done(s, Seq::empty())
}

pub open spec fn failed(s: SmrModel, e: ErrorModel) -> Outcome {
    Outcome { state: s, result: Err(e) }
}

/// The error of a self-check that does not pass.
pub open spec fn check_error() -> ErrorModel {
    ErrorModel::SelfCheckErr("Lock"@)
}

/// A round is entered: the replica's lock is reported with it.
pub open spec fn round_info(s: SmrModel, round: u64, from_where: FromWhere) -> EventModel {
    EventModel::NewRoundInfo {
        height: s.height,
        round,
        lock_round: s.lock_round(),
        lock_proposal: s.lock_proposal(),
        new_interval: None,
        new_config: None,
        from_where,
    }
}

/// A trigger that may be handled without overflow: a QC's round can be
/// followed by a next round.
pub open spec fn round_fits(t: TriggerModel) -> bool {
    (t.trigger_type is PrevoteQC || t.trigger_type is PrecommitQC) ==> t.round < u64::MAX
}

/// A new height status.
pub open spec fn on_new_height(s: SmrModel, status: SMRStatus, source: TriggerSource) -> Outcome {
    if source != TriggerSource::State {
        failed(s, ErrorModel::Other("Rich status source error"@))
    } else if status.height <= s.height {
        failed(s, ErrorModel::Other("Delayed status"@))
    } else {
        done(
            SmrModel {
                height: status.height,
                round: INIT_ROUND,
                step: Step::Propose,
                block_hash: Seq::empty(),
                lock: None,
            },
            seq![EventModel::NewRoundInfo {
                height: status.height,
                round: INIT_ROUND,
                lock_round: None,
                lock_proposal: None,
                new_interval: status.new_interval,
                new_config: status.new_config,
                from_where: FromWhere::PrecommitQC(u64::MAX),
            }],
        )
    }
}

/// Whether a state-sourced proposal at the lock's round names another hash
/// than the locked one.
pub open spec fn is_fork(s: SmrModel, hash: Seq<u8>, lock_round: Option<u64>) -> bool {
    match (lock_round, s.lock) {
        (Some(r), Some(l)) => r == l.round && hash != s.block_hash,
        _ => false,
    }
}

/// The state after a non-forking state-sourced proposal is reconciled with
/// the lock: a newer proof of lock change unlocks and adopts the proposal, an
/// unlocked replica adopts it, and a locked one otherwise keeps its lock.
pub open spec fn reconciled(s: SmrModel, hash: Seq<u8>, lock_round: Option<u64>) -> SmrModel {
    match (lock_round, s.lock) {
        (Some(r), Some(l)) => if r > l.round {
            SmrModel { block_hash: hash, lock: None, ..s }
        } else {
            s
        },
        (_, None) => SmrModel { block_hash: hash, ..s },
        (None, Some(_)) => s,
    }
}

/// A proposal, or a proposal timeout.
pub open spec fn on_proposal(
    s: SmrModel,
    hash: Seq<u8>,
    round: u64,
    lock_round: Option<u64>,
    source: TriggerSource,
    height: u64,
) -> Outcome {
    if s.height != height || s.round != round || s.step.rank() > Step::Propose.rank() {
        ignored(s)
    } else if source == TriggerSource::Timer {
        let locked = match s.lock {
            Some(l) => l.hash,
            None => Seq::empty(),
        };
        done(
            s.with_step(Step::Prevote),
            seq![EventModel::PrevoteVote { height: s.height, round: s.round, block_hash: locked, lock_round: s.lock_round() }],
        )
    } else if hash.len() == 0 {
        failed(s, ErrorModel::ProposalErr("Empty proposal"@))
    } else if !s.check_passes() {
        failed(s, check_error())
    } else if is_fork(s, hash, lock_round) {
        failed(s, ErrorModel::CorrectnessErr("Fork"@))
    } else {
        let s1 = reconciled(s, hash, lock_round);
        done(
            s1.with_step(Step::Prevote),
            seq![EventModel::PrevoteVote { height: s1.height, round: s1.round, block_hash: s1.block_hash, lock_round: s1.lock_round() }],
        )
    }
}

/// The proof of lock change a prevote QC carries: a nil QC unlocks, any
/// other locks on its hash at its round.
pub open spec fn polc_updated(s: SmrModel, hash: Seq<u8>, round: u64) -> SmrModel {
    SmrModel {
        block_hash: hash,
        lock: if hash.len() == 0 { None } else { Some(LockModel { round, hash }) },
        ..s
    }
}

/// A prevote QC, or a prevote timeout.
pub open spec fn on_prevote(s: SmrModel, hash: Seq<u8>, round: u64, source: TriggerSource, height: u64) -> Outcome {
    if s.height != height {
        ignored(s)
    } else if round == s.round && s.step.rank() > Step::Prevote.rank() {
        ignored(s)
    } else if source == TriggerSource::Timer {
        if round != s.round {
            ignored(s)
        } else {
            let s1 = if s.lock is None { SmrModel { block_hash: Seq::empty(), ..s } } else { s };
            done(
                s1.with_step(Step::Precommit),
                seq![EventModel::PrecommitVote { height: s.height, round: s.round, block_hash: Seq::empty(), lock_round: s.lock_round() }],
            )
        }
    } else if !s.check_passes() {
        failed(s, check_error())
    } else if round < s.round {
        ignored(s)
    } else {
        let s1 = polc_updated(s, hash, round);
        let vote = |r: u64| EventModel::PrecommitVote { height: s1.height, round: r, block_hash: s1.block_hash, lock_round: s1.lock_round() };
        if round > s.round {
            let next = (round + 1) as u64;
            done(
                s1.enter_round(next).with_step(Step::Precommit),
                seq![round_info(s1, next, FromWhere::PrevoteQC(round)), vote(next)],
            )
        } else {
            done(s1.with_step(Step::Precommit), seq![vote(s.round)])
        }
    }
}

/// A precommit QC: a nil one changes round, any other commits its hash.
pub open spec fn on_precommit(s: SmrModel, hash: Seq<u8>, round: u64, height: u64) -> Outcome {
    if s.height != height || s.step == Step::Commit {
        ignored(s)
    } else if hash.len() == 0 {
        if round < s.round {
            ignored(s)
        } else {
            let next = (round + 1) as u64;
            done(s.enter_round(next), seq![round_info(s, next, FromWhere::PrecommitQC(round))])
        }
    } else if !s.check_passes() {
        failed(s, check_error())
    } else {
        done(s.with_step(Step::Commit), seq![EventModel::Commit(hash)])
    }
}

/// Jump forward to a later round of the current height.
pub open spec fn on_continue_round(s: SmrModel, height: u64, round: u64) -> Outcome {
    if height != s.height || round <= s.round {
        ignored(s)
    } else {
        done(s.enter_round(round), seq![round_info(s, round, FromWhere::ChokeQC((round - 1) as u64))])
    }
}

/// What a trigger does to a state.
pub open spec fn transition(s: SmrModel, t: TriggerModel) -> Outcome {
    match t.trigger_type {
        TriggerType::NewHeight(status) => on_new_height(s, status, t.source),
        TriggerType::Proposal => on_proposal(s, t.hash, t.round, t.lock_round, t.source, t.height),
        TriggerType::PrevoteQC => on_prevote(s, t.hash, t.round, t.source, t.height),
        TriggerType::PrecommitQC => on_precommit(s, t.hash, t.round, t.height),
        TriggerType::ContinueRound => on_continue_round(s, t.height, t.round),
    }
}

/// The value of what `process` returns.
pub open spec fn result_view(r: ConsensusResult<Vec<SMREvent>>) -> Result<Seq<EventModel>, ErrorModel> {
    match r {
        Ok(v) => Ok(events_view(v@)),
        Err(e) => Err(e@),
    }
}

/// A copy of a hash.
fn copy_hash(h: &Vec<u8>) -> (r: Vec<u8>)
    ensures
        r@ == h@,
{
    let mut r: Vec<u8> = Vec::new();
    let mut i: usize = 0;
    while i < h.len()
        invariant
            i <= h.len(),
            r@ == h@.subrange(0, i as int),
        decreases h.len() - i,
    {
        r.push(h[i]);
        i += 1;
        assert(r@ =~= h@.subrange(0, i as int));
    }
    assert(h@.subrange(0, h.len() as int) =~= h@);
    r
}

/// Whether two hashes are the same byte string.
fn same_hash(a: &Vec<u8>, b: &Vec<u8>) -> (r: bool)
    ensures
        r == (a@ == b@),
{
    if a.len() != b.len() {
        return false;
    }
    let mut i: usize = 0;
    while i < a.len()
        invariant
            i <= a.len(),
            a.len() == b.len(),
            a@.subrange(0, i as int) == b@.subrange(0, i as int),
        decreases a.len() - i,
    {
        if a[i] != b[i] {
            assert(a@[i as int] != b@[i as int]);
            return false;
        }
        i += 1;
        assert(a@.subrange(0, i as int) =~= a@.subrange(0, i as int - 1).push(a@[i as int - 1]));
        assert(b@.subrange(0, i as int) =~= b@.subrange(0, i as int - 1).push(b@[i as int - 1]));
    }
    assert(a@ =~= a@.subrange(0, a.len() as int));
    assert(b@ =~= b@.subrange(0, b.len() as int));
    true
}

/// A copy of an optional lock.
fn copy_lock(l: &Option<Lock>) -> (r: Option<Lock>)
    ensures
        r.is_some() == l.is_some(),
        r matches Some(c) ==> c@ == l.unwrap()@,
{
    match l {
        Some(l) => Some(Lock { round: l.round, hash: copy_hash(&l.hash) }),
        None => None,
    }
}

/// No events.
fn no_events() -> (v: Vec<SMREvent>)
    ensures
        events_view(v@) == Seq::<EventModel>::empty(),
{
    let v: Vec<SMREvent> = Vec::new();
    assert(events_view(v@) =~= Seq::<EventModel>::empty());
    v
}

/// The state machine replica.
pub struct StateMachine {
    height: u64,
    round: u64,
    step: Step,
    block_hash: crate::types::Hash,
    lock: Option<Lock>,
}

impl View for StateMachine {
    type V = SmrModel;

    closed spec fn view(&self) -> SmrModel {
        SmrModel {
            height: self.height,
            round: self.round,
            step: self.step,
            block_hash: self.block_hash@,
            lock: match self.lock {
                Some(l) => Some(l@),
                None => None,
            },
        }
    }
}

impl StateMachine {
    #[verifier::type_invariant]
    spec fn inv(&self) -> bool {
        self@.wf()
    }

    /// Create a new state machine at the initial height and round.
    pub fn new() -> (r: StateMachine)
        ensures
            r@ == initial_model(),
            r@.wf(),
    {
        let r = StateMachine {
            height: INIT_HEIGHT,
            round: INIT_ROUND,
            step: Step::Propose,
            block_hash: Vec::new(),
            lock: None,
        };
        assert(r@.block_hash =~= Seq::<u8>::empty());
        r
    }

    /// Restore a replica from a persisted state. The state is refused with a
    /// self-check error where it breaks the lock invariants.
    pub fn restore(height: u64, round: u64, step: Step, block_hash: crate::types::Hash, lock: Option<Lock>) -> (r: ConsensusResult<StateMachine>)
        ensures
            ({
                let m = SmrModel {
                    height,
                    round,
                    step,
                    block_hash: block_hash@,
                    lock: match lock {
                        Some(l) => Some(l@),
                        None => None,
                    },
                };
                &&& r is Ok <==> m.wf()
                &&& r matches Ok(sm) ==> sm@ == m
                &&& r matches Err(e) ==> e@ == check_error()
            }),
    {
        let ok = match &lock {
            Some(l) => l.hash.len() > 0 && same_hash(&l.hash, &block_hash) && l.round <= round,
            None => true,
        };
        if ok {
            Ok(StateMachine { height, round, step, block_hash, lock })
        } else {
            Err(ConsensusError::SelfCheckErr(String::from_str("Lock")))
        }
    }

    /// The full self-check. The lock invariants always hold of a replica, so
    /// only the two stricter checks can fail: a lock before the precommit step
    /// of round 0, and a block hash at the propose step without a lock.
    pub fn strict_check(&self) -> (r: ConsensusResult<()>)
        ensures
            r is Ok <==> self@.strict_check_passes(),
            r matches Err(e) ==> {
                ||| (self@.lock is Some && e@ == ErrorModel::SelfCheckErr("Invalid lock"@))
                ||| (self@.lock is None && e@ == ErrorModel::SelfCheckErr("Proposal without lock"@))
            },
    {
        proof { use_type_invariant(&*self); }
        match self.check() {
            Err(e) => return Err(e),
            Ok(()) => {},
        }
        if self.step.index() < 2 && self.round == 0 && self.lock.is_some() {
            return Err(ConsensusError::SelfCheckErr(String::from_str("Invalid lock")));
        }
        if self.step.index() == 0 && self.lock.is_none() && self.block_hash.len() > 0 {
            return Err(ConsensusError::SelfCheckErr(String::from_str("Proposal without lock")));
        }
        Ok(())
    }

    /// The height being decided.
    pub fn height(&self) -> (r: u64)
        ensures
            r == self@.height,
    {
        self.height
    }

    /// The round within the height.
    pub fn round(&self) -> (r: u64)
        ensures
            r == self@.round,
    {
        self.round
    }

    /// The step within the round.
    pub fn step(&self) -> (r: Step)
        ensures
            r == self@.step,
    {
        self.step
    }

    /// The hash this replica would vote for; empty when it holds none.
    pub fn block_hash(&self) -> (r: crate::types::Hash)
        ensures
            r@ == self@.block_hash,
    {
        copy_hash(&self.block_hash)
    }

    /// The replica's proof of lock change, if any.
    pub fn lock(&self) -> (r: Option<Lock>)
        ensures
            r.is_some() == self@.lock.is_some(),
            r matches Some(l) ==> self@.lock == Some(l@),
    {
        copy_lock(&self.lock)
    }

    /// Handle one trigger: apply the transition it calls for and return the
    /// events to publish, in order, or the error it raises. An error leaves
    /// the state unchanged.
    pub fn process(&mut self, msg: SMRTrigger) -> (r: ConsensusResult<Vec<SMREvent>>)
        requires
            round_fits(msg@),
        ensures
            final(self)@ == transition(old(self)@, msg@).state,
            result_view(r) == transition(old(self)@, msg@).result,
            final(self)@.wf(),
    {
        proof { use_type_invariant(&*self); }
        let res = match msg.trigger_type {
            TriggerType::NewHeight(status) => self.handle_new_height(status, msg.source),
            TriggerType::Proposal => self.handle_proposal(
                msg.hash,
                msg.round,
                msg.lock_round,
                msg.source,
                msg.height,
            ),
            TriggerType::PrevoteQC => self.handle_prevote(msg.hash, msg.round, msg.source, msg.height),
            TriggerType::PrecommitQC => self.handle_precommit(msg.hash, msg.round, msg.height),
            TriggerType::ContinueRound => self.handle_continue_round(msg.height, msg.round),
        };
        proof { use_type_invariant(&*self); }
        res
    }

    /// Handle a new height status: go to the new height and announce its
    /// first round.
    fn handle_new_height(&mut self, status: SMRStatus, source: TriggerSource) -> (r: ConsensusResult<Vec<SMREvent>>)
        ensures
            final(self)@ == on_new_height(old(self)@, status, source).state,
            result_view(r) == on_new_height(old(self)@, status, source).result,
    {
        if source != TriggerSource::State {
            return Err(ConsensusError::Other(String::from_str("Rich status source error")));
        } else if status.height <= self.height {
            return Err(ConsensusError::Other(String::from_str("Delayed status")));
        }
        self.goto_new_height(status.height);
        let ev = SMREvent::NewRoundInfo {
            height: self.height,
            round: INIT_ROUND,
            lock_round: None,
            lock_proposal: None,
            new_interval: status.new_interval,
            new_config: status.new_config,
            from_where: FromWhere::PrecommitQC(u64::MAX),
        };
        self.goto_step(Step::Propose);
        let v = vec![ev];
        proof {
            assert(events_view(v@) =~= seq![ev@]);
            assert(self@ == on_new_height(old(self)@, status, source).state);
        }
        Ok(v)
    }

    /// Handle a proposal, which counts only at the propose step of the current
    /// round. A timeout prevotes for the locked hash, or for none. A proposal
    /// is reconciled with the lock, then prevoted for.
    fn handle_proposal(
        &mut self,
        proposal_hash: crate::types::Hash,
        round: u64,
        lock_round: Option<u64>,
        source: TriggerSource,
        height: u64,
    ) -> (r: ConsensusResult<Vec<SMREvent>>)
        ensures
            final(self)@ == on_proposal(old(self)@, proposal_hash@, round, lock_round, source, height).state,
            result_view(r) == on_proposal(old(self)@, proposal_hash@, round, lock_round, source, height).result,
    {
        proof { use_type_invariant(&*self); }
        if self.height != height || self.round != round {
            return Ok(no_events());
        }
        if self.step.index() > 0 {
            return Ok(no_events());
        }
        if source == TriggerSource::Timer {
            let (lr, hash) = match &self.lock {
                Some(l) => (Some(l.round), copy_hash(&l.hash)),
                None => (None, Vec::new()),
            };
            let ev = SMREvent::PrevoteVote { height: self.height, round: self.round, block_hash: hash, lock_round: lr };
            self.goto_step(Step::Prevote);
            let v = vec![ev];
            proof {
                assert(hash@ =~= (match old(self)@.lock { Some(l) => l.hash, None => Seq::empty() }));
                assert(events_view(v@) =~= on_proposal(old(self)@, proposal_hash@, round, lock_round, source, height).result->Ok_0);
            }
            return Ok(v);
        } else if proposal_hash.len() == 0 {
            return Err(ConsensusError::ProposalErr(String::from_str("Empty proposal")));
        }
        match self.check() {
            Err(e) => return Err(e),
            Ok(()) => {},
        }
        let locked = self.lock_round();
        match lock_round {
            Some(r) => match locked {
                Some(l) => {
                    if r > l {
                        self.remove_polc();
                        self.set_proposal(proposal_hash);
                    } else if r == l && !same_hash(&proposal_hash, &self.block_hash) {
                        return Err(ConsensusError::CorrectnessErr(String::from_str("Fork")));
                    }
                },
                None => self.set_proposal(proposal_hash),
            },
            None => {
                if locked.is_none() {
                    self.set_proposal(proposal_hash);
                }
            },
        }
        proof { assert(self@ == reconciled(old(self)@, proposal_hash@, lock_round)); }
        let ev = SMREvent::PrevoteVote {
            height: self.height,
            round: self.round,
            block_hash: copy_hash(&self.block_hash),
            lock_round: self.lock_round(),
        };
        self.goto_step(Step::Prevote);
        let v = vec![ev];
        proof { assert(events_view(v@) =~= on_proposal(old(self)@, proposal_hash@, round, lock_round, source, height).result->Ok_0); }
        Ok(v)
    }

    /// Handle a prevote QC, or a prevote timeout. A timeout precommits for no
    /// hash. A QC of the current round or later updates the proof of lock
    /// change, moves past its round if it is ahead, and is precommitted for.
    fn handle_prevote(
        &mut self,
        prevote_hash: crate::types::Hash,
        prevote_round: u64,
        source: TriggerSource,
        height: u64,
    ) -> (r: ConsensusResult<Vec<SMREvent>>)
        requires
            prevote_round < u64::MAX,
        ensures
            final(self)@ == on_prevote(old(self)@, prevote_hash@, prevote_round, source, height).state,
            result_view(r) == on_prevote(old(self)@, prevote_hash@, prevote_round, source, height).result,
    {
        proof { use_type_invariant(&*self); }
        if self.height != height {
            return Ok(no_events());
        }
        if prevote_round == self.round && self.step.index() > 1 {
            return Ok(no_events());
        }
        if source == TriggerSource::Timer {
            if prevote_round != self.round {
                return Ok(no_events());
            }
            let lr = self.lock_round();
            if lr.is_none() {
                self.set_proposal(Vec::new());
            }
            let ev = SMREvent::PrecommitVote { height: self.height, round: self.round, block_hash: Vec::new(), lock_round: lr };
            self.goto_step(Step::Precommit);
            let v = vec![ev];
            proof {
                assert(self@.block_hash =~= on_prevote(old(self)@, prevote_hash@, prevote_round, source, height).state.block_hash);
                assert(events_view(v@) =~= on_prevote(old(self)@, prevote_hash@, prevote_round, source, height).result->Ok_0);
            }
            return Ok(v);
        }
        match self.check() {
            Err(e) => return Err(e),
            Ok(()) => {},
        }
        if prevote_round < self.round {
            return Ok(no_events());
        }
        let jump = prevote_round > self.round;
        if jump {
            self.round = prevote_round;
        }
        self.update_polc(prevote_hash, prevote_round);
        let mut v: Vec<SMREvent> = Vec::new();
        if jump {
            let lock_proposal = self.lock_hash();
            v.push(SMREvent::NewRoundInfo {
                height: self.height,
                round: self.round + 1,
                lock_round: self.lock_round(),
                lock_proposal,
                new_interval: None,
                new_config: None,
                from_where: FromWhere::PrevoteQC(prevote_round),
            });
            self.goto_next_round();
        }
        v.push(SMREvent::PrecommitVote {
            height: self.height,
            round: self.round,
            block_hash: copy_hash(&self.block_hash),
            lock_round: self.lock_round(),
        });
        self.goto_step(Step::Precommit);
        proof {
            assert(self@ == on_prevote(old(self)@, prevote_hash@, prevote_round, source, height).state);
            assert(events_view(v@) =~= on_prevote(old(self)@, prevote_hash@, prevote_round, source, height).result->Ok_0);
        }
        Ok(v)
    }

    /// Handle a precommit QC, unless the height is committed. A nil QC of the
    /// current round or later moves to the round after it; any other commits.
    fn handle_precommit(&mut self, precommit_hash: crate::types::Hash, precommit_round: u64, height: u64) -> (r: ConsensusResult<Vec<SMREvent>>)
        requires
            precommit_round < u64::MAX,
        ensures
            final(self)@ == on_precommit(old(self)@, precommit_hash@, precommit_round, height).state,
            result_view(r) == on_precommit(old(self)@, precommit_hash@, precommit_round, height).result,
    {
        proof { use_type_invariant(&*self); }
        if self.height != height {
            return Ok(no_events());
        }
        if self.step == Step::Commit {
            return Ok(no_events());
        }
        if precommit_hash.len() == 0 {
            if precommit_round < self.round {
                return Ok(no_events());
            }
            let lock_proposal = self.lock_hash();
            self.round = precommit_round;
            let ev = SMREvent::NewRoundInfo {
                height: self.height,
                round: self.round + 1,
                lock_round: self.lock_round(),
                lock_proposal,
                new_interval: None,
                new_config: None,
                from_where: FromWhere::PrecommitQC(precommit_round),
            };
            self.goto_next_round();
            let v = vec![ev];
            proof { assert(events_view(v@) =~= on_precommit(old(self)@, precommit_hash@, precommit_round, height).result->Ok_0); }
            return Ok(v);
        }
        match self.check() {
            Err(e) => return Err(e),
            Ok(()) => {},
        }
        let ev = SMREvent::Commit(precommit_hash);
        self.goto_step(Step::Commit);
        let v = vec![ev];
        proof { assert(events_view(v@) =~= on_precommit(old(self)@, precommit_hash@, precommit_round, height).result->Ok_0); }
        Ok(v)
    }

    /// Handle a jump forward to a later round of the current height.
    fn handle_continue_round(&mut self, height: u64, round: u64) -> (r: ConsensusResult<Vec<SMREvent>>)
        ensures
            final(self)@ == on_continue_round(old(self)@, height, round).state,
            result_view(r) == on_continue_round(old(self)@, height, round).result,
    {
        proof { use_type_invariant(&*self); }
        if height != self.height || round <= self.round {
            return Ok(no_events());
        }
        self.round = round - 1;
        let lock_proposal = self.lock_hash();
        let ev = SMREvent::NewRoundInfo {
            height: self.height,
            round: self.round + 1,
            lock_round: self.lock_round(),
            lock_proposal,
            new_interval: None,
            new_config: None,
            from_where: FromWhere::ChokeQC(round - 1),
        };
        self.goto_next_round();
        let v = vec![ev];
        proof { assert(events_view(v@) =~= seq![ev@]); }
        Ok(v)
    }

    /// Go to a new height, clearing everything that belongs to the old one.
    fn goto_new_height(&mut self, height: u64)
        ensures
            final(self)@ == (SmrModel { height, round: INIT_ROUND, block_hash: Seq::empty(), lock: None, ..old(self)@ }),
    {
        self.lock = None;
        self.block_hash = Vec::new();
        self.round = INIT_ROUND;
        self.height = height;
        proof { assert(self@.block_hash =~= Seq::<u8>::empty()); }
    }

    /// Go to the next round, keeping the lock.
    fn goto_next_round(&mut self)
        requires
            old(self).round < u64::MAX,
        ensures
            final(self)@ == old(self)@.enter_round((old(self)@.round + 1) as u64),
    {
        proof { use_type_invariant(&*self); }
        self.round = self.round + 1;
        self.goto_step(Step::Propose);
    }

    /// Go to the given step.
    fn goto_step(&mut self, step: Step)
        ensures
            final(self)@ == old(self)@.with_step(step),
    {
        proof { use_type_invariant(&*self); }
        self.step = step;
    }

    /// Take the proof of lock change of a prevote QC: its hash becomes the
    /// block hash, and the lock is cleared for a nil QC and set otherwise.
    fn update_polc(&mut self, hash: crate::types::Hash, round: u64)
        requires
            round <= old(self).round,
        ensures
            final(self)@ == polc_updated(old(self)@, hash@, round),
    {
        self.remove_polc();
        if hash.len() == 0 {
            self.set_proposal(hash);
        } else {
            let locked = copy_hash(&hash);
            self.set_proposal(hash);
            self.lock = Some(Lock { round, hash: locked });
        }
    }

    fn remove_polc(&mut self)
        ensures
            final(self)@ == (SmrModel { lock: None, ..old(self)@ }),
    {
        self.lock = None;
    }

    /// Set the block hash; only an unlocked replica may change it.
    fn set_proposal(&mut self, proposal_hash: crate::types::Hash)
        requires
            old(self)@.lock is None,
        ensures
            final(self)@ == (SmrModel { block_hash: proposal_hash@, ..old(self)@ }),
    {
        self.block_hash = proposal_hash;
    }

    fn lock_round(&self) -> (r: Option<u64>)
        ensures
            r == self@.lock_round(),
    {
        match &self.lock {
            Some(l) => Some(l.round),
            None => None,
        }
    }

    fn lock_hash(&self) -> (r: Option<crate::types::Hash>)
        ensures
            r.is_some() == self@.lock.is_some(),
            r matches Some(h) ==> self@.lock_proposal() == Some(h@),
    {
        match &self.lock {
            Some(l) => Some(copy_hash(&l.hash)),
            None => None,
        }
    }

    /// The self-check made before each state-sourced decision.
    fn check(&self) -> (r: ConsensusResult<()>)
        ensures
            r is Ok <==> self@.check_passes(),
            r matches Err(e) ==> e@ == check_error(),
    {
        match &self.lock {
            Some(l) => {
                if self.block_hash.len() == 0 || !same_hash(&l.hash, &self.block_hash) {
                    Err(ConsensusError::SelfCheckErr(String::from_str("Lock")))
                } else {
                    Ok(())
                }
            },
            None => Ok(()),
        }
    }
}

} // verus!
