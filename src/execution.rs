//! The execution orchestrator's per-plan state machine.
//!
//! The machine decides; the caller performs. Each call of `step` takes one
//! event (what the chain client or a timer reported) and returns the one
//! action to perform next. A plan moves from simulation to submission to
//! pending inclusion, and ends confirmed, reverted, expired, abandoned or
//! out of retries; each of these ends is reported exactly once.
use vstd::prelude::*;
use crate::amount::{Amount, sat_add, sat_sub};
use crate::opportunity::StrategyKind;
use crate::plan::{ExecutionPlan, OrderingConstraint};

verus! {

/// Where a plan stands.
#[derive(Clone, Copy, Debug, PartialEq, Eq, Structural, Hash)]
pub enum Phase {
    /// Dry run against current chain state.
    Simulating,
    /// About to submit, once the pre-submission check comes back.
    Submitting,
    /// Submitted, awaiting inclusion.
    Pending,
    /// Waiting out the delay after a failed submission.
    Backoff,
    Confirmed,
    Reverted,
    Expired,
    Abandoned,
    RetriesExceeded,
}

/// How a plan ended.
#[derive(Clone, Copy, Debug, PartialEq, Eq, Structural, Hash)]
pub enum Outcome {
    ConfirmedSuccess,
    ConfirmedReverted,
    Expired,
    Abandoned,
    RetriesExceeded,
}

/// What the chain client or a timer reports to the machine.
#[derive(Clone, Copy, Debug, PartialEq, Eq, Structural, Hash)]
pub enum Event {
    /// The dry run finished.
    Simulated { reverted: bool },
    /// The pre-submission check: whether the subject transaction is still
    /// pending, and the current height.
    ReadyToSubmit { subject_pending: bool, height: u64 },
    /// The submission failed before reaching the chain (network or RPC
    /// error).
    SubmitFailed,
    /// The submission was included; `proceeds` is what the plan returned
    /// and `gas_cost` what inclusion cost.
    Included { success: bool, proceeds: Amount, gas_cost: Amount },
    /// A new block was observed.
    NewBlock { height: u64 },
    /// The backoff delay has passed.
    TimerElapsed,
}

/// A terminal result, as the reporter passes it on.
#[derive(Clone, Copy, Debug, PartialEq, Eq, Structural, Hash)]
pub struct OutcomeRecord {
    pub plan_id: u64,
    pub strategy_kind: StrategyKind,
    pub outcome: Outcome,
    /// What the plan returned on inclusion.
    pub proceeds: Amount,
    /// What inclusion cost in gas.
    pub gas_cost: Amount,
    pub attempt_count: u32,
    pub started_at: u64,
    pub finished_at: u64,
}

impl OutcomeRecord {
    /// What the plan gained net of gas, zero on a loss.
    pub fn realized_profit(&self) -> (r: Amount)
        ensures
            r@ == sat_sub(self.proceeds@, self.gas_cost@),
    {
        self.proceeds.saturating_sub(&self.gas_cost)
    }

    /// What the plan lost net of its proceeds, zero on a gain.
    pub fn realized_loss(&self) -> (r: Amount)
        ensures
            r@ == sat_sub(self.gas_cost@, self.proceeds@),
    {
        self.gas_cost.saturating_sub(&self.proceeds)
    }
}

/// What a plan returned, measured from the funding account's balance
/// before and after inclusion and the gas that inclusion cost; clamped at
/// zero and at the largest amount.
pub fn realized_proceeds(balance_before: &Amount, balance_after: &Amount, gas_cost: &Amount) -> (r: Amount)
    ensures
        r@ == sat_sub(sat_add(balance_after@, gas_cost@), balance_before@),
{
    balance_after.saturating_add(gas_cost).saturating_sub(balance_before)
}

/// What the caller does next.
#[derive(Clone, Copy, Debug, PartialEq, Eq, Structural, Hash)]
pub enum Action {
    /// Re-check that the subject is still pending and read the height,
    /// then report `ReadyToSubmit`.
    CheckBeforeSubmit,
    /// Submit the plan as attempt number `attempt` with this fee bid.
    Submit { attempt: u32, fee_bid: u64 },
    /// Wait this long, then report `TimerElapsed`.
    Wait { delay: u64 },
    /// Hand this record to the reporter.
    Report(OutcomeRecord),
    /// Nothing to do until the next event.
    Idle,
}

/// Retry and fee policy of one plan.
#[derive(Clone, Copy, Debug, PartialEq, Eq, Structural, Hash)]
pub struct RetryPolicy {
    pub max_retries: u32,
    pub base_delay: u64,
    pub max_delay: u64,
    pub fee_bump: u64,
}

/// `base` doubled `k` times.
pub open spec fn doubled(base: nat, k: nat) -> nat
    decreases k,
{
    if k == 0 {
        base
    } else {
        2 * doubled(base, (k - 1) as nat)
    }
}

/// Delay after the failure of attempt `k + 1`: `base` doubled `k` times,
/// capped at `cap`.
pub open spec fn backoff(base: nat, cap: nat, k: nat) -> nat {
    if doubled(base, k) > cap {
        cap
    } else {
        doubled(base, k)
    }
}

proof fn lemma_doubled_monotone(base: nat, i: nat, j: nat)
    requires
        i <= j,
    ensures
        doubled(base, i) <= doubled(base, j),
    decreases j,
{
    if i < j {
        lemma_doubled_monotone(base, i, (j - 1) as nat);
    }
}

/// Backoff delays never shrink from one attempt to the next, never exceed
/// the cap, and follow base, 2 x base, 4 x base, ... until they reach it.
pub proof fn lemma_backoff_schedule(base: nat, cap: nat, i: nat, j: nat)
    requires
        i <= j,
    ensures
        backoff(base, cap, i) <= backoff(base, cap, j),
        backoff(base, cap, j) <= cap,
        doubled(base, j) <= cap ==> backoff(base, cap, j) == doubled(base, j),
        doubled(base, j + 1) == 2 * doubled(base, j),
{
    lemma_doubled_monotone(base, i, j);
}

/// The delay to wait after the failure of attempt `k + 1`.
pub fn backoff_delay(base: u64, cap: u64, k: u32) -> (r: u64)
    ensures
        r == backoff(base as nat, cap as nat, k as nat),
{
    let mut d: u64 = base;
    let mut i: u32 = 0;
    while i < k
        invariant
            i <= k,
            d == doubled(base as nat, i as nat),
        decreases k - i,
    {
        if d > cap / 2 {
            proof {
                lemma_doubled_monotone(base as nat, (i + 1) as nat, k as nat);
            }
            return cap;
        }
        d = d * 2;
        i += 1;
    }
    if d > cap {
        cap
    } else {
        d
    }
}

/// The state of one plan's execution.
#[derive(Clone, Copy, Debug, PartialEq, Eq, Structural, Hash)]
pub struct Execution {
    pub plan_id: u64,
    pub strategy_kind: StrategyKind,
    pub deadline_block: u64,
    /// The plan must be ordered against a transaction that is still pending.
    pub needs_subject: bool,
    pub policy: RetryPolicy,
    pub phase: Phase,
    /// Attempts submitted so far.
    pub attempts: u32,
    /// Fee bid of the current or next attempt.
    pub fee_bid: u64,
    pub started_at: u64,
}

pub open spec fn terminal(p: Phase) -> bool {
    match p {
        Phase::Confirmed | Phase::Reverted | Phase::Expired | Phase::Abandoned
        | Phase::RetriesExceeded => true,
        _ => false,
    }
}

pub open spec fn record_of(s: Execution, outcome: Outcome, proceeds: Amount, gas_cost: Amount, now: u64) -> OutcomeRecord {
    OutcomeRecord {
        plan_id: s.plan_id,
        strategy_kind: s.strategy_kind,
        outcome,
        proceeds,
        gas_cost,
        attempt_count: s.attempts,
        started_at: s.started_at,
        finished_at: now,
    }
}

pub open spec fn zero() -> Amount {
    Amount { w0: 0, w1: 0, w2: 0, w3: 0 }
}

/// Ends the plan with `outcome` and reports it, with no profit or loss.
pub open spec fn finish(s: Execution, phase: Phase, outcome: Outcome, now: u64) -> (Execution, Action) {
    (Execution { phase, ..s }, Action::Report(record_of(s, outcome, zero(), zero(), now)))
}

pub open spec fn sat_add_u64(a: u64, b: u64) -> u64 {
    if a + b > u64::MAX {
        u64::MAX
    } else {
        (a + b) as u64
    }
}

/// Failed attempts before the latest one.
pub open spec fn failures_before(attempts: u32) -> nat {
    if attempts == 0 {
        0
    } else {
        (attempts - 1) as nat
    }
}

/// The transition relation: the next state and action for an event.
pub open spec fn next(s: Execution, e: Event, now: u64) -> (Execution, Action) {
    let expired = match e {
        Event::NewBlock { height } => height > s.deadline_block,
        _ => false,
    };
    if terminal(s.phase) {
        (s, Action::Idle)
    } else if expired {
        finish(s, Phase::Expired, Outcome::Expired, now)
    } else {
        match (s.phase, e) {
            (Phase::Simulating, Event::Simulated { reverted }) => if reverted {
                finish(s, Phase::Abandoned, Outcome::Abandoned, now)
            } else {
                (Execution { phase: Phase::Submitting, ..s }, Action::CheckBeforeSubmit)
            },
            (Phase::Submitting, Event::ReadyToSubmit { subject_pending, height }) => if height
                > s.deadline_block {
                finish(s, Phase::Expired, Outcome::Expired, now)
            } else if s.attempts >= s.policy.max_retries {
                finish(s, Phase::RetriesExceeded, Outcome::RetriesExceeded, now)
            } else if s.needs_subject && !subject_pending {
                finish(s, Phase::Abandoned, Outcome::Abandoned, now)
            } else {
                let n = (s.attempts + 1) as u32;
                (
                    Execution { phase: Phase::Pending, attempts: n, ..s },
                    Action::Submit { attempt: n, fee_bid: s.fee_bid },
                )
            },
            (Phase::Pending, Event::Included { success, proceeds, gas_cost }) => if success {
                (
                    Execution { phase: Phase::Confirmed, ..s },
                    Action::Report(
                        record_of(s, Outcome::ConfirmedSuccess, proceeds, gas_cost, now),
                    ),
                )
            } else {
                (
                    Execution { phase: Phase::Reverted, ..s },
                    Action::Report(record_of(s, Outcome::ConfirmedReverted, zero(), gas_cost, now)),
                )
            },
            (Phase::Pending, Event::SubmitFailed) => (
                Execution { phase: Phase::Backoff, ..s },
                Action::Wait {
                    delay: backoff(
                        s.policy.base_delay as nat,
                        s.policy.max_delay as nat,
                        failures_before(s.attempts),
                    ) as u64,
                },
            ),
            (Phase::Backoff, Event::TimerElapsed) => if s.attempts >= s.policy.max_retries {
                finish(s, Phase::RetriesExceeded, Outcome::RetriesExceeded, now)
            } else {
                (
                    Execution {
                        phase: Phase::Submitting,
                        fee_bid: sat_add_u64(s.fee_bid, s.policy.fee_bump),
                        ..s
                    },
                    Action::CheckBeforeSubmit,
                )
            },
            _ => (s, Action::Idle),
        }
    }
}

/// Fee bid of a first attempt: the market fee, plus the premium for
/// strategies that race a transaction, clamped at the largest value.
pub open spec fn first_bid(kind: StrategyKind, market_fee: u64, premium: u64) -> u64 {
    if kind.competitive() {
        sat_add_u64(market_fee, premium)
    } else {
        market_fee
    }
}

fn saturating_add_u64(a: u64, b: u64) -> (r: u64)
    ensures
        r == sat_add_u64(a, b),
{
    if a > u64::MAX - b {
        u64::MAX
    } else {
        a + b
    }
}

pub fn initial_fee_bid(kind: StrategyKind, market_fee: u64, premium: u64) -> (r: u64)
    ensures
        r == first_bid(kind, market_fee, premium),
{
    if kind.is_competitive() {
        saturating_add_u64(market_fee, premium)
    } else {
        market_fee
    }
}

impl Execution {
    /// Attempts never exceed the cap, and a plan that was submitted has
    /// counted its attempt.
    pub open spec fn wf(&self) -> bool {
        &&& self.attempts <= self.policy.max_retries
        &&& (self.phase == Phase::Pending || self.phase == Phase::Backoff) ==> self.attempts >= 1
    }

    /// A fresh execution of `plan`, about to be simulated.
    pub fn new(plan_id: u64, plan: &ExecutionPlan, policy: RetryPolicy, market_fee: u64, fee_premium: u64, now: u64) -> (r: Execution)
        ensures
            r.wf(),
            r == (Execution {
                plan_id,
                strategy_kind: plan.strategy_kind,
                deadline_block: plan.deadline_block,
                needs_subject: plan.ordering != OrderingConstraint::Either,
                policy,
                phase: Phase::Simulating,
                attempts: 0,
                fee_bid: first_bid(plan.strategy_kind, market_fee, fee_premium),
                started_at: now,
            }),
    {
        let needs_subject = match plan.ordering {
            OrderingConstraint::Either => false,
            _ => true,
        };
        Execution {
            plan_id,
            strategy_kind: plan.strategy_kind,
            deadline_block: plan.deadline_block,
            needs_subject,
            policy,
            phase: Phase::Simulating,
            attempts: 0,
            fee_bid: initial_fee_bid(plan.strategy_kind, market_fee, fee_premium),
            started_at: now,
        }
    }

    fn report(&self, outcome: Outcome, proceeds: Amount, gas_cost: Amount, now: u64) -> (r: Action)
        ensures
            r == Action::Report(record_of(*self, outcome, proceeds, gas_cost, now)),
    {
        Action::Report(
            OutcomeRecord {
                plan_id: self.plan_id,
                strategy_kind: self.strategy_kind,
                outcome,
                proceeds,
                gas_cost,
                attempt_count: self.attempts,
                started_at: self.started_at,
                finished_at: now,
            },
        )
    }

    fn end(&mut self, phase: Phase, outcome: Outcome, now: u64) -> (r: Action)
        ensures
            (*final(self), r) == finish(*old(self), phase, outcome, now),
    {
        let r = self.report(outcome, Amount::zero(), Amount::zero(), now);
        self.phase = phase;
        r
    }

    /// Advances the machine by one event observed at time `now`.
    pub fn step(&mut self, e: Event, now: u64) -> (r: Action)
        ensures
            (*final(self), r) == next(*old(self), e, now),
            old(self).wf() ==> final(self).wf(),
    {
        let expired = match e {
            Event::NewBlock { height } => height > self.deadline_block,
            _ => false,
        };
        match self.phase {
            Phase::Confirmed | Phase::Reverted | Phase::Expired | Phase::Abandoned
            | Phase::RetriesExceeded => {
                return Action::Idle;
            },
            _ => {},
        }
        if expired {
            return self.end(Phase::Expired, Outcome::Expired, now);
        }
        match (self.phase, e) {
            (Phase::Simulating, Event::Simulated { reverted }) => {
                if reverted {
                    self.end(Phase::Abandoned, Outcome::Abandoned, now)
                } else {
                    self.phase = Phase::Submitting;
                    Action::CheckBeforeSubmit
                }
            },
            (Phase::Submitting, Event::ReadyToSubmit { subject_pending, height }) => {
                if height > self.deadline_block {
                    self.end(Phase::Expired, Outcome::Expired, now)
                } else if self.attempts >= self.policy.max_retries {
                    self.end(Phase::RetriesExceeded, Outcome::RetriesExceeded, now)
                } else if self.needs_subject && !subject_pending {
                    self.end(Phase::Abandoned, Outcome::Abandoned, now)
                } else {
                    self.attempts = self.attempts + 1;
                    self.phase = Phase::Pending;
                    Action::Submit { attempt: self.attempts, fee_bid: self.fee_bid }
                }
            },
            (Phase::Pending, Event::Included { success, proceeds, gas_cost }) => {
                if success {
                    let r = self.report(Outcome::ConfirmedSuccess, proceeds, gas_cost, now);
                    self.phase = Phase::Confirmed;
                    r
                } else {
                    let r = self.report(Outcome::ConfirmedReverted, Amount::zero(), gas_cost, now);
                    self.phase = Phase::Reverted;
                    r
                }
            },
            (Phase::Pending, Event::SubmitFailed) => {
                let failures = if self.attempts == 0 {
                    0
                } else {
                    self.attempts - 1
                };
                let delay = backoff_delay(self.policy.base_delay, self.policy.max_delay, failures);
                self.phase = Phase::Backoff;
                Action::Wait { delay }
            },
            (Phase::Backoff, Event::TimerElapsed) => {
                if self.attempts >= self.policy.max_retries {
                    self.end(Phase::RetriesExceeded, Outcome::RetriesExceeded, now)
                } else {
                    self.fee_bid = saturating_add_u64(self.fee_bid, self.policy.fee_bump);
                    self.phase = Phase::Submitting;
                    Action::CheckBeforeSubmit
                }
            },
            _ => Action::Idle,
        }
    }
}

/// No plan is submitted more than `max_retries` times: every step keeps
/// the attempt count within the cap, a submission never carries a number
/// above it, and `RetriesExceeded` comes only once the cap is reached.
pub proof fn lemma_attempts_bounded(s: Execution, e: Event, now: u64)
    requires
        s.wf(),
    ensures
        next(s, e, now).0.wf(),
        next(s, e, now).0.attempts <= s.policy.max_retries,
        next(s, e, now).1 is Submit ==> next(s, e, now).1->attempt <= s.policy.max_retries,
        next(s, e, now).0.phase == Phase::RetriesExceeded && s.phase != Phase::RetriesExceeded
            ==> s.attempts == s.policy.max_retries,
{
}

/// A plan's fee bid never decreases from one step to the next, and rises
/// with each new attempt while the bump is positive and the bid has room.
pub proof fn lemma_fee_bid_rises(s: Execution, e: Event, now: u64)
    ensures
        next(s, e, now).0.fee_bid >= s.fee_bid,
        s.phase == Phase::Backoff && e == Event::TimerElapsed && s.attempts < s.policy.max_retries
            && s.policy.fee_bump > 0 && s.fee_bid < u64::MAX ==> next(s, e, now).0.fee_bid
            > s.fee_bid,
{
}

/// With a base delay of 1 and a cap of at least 4, a plan whose three
/// submissions all fail before reaching the chain waits 1, 2 and 4 between
/// them, then ends `RetriesExceeded` after exactly three attempts and
/// reports that once.
pub proof fn lemma_three_failures(s0: Execution, height: u64, now: u64)
    requires
        s0.phase == Phase::Submitting,
        s0.attempts == 0,
        s0.policy.max_retries == 3,
        s0.policy.base_delay == 1,
        s0.policy.max_delay >= 4,
        height <= s0.deadline_block,
    ensures
        ({
            let ready = Event::ReadyToSubmit { subject_pending: true, height };
            let (s1, a1) = next(s0, ready, now);
            let (s2, a2) = next(s1, Event::SubmitFailed, now);
            let (s3, a3) = next(s2, Event::TimerElapsed, now);
            let (s4, a4) = next(s3, ready, now);
            let (s5, a5) = next(s4, Event::SubmitFailed, now);
            let (s6, a6) = next(s5, Event::TimerElapsed, now);
            let (s7, a7) = next(s6, ready, now);
            let (s8, a8) = next(s7, Event::SubmitFailed, now);
            let (s9, a9) = next(s8, Event::TimerElapsed, now);
            &&& a1 is Submit && a1->attempt == 1
            &&& a2 == Action::Wait { delay: 1 }
            &&& a3 == Action::CheckBeforeSubmit
            &&& a4 is Submit && a4->attempt == 2
            &&& a5 == Action::Wait { delay: 2 }
            &&& a6 == Action::CheckBeforeSubmit
            &&& a7 is Submit && a7->attempt == 3
            &&& a8 == Action::Wait { delay: 4 }
            &&& a9 is Report && a9->Report_0.outcome == Outcome::RetriesExceeded
                && a9->Report_0.attempt_count == 3
            &&& s9.phase == Phase::RetriesExceeded
        }),
{
    reveal_with_fuel(doubled, 3);
}

/// A pending plan whose deadline has passed becomes `Expired`, is reported
/// as such, and from then on answers every event by doing nothing: it is
/// never submitted again.
pub proof fn lemma_expired_is_final(s: Execution, height: u64, now: u64, later: Event, then: u64)
    requires
        s.phase == Phase::Pending,
        height > s.deadline_block,
    ensures
        next(s, Event::NewBlock { height }, now).0.phase == Phase::Expired,
        next(s, Event::NewBlock { height }, now).1 == Action::Report(
            record_of(s, Outcome::Expired, zero(), zero(), now),
        ),
        next(next(s, Event::NewBlock { height }, now).0, later, then) == (
            next(s, Event::NewBlock { height }, now).0,
            Action::Idle,
        ),
{
}

/// Each plan's end is reported exactly once: a step reports if and only if
/// it moves the plan from a live phase into a terminal one.
pub proof fn lemma_reported_once(s: Execution, e: Event, now: u64)
    ensures
        next(s, e, now).1 is Report <==> !terminal(s.phase) && terminal(next(s, e, now).0.phase),
        terminal(s.phase) ==> next(s, e, now) == (s, Action::Idle),
{
}

} // verus!
