//! The profitability evaluator: turns a candidate into an execution plan or
//! a rejection. It never fails; a rejection is an ordinary result.
use vstd::prelude::*;
use crate::amount::{Amount, amount_max, bps_of};
use crate::capital::{CapitalError, borrow_step, provide_capital, repay_step, repay_total};
use crate::config::StrategyConfig;
use crate::opportunity::{
    Address, Opportunity, StrategyKind, Subject, TxHash, base_asset, other_asset, shape_matches,
    subject_fits,
};
use crate::plan::{
    CallArgs, ExecutionPlan, Method, NO_DEBT_MODE, OrderingConstraint, Step, is_funding_method,
};

verus! {

/// Why a candidate was dropped.
#[derive(Clone, Copy, Debug, PartialEq, Eq, Structural, Hash)]
pub enum RejectReason {
    /// The expected gain does not strictly exceed the estimated cost.
    Unprofitable,
    /// Detected too many blocks ago.
    Stale,
    /// The subject does not fit the strategy, or its asset has no known
    /// price feed.
    UnsupportedSubject,
    /// The plan needs borrowed capital and no facility is configured for
    /// the asset.
    NoFundingFacility,
    /// The repayment of the needed loan does not fit in 256 bits.
    Overflow,
}

/// The evaluator's verdict on one candidate.
#[derive(Clone, Debug)]
pub enum Evaluation {
    Accept(ExecutionPlan),
    Reject(RejectReason),
}

pub open spec fn is_stale(o: Opportunity, current_height: u64, max_staleness: u64) -> bool {
    current_height > o.observed_at_block && current_height - o.observed_at_block > max_staleness
}

pub open spec fn subject_supported(o: Opportunity, c: StrategyConfig) -> bool {
    &&& shape_matches(o.strategy_kind, o.subject)
    &&& match o.subject {
        Subject::Borrower { collateral, .. } => c.price_feeds.get(collateral).is_some(),
        _ => true,
    }
}

pub open spec fn zero_amount() -> Amount {
    Amount { w0: 0, w1: 0, w2: 0, w3: 0 }
}

pub open spec fn trade(method: Method, contract: Address, args: CallArgs, amount_in: Amount, chained: bool, min_output: Amount) -> Step {
    Step { method, contract, args, amount_in, uses_prior_output: chained, min_output }
}

/// The strategy's own calls, before any funding. The opening swap trades
/// the subject's base asset for its other asset on the first router; round
/// trips swap back on the second router and must return at least the
/// capital spent. A liquidation repays the borrower's debt, seizes its
/// collateral, and sells the collateral back into the debt asset.
pub open spec fn planned_trades(o: Opportunity, c: StrategyConfig) -> Seq<Step> {
    let cap = o.required_capital;
    let a = base_asset(o.subject);
    let b = other_asset(o.subject);
    let opening = trade(
        Method::Swap,
        c.router,
        CallArgs::Swap { token_in: a, token_out: b },
        cap,
        false,
        zero_amount(),
    );
    let closing = trade(
        Method::Swap,
        c.alt_router,
        CallArgs::Swap { token_in: b, token_out: a },
        zero_amount(),
        true,
        cap,
    );
    match o.subject {
        Subject::TokenPair { .. } => seq![opening, closing],
        Subject::Borrower { account, collateral, .. } => seq![
            trade(
                Method::Liquidate,
                c.router,
                CallArgs::Liquidation { borrower: account, collateral },
                cap,
                false,
                zero_amount(),
            ),
            closing,
        ],
        Subject::PendingTransaction { .. } => if o.strategy_kind == StrategyKind::Sandwich {
            seq![opening, closing]
        } else {
            seq![opening]
        },
        Subject::PriceTarget { .. } => seq![opening],
    }
}

pub open spec fn ordering_for(kind: StrategyKind) -> OrderingConstraint {
    if kind.competitive() {
        OrderingConstraint::BeforeSubject
    } else {
        OrderingConstraint::Either
    }
}

pub open spec fn subject_tx_of(o: Opportunity) -> Option<TxHash> {
    match o.subject {
        Subject::PendingTransaction { hash, .. } => Some(hash),
        _ => None,
    }
}

/// Detection height plus the validity window, clamped to the largest height.
pub open spec fn deadline_for(o: Opportunity, c: StrategyConfig) -> u64 {
    if o.observed_at_block + c.validity_blocks > u64::MAX {
        u64::MAX
    } else {
        (o.observed_at_block + c.validity_blocks) as u64
    }
}

pub open spec fn funding_needed(o: Opportunity, c: StrategyConfig) -> bool {
    o.required_capital@ > c.own_balance@
}

pub open spec fn repay_fits(o: Opportunity, c: StrategyConfig) -> bool {
    repay_total(o.required_capital@, c.borrow_fee_bps as nat) <= amount_max()
}

/// The facility a funded plan for `o` borrows from.
pub open spec fn facility_for(o: Opportunity, c: StrategyConfig) -> Option<Address> {
    c.lending_pools.get(base_asset(o.subject))
}

/// The reason a candidate is rejected, checked in this order: staleness,
/// subject support, profitability, funding.
pub open spec fn rejection(o: Opportunity, c: StrategyConfig, current_height: u64) -> Option<RejectReason> {
    if is_stale(o, current_height, c.max_staleness) {
        Some(RejectReason::Stale)
    } else if !subject_supported(o, c) {
        Some(RejectReason::UnsupportedSubject)
    } else if !(o.expected_gross_gain@ > o.estimated_cost@) {
        Some(RejectReason::Unprofitable)
    } else if funding_needed(o, c) && facility_for(o, c).is_none() {
        Some(RejectReason::NoFundingFacility)
    } else if funding_needed(o, c) && !repay_fits(o, c) {
        Some(RejectReason::Overflow)
    } else {
        None
    }
}

/// What an accepted plan for `o` is.
pub open spec fn plan_matches(p: ExecutionPlan, o: Opportunity, c: StrategyConfig) -> bool {
    &&& p.strategy_kind == o.strategy_kind
    &&& p.ordering == ordering_for(o.strategy_kind)
    &&& p.deadline_block == deadline_for(o, c)
    &&& p.subject_tx == subject_tx_of(o)
    &&& p.expected_profit@ == o.expected_gross_gain@ - o.estimated_cost@
    &&& p.funding.is_some() == funding_needed(o, c)
    &&& !funding_needed(o, c) ==> p.steps@ == planned_trades(o, c)
    &&& funding_needed(o, c) ==> {
        let f = p.funding.unwrap();
        &&& f.pool == facility_for(o, c).unwrap()
        &&& f.amount == o.required_capital
        &&& f.repay_amount@ == repay_total(o.required_capital@, c.borrow_fee_bps as nat)
        &&& p.steps@ == seq![borrow_step(f.pool, base_asset(o.subject), f.amount)] + planned_trades(
            o,
            c,
        ) + seq![repay_step(f.pool, base_asset(o.subject), f.repay_amount)]
    }
    &&& p.wf()
}

fn trade_step(method: Method, contract: Address, args: CallArgs, amount_in: Amount, chained: bool, min_output: Amount) -> (r: Step)
    ensures
        r == trade(method, contract, args, amount_in, chained, min_output),
{
    Step { method, contract, args, amount_in, uses_prior_output: chained, min_output }
}

/// The strategy's own calls for `o`.
pub fn trade_steps(o: &Opportunity, c: &StrategyConfig) -> (r: Vec<Step>)
    ensures
        r@ == planned_trades(*o, *c),
{
    let cap = o.required_capital;
    let a = o.subject.base_asset();
    let b = o.subject.other_asset();
    let opening = trade_step(
        Method::Swap,
        c.router,
        CallArgs::Swap { token_in: a, token_out: b },
        cap,
        false,
        Amount::zero(),
    );
    let closing = trade_step(
        Method::Swap,
        c.alt_router,
        CallArgs::Swap { token_in: b, token_out: a },
        Amount::zero(),
        true,
        cap,
    );
    let mut v: Vec<Step> = Vec::new();
    match o.subject {
        Subject::TokenPair { .. } => {
            v.push(opening);
            v.push(closing);
        },
        Subject::Borrower { account, collateral, .. } => {
            v.push(
                trade_step(
                    Method::Liquidate,
                    c.router,
                    CallArgs::Liquidation { borrower: account, collateral },
                    cap,
                    false,
                    Amount::zero(),
                ),
            );
            v.push(closing);
        },
        Subject::PendingTransaction { .. } => {
            v.push(opening);
            if o.strategy_kind == StrategyKind::Sandwich {
                v.push(closing);
            }
        },
        Subject::PriceTarget { .. } => {
            v.push(opening);
        },
    }
    assert(v@ =~= planned_trades(*o, *c));
    v
}

fn subject_is_supported(o: &Opportunity, c: &StrategyConfig) -> (r: bool)
    ensures
        r == subject_supported(*o, *c),
{
    if !subject_fits(o.strategy_kind, &o.subject) {
        return false;
    }
    match o.subject {
        Subject::Borrower { collateral, .. } => c.get_chainlink_price_feed_address(collateral).is_some(),
        _ => true,
    }
}

/// Gas at the current fee, plus the borrowing fee, plus a slippage
/// allowance of `slippage_bps` basis points of the gain (rounded down).
pub open spec fn cost_estimate(gas_units: nat, fee_per_gas: nat, borrow_fee: nat, gain: nat, slippage_bps: nat) -> nat {
    gas_units * fee_per_gas + borrow_fee + bps_of(gain, slippage_bps)
}

/// The full cost of acting on a candidate; `None` where it exceeds 256
/// bits.
pub fn estimate_cost(gas_units: u64, fee_per_gas: u64, borrow_fee: &Amount, gain: &Amount, slippage_bps: u64) -> (r: Option<Amount>)
    ensures
        r.is_some() <==> cost_estimate(
            gas_units as nat,
            fee_per_gas as nat,
            borrow_fee@,
            gain@,
            slippage_bps as nat,
        ) <= amount_max(),
        r.is_some() ==> r.unwrap()@ == cost_estimate(
            gas_units as nat,
            fee_per_gas as nat,
            borrow_fee@,
            gain@,
            slippage_bps as nat,
        ),
{
    let units = Amount::from_u64(gas_units);
    let fee = Amount::from_u64(fee_per_gas);
    proof {
        let (u, f) = (gas_units as nat, fee_per_gas as nat);
        assert(u * f <= 18446744073709551615 * 18446744073709551615) by (nonlinear_arith)
            requires
                u <= 18446744073709551615,
                f <= 18446744073709551615,
        ;
        assert(18446744073709551615 * 18446744073709551615 <= amount_max());
    }
    let gas = units.checked_mul(&fee).unwrap();
    let allowance = match gain.mul_bps(slippage_bps) {
        Some(v) => v,
        None => return None,
    };
    match gas.checked_add(borrow_fee) {
        Some(fixed) => fixed.checked_add(&allowance),
        None => None,
    }
}

/// The borrowing fee a candidate incurs: the facility's fee on its capital
/// where the agent's own balance does not cover it, else zero.
pub open spec fn borrow_fee_of(o: Opportunity, c: StrategyConfig) -> nat {
    if funding_needed(o, c) {
        bps_of(o.required_capital@, c.borrow_fee_bps as nat)
    } else {
        0
    }
}

/// A new candidate, identical to `o` but for its estimated cost: gas at
/// the current fee market, the borrowing fee, and the configured slippage
/// allowance. `None` where the cost does not fit in 256 bits.
pub fn reprice(o: &Opportunity, c: &StrategyConfig, gas_units: u64, fee_per_gas: u64) -> (r: Option<Opportunity>)
    ensures
        r.is_some() <==> (!funding_needed(*o, *c) || bps_of(o.required_capital@, c.borrow_fee_bps as nat)
            <= amount_max()) && cost_estimate(
            gas_units as nat,
            fee_per_gas as nat,
            borrow_fee_of(*o, *c),
            o.expected_gross_gain@,
            c.slippage_bps as nat,
        ) <= amount_max(),
        r.is_some() ==> r.unwrap() == (Opportunity { estimated_cost: r.unwrap().estimated_cost, ..*o })
            && r.unwrap().estimated_cost@ == cost_estimate(
            gas_units as nat,
            fee_per_gas as nat,
            borrow_fee_of(*o, *c),
            o.expected_gross_gain@,
            c.slippage_bps as nat,
        ),
{
    let borrow_fee = if o.required_capital.gt(&c.own_balance) {
        match o.required_capital.mul_bps(c.borrow_fee_bps) {
            Some(v) => v,
            None => return None,
        }
    } else {
        Amount::zero()
    };
    match estimate_cost(gas_units, fee_per_gas, &borrow_fee, &o.expected_gross_gain, c.slippage_bps) {
        Some(cost) => Some(Opportunity { estimated_cost: cost, ..*o }),
        None => None,
    }
}

/// Accepts a candidate whose gain strictly exceeds its cost, unless it is
/// stale, its subject is unsupported, or the loan it needs cannot be had;
/// an accepted candidate comes back as its plan.
pub fn evaluate(o: &Opportunity, c: &StrategyConfig, current_height: u64) -> (r: Evaluation)
    ensures
        match rejection(*o, *c, current_height) {
            Some(reason) => r == Evaluation::Reject(reason),
            None => r is Accept && plan_matches(r->Accept_0, *o, *c),
        },
{
    if current_height > o.observed_at_block && current_height - o.observed_at_block > c.max_staleness {
        return Evaluation::Reject(RejectReason::Stale);
    }
    if !subject_is_supported(o, c) {
        return Evaluation::Reject(RejectReason::UnsupportedSubject);
    }
    if !o.expected_gross_gain.gt(&o.estimated_cost) {
        return Evaluation::Reject(RejectReason::Unprofitable);
    }
    let trades = trade_steps(o, c);
    assert forall|i: int| 0 <= i < trades@.len() implies !is_funding_method(
        #[trigger] trades@[i].method,
    ) by {}
    let (steps, funding) = match provide_capital(trades, c, o.subject.base_asset(), &o.required_capital) {
        Ok(pair) => pair,
        Err(CapitalError::NoFacility) => return Evaluation::Reject(RejectReason::NoFundingFacility),
        Err(CapitalError::Overflow) => return Evaluation::Reject(RejectReason::Overflow),
    };
    let ordering = if o.strategy_kind.is_competitive() {
        OrderingConstraint::BeforeSubject
    } else {
        OrderingConstraint::Either
    };
    let subject_tx = match o.subject {
        Subject::PendingTransaction { hash, .. } => Some(hash),
        _ => None,
    };
    let deadline_block = if o.observed_at_block > u64::MAX - c.validity_blocks {
        u64::MAX
    } else {
        o.observed_at_block + c.validity_blocks
    };
    Evaluation::Accept(
        ExecutionPlan {
            strategy_kind: o.strategy_kind,
            steps,
            funding,
            ordering,
            deadline_block,
            expected_profit: o.expected_gross_gain.saturating_sub(&o.estimated_cost),
            subject_tx,
        },
    )
}

/// The evaluator accepts only candidates whose expected gain strictly
/// exceeds their estimated cost; and a fresh candidate with a supported
/// subject, whose loan (if it needs one) can be had, is accepted exactly
/// when it does.
pub proof fn lemma_accept_iff_profitable(o: Opportunity, c: StrategyConfig, current_height: u64)
    ensures
        rejection(o, c, current_height).is_none() ==> o.expected_gross_gain@ > o.estimated_cost@,
        !is_stale(o, current_height, c.max_staleness) && subject_supported(o, c) && (!funding_needed(
            o,
            c,
        ) || (facility_for(o, c).is_some() && repay_fits(o, c))) ==> (rejection(
            o,
            c,
            current_height,
        ).is_none() <==> o.expected_gross_gain@ > o.estimated_cost@),
{
}

/// What an accepted plan calls. A funded plan borrows the subject's base
/// asset in the no-debt mode as its first step and repays that same asset
/// as its last. The first trade liquidates the subject borrower's
/// collateral, or otherwise swaps along `[base asset, other asset]`,
/// spending the candidate's capital; a sandwich's second trade swaps back
/// along `[other asset, base asset]`, spending what the first produced.
pub proof fn lemma_plan_calls(o: Opportunity, c: StrategyConfig, p: ExecutionPlan)
    requires
        plan_matches(p, o, c),
    ensures
        ({
            let k: int = if p.funding.is_some() {
                1
            } else {
                0
            };
            let first = p.steps@[k];
            &&& p.funding.is_some() ==> p.steps@[0].args == (CallArgs::Loan {
                asset: base_asset(o.subject),
                mode: NO_DEBT_MODE,
            }) && p.steps@.last().args == (CallArgs::Loan {
                asset: base_asset(o.subject),
                mode: NO_DEBT_MODE,
            }) && p.steps@[0].amount_in == o.required_capital
            &&& first.amount_in == o.required_capital
            &&& match o.subject {
                Subject::Borrower { account, collateral, .. } => first.method == Method::Liquidate
                    && first.args == (CallArgs::Liquidation { borrower: account, collateral }),
                _ => first.method == Method::Swap && first.args == (CallArgs::Swap {
                    token_in: base_asset(o.subject),
                    token_out: other_asset(o.subject),
                }),
            }
            &&& o.strategy_kind == StrategyKind::Sandwich && o.subject is PendingTransaction ==> {
                let back = p.steps@[k + 1];
                &&& back.method == Method::Swap
                &&& back.args == (CallArgs::Swap {
                    token_in: other_asset(o.subject),
                    token_out: base_asset(o.subject),
                })
                &&& back.uses_prior_output
            }
        }),
{
    let t = planned_trades(o, c);
    assert(t.len() >= 1);
    if p.funding.is_some() {
        let f = p.funding.unwrap();
        let s = seq![borrow_step(f.pool, base_asset(o.subject), f.amount)] + t + seq![
            repay_step(f.pool, base_asset(o.subject), f.repay_amount),
        ];
        assert(p.steps@ == s);
        assert(s[1] == t[0]);
        assert(s.last() == repay_step(f.pool, base_asset(o.subject), f.repay_amount));
        if o.strategy_kind == StrategyKind::Sandwich && o.subject is PendingTransaction {
            assert(s[2] == t[1]);
        }
    }
}

} // verus!
