//! The capital provider: brackets a plan's trades with a flash borrow and
//! its repayment when the agent's own balance does not cover them.
use vstd::prelude::*;
use crate::amount::{Amount, amount_max, bps_of};
use crate::config::StrategyConfig;
use crate::opportunity::Address;
use crate::plan::{CallArgs, Funding, Method, NO_DEBT_MODE, Step, funding_sound, is_funding_method};

verus! {

/// The loan plus a fee of `bps` basis points, the fee rounded down.
pub open spec fn repay_total(amount: nat, bps: nat) -> nat {
    amount + bps_of(amount, bps)
}

/// Borrowing `amount` of `asset` from `pool`, to be repaid in the same
/// transaction.
pub open spec fn borrow_step(pool: Address, asset: Address, amount: Amount) -> Step {
    Step {
        method: Method::FlashBorrow,
        contract: pool,
        args: CallArgs::Loan { asset, mode: NO_DEBT_MODE },
        amount_in: amount,
        uses_prior_output: false,
        min_output: amount,
    }
}

/// Paying back `repay` of `asset` to `pool`.
pub open spec fn repay_step(pool: Address, asset: Address, repay: Amount) -> Step {
    Step {
        method: Method::Repay,
        contract: pool,
        args: CallArgs::Loan { asset, mode: NO_DEBT_MODE },
        amount_in: repay,
        uses_prior_output: false,
        min_output: Amount { w0: 0, w1: 0, w2: 0, w3: 0 },
    }
}

/// Why capital could not be provided.
#[derive(Clone, Copy, Debug, PartialEq, Eq, Structural, Hash)]
pub enum CapitalError {
    /// The plan needs a loan and no flash-borrow facility is configured
    /// for its asset.
    NoFacility,
    /// The repayment does not fit in 256 bits.
    Overflow,
}

/// What a flash loan of `amount` costs to pay back: the loan plus a fee of
/// `fee_bps` basis points, rounded down; `None` where that exceeds 256 bits.
pub fn repay_flash_loan(amount: &Amount, fee_bps: u64) -> (r: Option<Amount>)
    ensures
        r.is_some() <==> repay_total(amount@, fee_bps as nat) <= amount_max(),
        r.is_some() ==> r.unwrap()@ == repay_total(amount@, fee_bps as nat),
{
    match amount.mul_bps(fee_bps) {
        Some(fee) => amount.checked_add(&fee),
        None => None,
    }
}

/// Whether the plan needs more than the agent holds.
pub fn needs_funding(required: &Amount, own_balance: &Amount) -> (r: bool)
    ensures
        r == (required@ > own_balance@),
{
    required.gt(own_balance)
}

/// Puts a borrow of `amount` of `asset` from `pool` before `trades` and
/// its repayment after them, in one sequence.
pub fn attach_funding(trades: Vec<Step>, pool: Address, asset: Address, amount: Amount, fee_bps: u64) -> (r: Option<
    (Vec<Step>, Funding),
>)
    requires
        forall|i: int| 0 <= i < trades@.len() ==> !is_funding_method(#[trigger] trades@[i].method),
    ensures
        r.is_some() <==> repay_total(amount@, fee_bps as nat) <= amount_max(),
        r.is_some() ==> {
            let (steps, f) = r.unwrap();
            &&& f.pool == pool
            &&& f.amount == amount
            &&& f.repay_amount@ == repay_total(amount@, fee_bps as nat)
            &&& steps@ == seq![borrow_step(pool, asset, amount)] + trades@ + seq![
                repay_step(pool, asset, f.repay_amount),
            ]
            &&& funding_sound(steps@, true)
        },
{
    let repay = match repay_flash_loan(&amount, fee_bps) {
        Some(v) => v,
        None => return None,
    };
    let mut steps: Vec<Step> = Vec::new();
    steps.push(
        Step {
            method: Method::FlashBorrow,
            contract: pool,
            args: CallArgs::Loan { asset, mode: NO_DEBT_MODE },
            amount_in: amount,
            uses_prior_output: false,
            min_output: amount,
        },
    );
    let mut i: usize = 0;
    while i < trades.len()
        invariant
            i <= trades@.len(),
            steps@ == seq![borrow_step(pool, asset, amount)] + trades@.subrange(0, i as int),
        decreases trades@.len() - i,
    {
        steps.push(trades[i]);
        i += 1;
        assert(steps@ =~= seq![borrow_step(pool, asset, amount)] + trades@.subrange(0, i as int));
    }
    steps.push(
        Step {
            method: Method::Repay,
            contract: pool,
            args: CallArgs::Loan { asset, mode: NO_DEBT_MODE },
            amount_in: repay,
            uses_prior_output: false,
            min_output: Amount::zero(),
        },
    );
    assert(trades@.subrange(0, trades@.len() as int) =~= trades@);
    let ghost s = steps@;
    assert(s =~= seq![borrow_step(pool, asset, amount)] + trades@ + seq![repay_step(pool, asset, repay)]);
    assert forall|k: int| 0 < k < s.len() - 1 implies !is_funding_method(#[trigger] s[k].method) by {
        assert(s[k] == trades@[k - 1]);
    }
    Some((steps, Funding { pool, amount, repay_amount: repay }))
}

/// Funds `trades` with a flash loan of `asset` from that asset's facility
/// when `required` exceeds the agent's own balance, and leaves them as they
/// are otherwise.
pub fn provide_capital(trades: Vec<Step>, config: &StrategyConfig, asset: Address, required: &Amount) -> (r: Result<
    (Vec<Step>, Option<Funding>),
    CapitalError,
>)
    requires
        forall|i: int| 0 <= i < trades@.len() ==> !is_funding_method(#[trigger] trades@[i].method),
    ensures
        !(required@ > config.own_balance@) ==> r.is_ok() && r.unwrap().0@ == trades@
            && r.unwrap().1.is_none(),
        required@ > config.own_balance@ && config.lending_pools.get(asset).is_none() ==> r == Err::<
            (Vec<Step>, Option<Funding>),
            CapitalError,
        >(CapitalError::NoFacility),
        required@ > config.own_balance@ && config.lending_pools.get(asset).is_some() ==> {
            let pool = config.lending_pools.get(asset).unwrap();
            let fits = repay_total(required@, config.borrow_fee_bps as nat) <= amount_max();
            &&& fits ==> r.is_ok() && r.unwrap().1 == Some(
                Funding {
                    pool,
                    amount: *required,
                    repay_amount: r.unwrap().1.unwrap().repay_amount,
                },
            ) && r.unwrap().1.unwrap().repay_amount@ == repay_total(
                required@,
                config.borrow_fee_bps as nat,
            ) && r.unwrap().0@ == seq![borrow_step(pool, asset, *required)] + trades@ + seq![
                repay_step(pool, asset, r.unwrap().1.unwrap().repay_amount),
            ]
            &&& !fits ==> r == Err::<(Vec<Step>, Option<Funding>), CapitalError>(
                CapitalError::Overflow,
            )
        },
        r.is_ok() ==> funding_sound(r.unwrap().0@, r.unwrap().1.is_some()),
{
    if !needs_funding(required, &config.own_balance) {
        return Ok((trades, None));
    }
    match config.lending_pools.lookup(asset) {
        None => Err(CapitalError::NoFacility),
        Some(pool) => match attach_funding(trades, pool, asset, *required, config.borrow_fee_bps) {
            Some((steps, funding)) => Ok((steps, Some(funding))),
            None => Err(CapitalError::Overflow),
        },
    }
}

} // verus!
