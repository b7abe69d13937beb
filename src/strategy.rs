//! Strategy-specific detection: the figures each scanner computes from what
//! it read and the filters that decide whether a reading is a candidate.
use vstd::prelude::*;
use vstd::arithmetic::div_mod::{lemma_div_is_ordered, lemma_div_multiples_vanish};
use crate::amount::{Amount, amount_max, bps_of, sat_sub, lemma_amount_bounded};
use crate::opportunity::{Address, Opportunity, StrategyKind, Subject, TxHash};

verus! {

/// A health factor below one (in 18-decimal fixed point) marks a borrower
/// that can be liquidated.
pub const HEALTH_FACTOR_ONE: u64 = 1_000_000_000_000_000_000;

/// `v` less a slippage of `bps` basis points, rounded down.
pub open spec fn after_slippage(v: nat, bps: nat) -> nat {
    bps_of(v, (10000 - bps) as nat)
}

/// Capital worth borrowing for an expected profit: the profit after
/// slippage, less the gas fee, clamped at zero.
pub open spec fn dynamic_loan(profit: nat, gas: nat, bps: nat) -> nat {
    sat_sub(after_slippage(profit, bps), gas)
}

/// Profit left from moving ahead of a transaction of value `v`: the value
/// less a one percent slippage, less the gas limit, clamped at zero.
pub open spec fn potential_profit(v: nat, gas: nat) -> nat {
    sat_sub((v - v / 100) as nat, gas)
}

/// The loan a sandwich takes: the dynamic loan for the victim's value, and
/// never less than `min_profit`.
pub open spec fn sandwich_loan(value: nat, gas: nat, bps: nat, min_profit: nat) -> nat {
    if dynamic_loan(value, gas, bps) >= min_profit {
        dynamic_loan(value, gas, bps)
    } else {
        min_profit
    }
}

/// A candidate is worth acting on when its gain strictly exceeds its fees.
pub fn is_profitable(profit: &Amount, gas_fees: &Amount) -> (r: bool)
    ensures
        r == (profit@ > gas_fees@),
{
    profit.gt(gas_fees)
}

/// `v` after a slippage of `bps` basis points; never more than `v`.
fn apply_slippage(v: &Amount, bps: u64) -> (r: Amount)
    requires
        bps <= 10000,
    ensures
        r@ == after_slippage(v@, bps as nat),
{
    proof {
        let (x, k) = (v@ as int, (10000 - bps) as int);
        assert(x * k <= x * 10000) by (nonlinear_arith)
            requires
                0 <= x,
                k <= 10000,
        ;
        lemma_div_is_ordered(x * k, x * 10000, 10000);
        lemma_div_multiples_vanish(x, 10000);
        assert(x * 10000 == 10000 * x) by (nonlinear_arith);
        lemma_amount_bounded(*v);
    }
    v.mul_bps(10000 - bps).unwrap()
}

/// Borrowed amount for a flash-borrow or latency-sensitive trade: the
/// expected profit after `slippage_bps` of slippage, less the gas fee,
/// never below zero.
pub fn calculate_dynamic_loan_amount(expected_profit: &Amount, gas_fee: &Amount, slippage_bps: u64) -> (r: Amount)
    requires
        slippage_bps <= 10000,
    ensures
        r@ == dynamic_loan(expected_profit@, gas_fee@, slippage_bps as nat),
{
    apply_slippage(expected_profit, slippage_bps).saturating_sub(gas_fee)
}



/// Profit potential of front-running a transaction of the given value.
pub fn calculate_potential_profit(transaction_value: &Amount, gas_fee_limit: &Amount) -> (r: Amount)
    ensures
        r@ == potential_profit(transaction_value@, gas_fee_limit@),
{
    let slip = transaction_value.checked_div(&Amount::from_u64(100)).unwrap();
    let kept = transaction_value.saturating_sub(&slip);
    kept.saturating_sub(gas_fee_limit)
}

/// A pending transaction is large enough to sandwich when its value
/// reaches the configured minimum.
pub fn is_large_transaction(value: &Amount, min_tx_value: &Amount) -> (r: bool)
    ensures
        r == (value@ >= min_tx_value@),
{
    !min_tx_value.gt(value)
}

/// A latency-sensitive trade is due once the price falls strictly below
/// the target.
pub fn should_trade(current_price: &Amount, target_price: &Amount) -> (r: bool)
    ensures
        r == (current_price@ < target_price@),
{
    target_price.gt(current_price)
}

/// A borrower is close to liquidation when its health factor is below one
/// or its account liquidity is gone.
pub fn is_near_liquidation(health_factor: &Amount, liquidity: &Amount) -> (r: bool)
    ensures
        r == (health_factor@ < HEALTH_FACTOR_ONE as nat || liquidity@ == 0),
{
    Amount::from_u64(HEALTH_FACTOR_ONE).gt(health_factor) || liquidity.is_zero()
}

/// Profit from liquidating: the value of the seized collateral less the
/// debt covered, clamped at zero; `None` where the value overflows.
pub fn calculate_liquidation_profit(collateral_price: &Amount, debt_covered: &Amount) -> (r: Option<
    Amount,
>)
    ensures
        r.is_some() <==> collateral_price@ * debt_covered@ <= amount_max(),
        r.is_some() ==> r.unwrap()@ == sat_sub(collateral_price@ * debt_covered@, debt_covered@),
{
    match collateral_price.checked_mul(debt_covered) {
        Some(seized) => Some(seized.saturating_sub(debt_covered)),
        None => None,
    }
}

/// Cross-venue arbitrage: a candidate exists when the first venue quotes
/// strictly higher than the second and the spread strictly exceeds the gas
/// fees. The spread is both its gain and the amount the round trip trades.
pub fn check_arbitrage_opportunity(
    token_in: Address,
    token_out: Address,
    price_venue_a: &Amount,
    price_venue_b: &Amount,
    gas_fees: &Amount,
    height: u64,
) -> (r: Option<Opportunity>)
    ensures
        r.is_some() <==> price_venue_a@ > price_venue_b@ && price_venue_a@ - price_venue_b@ > gas_fees@,
        r.is_some() ==> {
            let o = r.unwrap();
            &&& o.wf()
            &&& o.strategy_kind == StrategyKind::CrossVenueArbitrage
            &&& o.subject == (Subject::TokenPair { token_in, token_out })
            &&& o.observed_at_block == height
            &&& o.expected_gross_gain@ == price_venue_a@ - price_venue_b@
            &&& o.estimated_cost == *gas_fees
            &&& o.required_capital@ == price_venue_a@ - price_venue_b@
        },
{
    if price_venue_a.gt(price_venue_b) {
        let spread = price_venue_a.saturating_sub(price_venue_b);
        if is_profitable(&spread, gas_fees) {
            return Some(
                Opportunity {
                    strategy_kind: StrategyKind::CrossVenueArbitrage,
                    subject: Subject::TokenPair { token_in, token_out },
                    observed_at_block: height,
                    expected_gross_gain: spread,
                    estimated_cost: *gas_fees,
                    required_capital: spread,
                },
            );
        }
    }
    None
}

/// Flash-borrow arbitrage of `asset` through `counter`: a candidate exists
/// when the pool holds strictly more than `min_liquidity` and the loan
/// worth taking strictly exceeds the gas fee. The loan is the capital the
/// plan borrows.
pub fn flashloan_candidate(
    asset: Address,
    counter: Address,
    available_liquidity: &Amount,
    min_liquidity: &Amount,
    expected_profit: &Amount,
    gas_fee: &Amount,
    slippage_bps: u64,
    height: u64,
) -> (r: Option<Opportunity>)
    requires
        slippage_bps <= 10000,
    ensures
        r.is_some() <==> available_liquidity@ > min_liquidity@ && dynamic_loan(
            expected_profit@,
            gas_fee@,
            slippage_bps as nat,
        ) > gas_fee@,
        r.is_some() ==> {
            let o = r.unwrap();
            &&& o.wf()
            &&& o.strategy_kind == StrategyKind::FlashBorrowArbitrage
            &&& o.subject == (Subject::TokenPair { token_in: asset, token_out: counter })
            &&& o.observed_at_block == height
            &&& o.expected_gross_gain == *expected_profit
            &&& o.estimated_cost == *gas_fee
            &&& o.required_capital@ == dynamic_loan(expected_profit@, gas_fee@, slippage_bps as nat)
        },
{
    if !available_liquidity.gt(min_liquidity) {
        return None;
    }
    let loan = calculate_dynamic_loan_amount(expected_profit, gas_fee, slippage_bps);
    if is_profitable(&loan, gas_fee) {
        Some(
            Opportunity {
                strategy_kind: StrategyKind::FlashBorrowArbitrage,
                subject: Subject::TokenPair { token_in: asset, token_out: counter },
                observed_at_block: height,
                expected_gross_gain: *expected_profit,
                estimated_cost: *gas_fee,
                required_capital: loan,
            },
        )
    } else {
        None
    }
}

/// Front-running: a pending transaction trading `token_in` for `token_out`
/// is a candidate when its value strictly exceeds the threshold and the
/// profit potential strictly exceeds the gas limit. The trade spends the
/// victim's value.
pub fn frontrun_candidate(
    hash: TxHash,
    value: &Amount,
    token_in: Address,
    token_out: Address,
    threshold: &Amount,
    gas_fee_limit: &Amount,
    height: u64,
) -> (r: Option<Opportunity>)
    ensures
        r.is_some() <==> value@ > threshold@ && potential_profit(value@, gas_fee_limit@)
            > gas_fee_limit@,
        r.is_some() ==> {
            let o = r.unwrap();
            &&& o.wf()
            &&& o.strategy_kind == StrategyKind::FrontRunning
            &&& o.subject == (Subject::PendingTransaction { hash, value: *value, token_in, token_out })
            &&& o.observed_at_block == height
            &&& o.expected_gross_gain@ == potential_profit(value@, gas_fee_limit@)
            &&& o.estimated_cost == *gas_fee_limit
            &&& o.required_capital == *value
        },
{
    if !value.gt(threshold) {
        return None;
    }
    let profit = calculate_potential_profit(value, gas_fee_limit);
    if is_profitable(&profit, gas_fee_limit) {
        Some(
            Opportunity {
                strategy_kind: StrategyKind::FrontRunning,
                subject: Subject::PendingTransaction { hash, value: *value, token_in, token_out },
                observed_at_block: height,
                expected_gross_gain: profit,
                estimated_cost: *gas_fee_limit,
                required_capital: *value,
            },
        )
    } else {
        None
    }
}

/// Sandwiching: a pending transaction trading `token_in` for `token_out`
/// is a candidate when it is large enough and the expected profit strictly
/// exceeds the loan plus gas.
pub fn sandwich_candidate(
    hash: TxHash,
    value: &Amount,
    token_in: Address,
    token_out: Address,
    min_tx_value: &Amount,
    gas_fee: &Amount,
    slippage_bps: u64,
    min_profit: &Amount,
    expected_profit: &Amount,
    height: u64,
) -> (r: Option<Opportunity>)
    requires
        slippage_bps <= 10000,
    ensures
        ({
            let borrowed = sandwich_loan(value@, gas_fee@, slippage_bps as nat, min_profit@);
            &&& r.is_some() <==> value@ >= min_tx_value@ && expected_profit@ > borrowed + gas_fee@
            &&& r.is_some() ==> {
                let o = r.unwrap();
                &&& o.wf()
                &&& o.strategy_kind == StrategyKind::Sandwich
                &&& o.subject == (Subject::PendingTransaction { hash, value: *value, token_in, token_out })
                &&& o.observed_at_block == height
                &&& o.expected_gross_gain == *expected_profit
                &&& o.estimated_cost == *gas_fee
                &&& o.required_capital@ == borrowed
            }
        }),
{
    if !is_large_transaction(value, min_tx_value) {
        return None;
    }
    let loan = crate::sandwich::calculate_dynamic_loan_amount(value, gas_fee, slippage_bps, min_profit);
    if crate::sandwich::is_profitable(&loan, gas_fee, expected_profit) {
        Some(
            Opportunity {
                strategy_kind: StrategyKind::Sandwich,
                subject: Subject::PendingTransaction { hash, value: *value, token_in, token_out },
                observed_at_block: height,
                expected_gross_gain: *expected_profit,
                estimated_cost: *gas_fee,
                required_capital: loan,
            },
        )
    } else {
        None
    }
}

/// Collateral liquidation: a borrower is a candidate when it is near
/// liquidation; the gain is the liquidation profit and the plan covers
/// the debt, which is in `debt_asset`.
pub fn liquidation_candidate(
    borrower: Address,
    collateral: Address,
    debt_asset: Address,
    health_factor: &Amount,
    liquidity: &Amount,
    collateral_price: &Amount,
    debt_covered: &Amount,
    gas_fee: &Amount,
    height: u64,
) -> (r: Option<Opportunity>)
    ensures
        r.is_some() <==> (health_factor@ < HEALTH_FACTOR_ONE as nat || liquidity@ == 0)
            && collateral_price@ * debt_covered@ <= amount_max(),
        r.is_some() ==> {
            let o = r.unwrap();
            &&& o.wf()
            &&& o.strategy_kind == StrategyKind::Liquidation
            &&& o.subject == (Subject::Borrower { account: borrower, collateral, debt_asset })
            &&& o.observed_at_block == height
            &&& o.expected_gross_gain@ == sat_sub(
                collateral_price@ * debt_covered@,
                debt_covered@,
            )
            &&& o.estimated_cost == *gas_fee
            &&& o.required_capital == *debt_covered
        },
{
    if !is_near_liquidation(health_factor, liquidity) {
        return None;
    }
    match calculate_liquidation_profit(collateral_price, debt_covered) {
        Some(profit) => Some(
            Opportunity {
                strategy_kind: StrategyKind::Liquidation,
                subject: Subject::Borrower { account: borrower, collateral, debt_asset },
                observed_at_block: height,
                expected_gross_gain: profit,
                estimated_cost: *gas_fee,
                required_capital: *debt_covered,
            },
        ),
        None => None,
    }
}

/// Latency-sensitive trading: a candidate exists once the price of `asset`
/// in `quote` falls strictly below the target; it borrows the loan worth
/// taking for the expected profit.
pub fn latency_candidate(
    asset: Address,
    quote: Address,
    current_price: &Amount,
    target_price: &Amount,
    expected_profit: &Amount,
    gas_fee: &Amount,
    slippage_bps: u64,
    height: u64,
) -> (r: Option<Opportunity>)
    requires
        slippage_bps <= 10000,
    ensures
        r.is_some() <==> current_price@ < target_price@,
        r.is_some() ==> {
            let o = r.unwrap();
            &&& o.wf()
            &&& o.strategy_kind == StrategyKind::LatencySensitive
            &&& o.subject == (Subject::PriceTarget { asset, quote, target_price: *target_price })
            &&& o.observed_at_block == height
            &&& o.expected_gross_gain == *expected_profit
            &&& o.estimated_cost == *gas_fee
            &&& o.required_capital@ == dynamic_loan(expected_profit@, gas_fee@, slippage_bps as nat)
        },
{
    if !should_trade(current_price, target_price) {
        return None;
    }
    let loan = calculate_dynamic_loan_amount(expected_profit, gas_fee, slippage_bps);
    Some(
        Opportunity {
            strategy_kind: StrategyKind::LatencySensitive,
            subject: Subject::PriceTarget { asset, quote, target_price: *target_price },
            observed_at_block: height,
            expected_gross_gain: *expected_profit,
            estimated_cost: *gas_fee,
            required_capital: loan,
        },
    )
}

} // verus!
