//! Sandwiching's own figures: how much to borrow around a victim's trade
//! and whether the sandwich pays off.
use vstd::prelude::*;
use crate::amount::{Amount, lemma_amount_bounded};
use crate::strategy::sandwich_loan;

verus! {

/// Borrowed amount for a sandwich: the victim's input after slippage, less
/// the gas fee, and never below `min_profit`.
pub fn calculate_dynamic_loan_amount(
    amount_in: &Amount,
    gas_fee: &Amount,
    slippage_bps: u64,
    min_profit: &Amount,
) -> (r: Amount)
    requires
        slippage_bps <= 10000,
    ensures
        r@ == sandwich_loan(amount_in@, gas_fee@, slippage_bps as nat, min_profit@),
{
    let loan = crate::strategy::calculate_dynamic_loan_amount(amount_in, gas_fee, slippage_bps);
    if min_profit.gt(&loan) {
        *min_profit
    } else {
        loan
    }
}

/// A sandwich pays off when the expected profit strictly exceeds the
/// borrowed amount plus the gas fee.
pub fn is_profitable(flashloan_amount: &Amount, gas_fee: &Amount, expected_profit: &Amount) -> (r:
    bool)
    ensures
        r == (expected_profit@ > flashloan_amount@ + gas_fee@),
{
    proof {
        lemma_amount_bounded(*expected_profit);
    }
    let outlay = flashloan_amount.saturating_add(gas_fee);
    expected_profit.gt(&outlay)
}

} // verus!
