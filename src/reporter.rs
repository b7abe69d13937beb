//! The outcome reporter: status labels for terminal results and the
//! cumulative profit counter, mutated only here.
use vstd::prelude::*;
use crate::amount::{Amount, sat_add, sat_sub};
use crate::execution::{Outcome, OutcomeRecord};

verus! {

pub open spec fn outcome_label(o: Outcome) -> Seq<char> {
    match o {
        Outcome::ConfirmedSuccess => "confirmed-success"@,
        Outcome::ConfirmedReverted => "confirmed-reverted"@,
        Outcome::Expired => "expired"@,
        Outcome::Abandoned => "abandoned"@,
        Outcome::RetriesExceeded => "retries-exceeded"@,
    }
}

/// The status string that collaborators display for an outcome.
pub fn status_label(o: Outcome) -> (r: &'static str)
    ensures
        r@ == outcome_label(o),
{
    match o {
        Outcome::ConfirmedSuccess => "confirmed-success",
        Outcome::ConfirmedReverted => "confirmed-reverted",
        Outcome::Expired => "expired",
        Outcome::Abandoned => "abandoned",
        Outcome::RetriesExceeded => "retries-exceeded",
    }
}

/// Cumulative realized profit and loss over all reported plans.
#[derive(Clone, Copy, Debug, PartialEq, Eq, Structural, Hash)]
pub struct ProfitCounter {
    pub total_profit: Amount,
    pub total_loss: Amount,
    /// Terminal outcomes recorded, clamped at the largest value.
    pub reported: u64,
}

impl ProfitCounter {
    pub fn new() -> (r: ProfitCounter)
        ensures
            r.total_profit@ == 0,
            r.total_loss@ == 0,
            r.reported == 0,
    {
        ProfitCounter { total_profit: Amount::zero(), total_loss: Amount::zero(), reported: 0 }
    }

    /// Adds one terminal outcome's realized profit or loss; totals clamp at
    /// the largest amount.
    pub fn record(&mut self, rec: &OutcomeRecord)
        ensures
            final(self).total_profit@ == sat_add(
                old(self).total_profit@,
                sat_sub(rec.proceeds@, rec.gas_cost@),
            ),
            final(self).total_loss@ == sat_add(
                old(self).total_loss@,
                sat_sub(rec.gas_cost@, rec.proceeds@),
            ),
            final(self).reported == if old(self).reported == u64::MAX {
                u64::MAX
            } else {
                (old(self).reported + 1) as u64
            },
    {
        let profit = rec.realized_profit();
        let loss = rec.realized_loss();
        self.total_profit = self.total_profit.saturating_add(&profit);
        self.total_loss = self.total_loss.saturating_add(&loss);
        if self.reported < u64::MAX {
            self.reported = self.reported + 1;
        }
    }
}

} // verus!
