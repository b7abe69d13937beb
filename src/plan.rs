//! Execution plans: ordered, all-or-nothing sequences of on-chain calls.
use vstd::prelude::*;
use crate::amount::Amount;
use crate::opportunity::{Address, StrategyKind, TxHash};

verus! {

/// The contract call a step makes.
#[derive(Clone, Copy, Debug, PartialEq, Eq, Structural, Hash)]
pub enum Method {
    /// Take a flash loan from a lending pool.
    FlashBorrow,
    /// Swap tokens on a router.
    Swap,
    /// Repay a borrower's debt and seize its collateral.
    Liquidate,
    /// Return a flash loan with its fee.
    Repay,
}

/// Flash-loan mode in which the loan is repaid within the same
/// transaction, opening no debt.
pub const NO_DEBT_MODE: u8 = 0;

/// The arguments of a step's call, besides its amounts.
#[derive(Clone, Copy, Debug, PartialEq, Eq, Structural, Hash)]
pub enum CallArgs {
    /// Swap along the path `[token_in, token_out]`.
    Swap { token_in: Address, token_out: Address },
    /// Borrow or repay `asset` in the given flash-loan mode.
    Loan { asset: Address, mode: u8 },
    /// Repay `borrower`'s debt and seize its `collateral`.
    Liquidation { borrower: Address, collateral: Address },
}

/// One call of a plan.
#[derive(Clone, Copy, Debug, PartialEq, Eq, Structural, Hash)]
pub struct Step {
    pub method: Method,
    pub contract: Address,
    pub args: CallArgs,
    /// Amount the call spends; ignored where `uses_prior_output` is set.
    pub amount_in: Amount,
    /// The call spends what the previous step produced.
    pub uses_prior_output: bool,
    /// The call reverts the whole plan if it produces less.
    pub min_output: Amount,
}

/// Where a plan must land relative to the subject transaction.
#[derive(Clone, Copy, Debug, PartialEq, Eq, Structural, Hash)]
pub enum OrderingConstraint {
    BeforeSubject,
    AfterSubject,
    Either,
}

/// The borrowed capital of a plan and what must be paid back.
#[derive(Clone, Copy, Debug, PartialEq, Eq, Structural, Hash)]
pub struct Funding {
    pub pool: Address,
    pub amount: Amount,
    pub repay_amount: Amount,
}

/// An accepted opportunity turned into one atomic submission.
#[derive(Clone, Debug)]
pub struct ExecutionPlan {
    pub strategy_kind: StrategyKind,
    pub steps: Vec<Step>,
    pub funding: Option<Funding>,
    pub ordering: OrderingConstraint,
    /// Last chain height at which submitting still makes sense.
    pub deadline_block: u64,
    /// Expected gain less estimated cost.
    pub expected_profit: Amount,
    /// The third-party transaction the plan must be ordered against.
    pub subject_tx: Option<TxHash>,
}

pub open spec fn is_funding_method(m: Method) -> bool {
    m == Method::FlashBorrow || m == Method::Repay
}

/// Borrowing appears only as the first step and repaying only as the last,
/// both present exactly when the plan is funded.
pub open spec fn funding_sound(steps: Seq<Step>, funded: bool) -> bool {
    if funded {
        &&& steps.len() >= 2
        &&& steps[0].method == Method::FlashBorrow
        &&& steps[steps.len() - 1].method == Method::Repay
        &&& forall|i: int| 0 < i < steps.len() - 1 ==> !is_funding_method(#[trigger] steps[i].method)
    } else {
        forall|i: int| 0 <= i < steps.len() ==> !is_funding_method(#[trigger] steps[i].method)
    }
}

/// Number of steps of `steps` that call `m`.
pub open spec fn count_method(steps: Seq<Step>, m: Method) -> nat
    decreases steps.len(),
{
    if steps.len() == 0 {
        0
    } else {
        count_method(steps.drop_last(), m) + if steps.last().method == m {
            1nat
        } else {
            0nat
        }
    }
}

proof fn lemma_count_absent(steps: Seq<Step>, m: Method)
    requires
        forall|i: int| 0 <= i < steps.len() ==> #[trigger] steps[i].method != m,
    ensures
        count_method(steps, m) == 0,
    decreases steps.len(),
{
    if steps.len() > 0 {
        let init = steps.drop_last();
        assert forall|i: int| 0 <= i < init.len() implies #[trigger] init[i].method != m by {
            assert(init[i] == steps[i]);
        }
        lemma_count_absent(init, m);
    }
}

impl ExecutionPlan {
    pub open spec fn wf(&self) -> bool {
        funding_sound(self.steps@, self.funding.is_some())
    }
}

/// A funded plan holds exactly one borrow step and exactly one repay step;
/// nothing comes before the borrow and nothing after the repay.
pub proof fn lemma_funded_plan_brackets(plan: ExecutionPlan)
    requires
        plan.wf(),
        plan.funding.is_some(),
    ensures
        count_method(plan.steps@, Method::FlashBorrow) == 1,
        count_method(plan.steps@, Method::Repay) == 1,
        plan.steps@[0].method == Method::FlashBorrow,
        plan.steps@.last().method == Method::Repay,
{
    let s = plan.steps@;
    let n = s.len();
    let init = s.drop_last();
    let middle = init.drop_first();
    assert forall|i: int| 0 <= i < middle.len() implies !is_funding_method(#[trigger] middle[i].method) by {
        assert(middle[i] == s[i + 1]);
    }
    lemma_count_absent(middle, Method::FlashBorrow);
    lemma_count_absent(middle, Method::Repay);
    lemma_count_prepend(middle, s[0], Method::FlashBorrow);
    lemma_count_prepend(middle, s[0], Method::Repay);
    assert(seq![s[0]] + middle =~= init);
    assert(init.last().method == Method::FlashBorrow || n > 2);
}

proof fn lemma_count_prepend(steps: Seq<Step>, first: Step, m: Method)
    ensures
        count_method(seq![first] + steps, m) == count_method(steps, m) + if first.method == m {
            1nat
        } else {
            0nat
        },
    decreases steps.len(),
{
    let whole = seq![first] + steps;
    if steps.len() > 0 {
        assert(whole.drop_last() =~= seq![first] + steps.drop_last());
        assert(whole.last() == steps.last());
        lemma_count_prepend(steps.drop_last(), first, m);
    } else {
        assert(whole.drop_last() =~= Seq::<Step>::empty());
        assert(whole.last() == first);
        assert(count_method(Seq::<Step>::empty(), m) == 0);
    }
}

} // verus!
