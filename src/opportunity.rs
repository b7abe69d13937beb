//! Candidate opportunities as the scanners emit them.
use vstd::prelude::*;
use crate::amount::Amount;

verus! {

/// A 160-bit account or contract address, split big-endian into its first
/// sixteen bytes and its last four.
#[derive(Clone, Copy, Debug, PartialEq, Eq, Structural, Hash)]
pub struct Address {
    pub high: u128,
    pub low: u32,
}

/// A 256-bit transaction hash, split big-endian into two halves.
#[derive(Clone, Copy, Debug, PartialEq, Eq, Structural, Hash)]
pub struct TxHash {
    pub high: u128,
    pub low: u128,
}

/// The strategy that produced a candidate.
#[derive(Clone, Copy, Debug, PartialEq, Eq, Structural, Hash)]
pub enum StrategyKind {
    CrossVenueArbitrage,
    FlashBorrowArbitrage,
    FrontRunning,
    Liquidation,
    Sandwich,
    LatencySensitive,
}

impl StrategyKind {
    /// Strategies that must land relative to a third-party transaction and
    /// therefore bid a fee premium.
    pub open spec fn competitive(self) -> bool {
        self == StrategyKind::FrontRunning || self == StrategyKind::Sandwich
    }

    pub fn is_competitive(&self) -> (r: bool)
        ensures
            r == self.competitive(),
    {
        match self {
            StrategyKind::FrontRunning | StrategyKind::Sandwich => true,
            _ => false,
        }
    }
}

/// What a candidate is about; its shape depends on the strategy.
#[derive(Clone, Copy, Debug, PartialEq, Eq, Structural, Hash)]
pub enum Subject {
    /// Two tokens whose price diverges across venues.
    TokenPair { token_in: Address, token_out: Address },
    /// An undercollateralized borrower, the collateral asset to seize and
    /// the asset its debt is in.
    Borrower { account: Address, collateral: Address, debt_asset: Address },
    /// An observed pending transaction, the value it moves, and the pair
    /// it trades.
    PendingTransaction { hash: TxHash, value: Amount, token_in: Address, token_out: Address },
    /// An asset, the token it is quoted in, and the price at which trading
    /// it becomes worthwhile.
    PriceTarget { asset: Address, quote: Address, target_price: Amount },
}

/// The asset a plan about `s` starts from: what it spends or borrows.
pub open spec fn base_asset(s: Subject) -> Address {
    match s {
        Subject::TokenPair { token_in, .. } => token_in,
        Subject::Borrower { debt_asset, .. } => debt_asset,
        Subject::PendingTransaction { token_in, .. } => token_in,
        Subject::PriceTarget { asset, .. } => asset,
    }
}

/// The asset a plan about `s` trades the base asset for.
pub open spec fn other_asset(s: Subject) -> Address {
    match s {
        Subject::TokenPair { token_out, .. } => token_out,
        Subject::Borrower { collateral, .. } => collateral,
        Subject::PendingTransaction { token_out, .. } => token_out,
        Subject::PriceTarget { quote, .. } => quote,
    }
}

impl Subject {
    pub fn base_asset(&self) -> (r: Address)
        ensures
            r == base_asset(*self),
    {
        match self {
            Subject::TokenPair { token_in, .. } => *token_in,
            Subject::Borrower { debt_asset, .. } => *debt_asset,
            Subject::PendingTransaction { token_in, .. } => *token_in,
            Subject::PriceTarget { asset, .. } => *asset,
        }
    }

    pub fn other_asset(&self) -> (r: Address)
        ensures
            r == other_asset(*self),
    {
        match self {
            Subject::TokenPair { token_out, .. } => *token_out,
            Subject::Borrower { collateral, .. } => *collateral,
            Subject::PendingTransaction { token_out, .. } => *token_out,
            Subject::PriceTarget { quote, .. } => *quote,
        }
    }
}

/// The subject shape each strategy works on.
pub open spec fn shape_matches(kind: StrategyKind, s: Subject) -> bool {
    match kind {
        StrategyKind::CrossVenueArbitrage | StrategyKind::FlashBorrowArbitrage => s is TokenPair,
        StrategyKind::FrontRunning | StrategyKind::Sandwich => s is PendingTransaction,
        StrategyKind::Liquidation => s is Borrower,
        StrategyKind::LatencySensitive => s is PriceTarget,
    }
}

pub fn subject_fits(kind: StrategyKind, s: &Subject) -> (r: bool)
    ensures
        r == shape_matches(kind, *s),
{
    match kind {
        StrategyKind::CrossVenueArbitrage | StrategyKind::FlashBorrowArbitrage => matches!(s, Subject::TokenPair { .. }),
        StrategyKind::FrontRunning | StrategyKind::Sandwich => matches!(s, Subject::PendingTransaction { .. }),
        StrategyKind::Liquidation => matches!(s, Subject::Borrower { .. }),
        StrategyKind::LatencySensitive => matches!(s, Subject::PriceTarget { .. }),
    }
}

/// A candidate actionable event. It is never mutated once emitted: a new
/// evaluation of the same situation is a new `Opportunity`.
#[derive(Clone, Copy, Debug, PartialEq, Eq, Structural, Hash)]
pub struct Opportunity {
    pub strategy_kind: StrategyKind,
    pub subject: Subject,
    /// Chain height at detection time.
    pub observed_at_block: u64,
    /// Value captured if the plan lands.
    pub expected_gross_gain: Amount,
    /// Gas, protocol fees, borrowing fee and slippage allowance.
    pub estimated_cost: Amount,
    /// Input amount that the first trade step spends.
    pub required_capital: Amount,
}

impl Opportunity {
    /// The subject has the shape the strategy works on.
    pub open spec fn wf(&self) -> bool {
        shape_matches(self.strategy_kind, self.subject)
    }
}

} // verus!
