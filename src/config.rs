//! The static per-strategy configuration record and its validation.
use vstd::prelude::*;
use crate::amount::Amount;
use crate::opportunity::{Address, StrategyKind};

verus! {

/// The address of the first entry for `asset` in `s`, if any.
pub open spec fn lookup_in(s: Seq<(Address, Address)>, asset: Address) -> Option<Address>
    decreases s.len(),
{
    if s.len() == 0 {
        None
    } else if s[0].0 == asset {
        Some(s[0].1)
    } else {
        lookup_in(s.drop_first(), asset)
    }
}

/// Assets each mapped to a contract serving them (a price feed, a lending
/// pool). The first entry for an asset counts.
#[derive(Clone, Debug)]
pub struct AssetMap {
    pub entries: Vec<(Address, Address)>,
}

impl AssetMap {
    pub open spec fn get(&self, asset: Address) -> Option<Address> {
        lookup_in(self.entries@, asset)
    }

    pub fn new() -> (r: AssetMap)
        ensures
            r.entries@.len() == 0,
            forall|a: Address| r.get(a).is_none(),
    {
        AssetMap { entries: Vec::new() }
    }

    pub fn add(&mut self, asset: Address, target: Address)
        ensures
            final(self).entries@ == old(self).entries@.push((asset, target)),
    {
        self.entries.push((asset, target));
    }

    /// The contract of the first entry for `asset`, if any.
    pub fn lookup(&self, asset: Address) -> (r: Option<Address>)
        ensures
            r == self.get(asset),
    {
        let mut i: usize = 0;
        assert(self.entries@.subrange(0, self.entries@.len() as int) =~= self.entries@);
        while i < self.entries.len()
            invariant
                i <= self.entries@.len(),
                lookup_in(self.entries@, asset) == lookup_in(
                    self.entries@.subrange(i as int, self.entries@.len() as int),
                    asset,
                ),
            decreases self.entries@.len() - i,
        {
            let ghost rest = self.entries@.subrange(i as int, self.entries@.len() as int);
            assert(rest[0] == self.entries@[i as int]);
            assert(rest.drop_first() =~= self.entries@.subrange(i + 1, self.entries@.len() as int));
            let (a, f) = self.entries[i];
            if a == asset {
                return Some(f);
            }
            i += 1;
        }
        assert(self.entries@.subrange(i as int, self.entries@.len() as int).len() == 0);
        None
    }
}

/// Why a configuration cannot be used.
#[derive(Clone, Copy, Debug, PartialEq, Eq, Structural, Hash)]
pub enum ConfigError {
    /// A required field is absent or malformed in the source record.
    MissingField,
    /// At least one attempt must be allowed.
    NoRetries,
    /// The base backoff delay must be positive.
    ZeroBaseDelay,
    /// The base backoff delay exceeds the maximum delay.
    DelayCapBelowBase,
    /// A slippage tolerance or borrowing fee above one whole.
    FractionOutOfRange,
    /// Fee bids must rise on each new attempt.
    ZeroFeeBump,
    /// Plans must stay valid for at least one block.
    ZeroValidity,
}

/// Per-strategy settings, fixed for a run.
#[derive(Clone, Debug)]
pub struct StrategyConfig {
    pub kind: StrategyKind,
    /// Router of the first trade.
    pub router: Address,
    /// Router of the second trade, where there is one.
    pub alt_router: Address,
    /// Flash-borrow facility of each asset that can be borrowed.
    pub lending_pools: AssetMap,
    /// Capital the agent holds itself.
    pub own_balance: Amount,
    /// Fee of the flash-borrow facility, in basis points of the loan.
    pub borrow_fee_bps: u64,
    /// Slippage tolerance, in basis points.
    pub slippage_bps: u64,
    /// Largest allowed gap between detection height and current height.
    pub max_staleness: u64,
    /// Blocks after detection during which a plan may still land.
    pub validity_blocks: u64,
    pub max_retries: u32,
    pub base_delay: u64,
    pub max_delay: u64,
    /// Added to the market fee for strategies that race a transaction.
    pub fee_premium: u64,
    /// Added to the fee bid on each new attempt.
    pub fee_bump: u64,
    /// Price feed of each asset with a known price.
    pub price_feeds: AssetMap,
}

/// The first problem found in a configuration, checked in field order.
pub open spec fn config_problem(c: StrategyConfig) -> Option<ConfigError> {
    if c.max_retries == 0 {
        Some(ConfigError::NoRetries)
    } else if c.base_delay == 0 {
        Some(ConfigError::ZeroBaseDelay)
    } else if c.max_delay < c.base_delay {
        Some(ConfigError::DelayCapBelowBase)
    } else if c.borrow_fee_bps > 10000 || c.slippage_bps > 10000 {
        Some(ConfigError::FractionOutOfRange)
    } else if c.validity_blocks == 0 {
        Some(ConfigError::ZeroValidity)
    } else if c.fee_bump == 0 {
        Some(ConfigError::ZeroFeeBump)
    } else {
        None
    }
}

impl StrategyConfig {
    pub open spec fn valid(&self) -> bool {
        config_problem(*self).is_none()
    }

    /// Checks the record before any scanner starts.
    pub fn validate(&self) -> (r: Result<(), ConfigError>)
        ensures
            r.is_ok() <==> self.valid(),
            r.is_err() ==> config_problem(*self) == Some(r.unwrap_err()),
    {
        if self.max_retries == 0 {
            Err(ConfigError::NoRetries)
        } else if self.base_delay == 0 {
            Err(ConfigError::ZeroBaseDelay)
        } else if self.max_delay < self.base_delay {
            Err(ConfigError::DelayCapBelowBase)
        } else if self.borrow_fee_bps > 10000 || self.slippage_bps > 10000 {
            Err(ConfigError::FractionOutOfRange)
        } else if self.validity_blocks == 0 {
            Err(ConfigError::ZeroValidity)
        } else if self.fee_bump == 0 {
            Err(ConfigError::ZeroFeeBump)
        } else {
            Ok(())
        }
    }

    /// The price feed of `asset`, if one is known.
    pub fn get_chainlink_price_feed_address(&self, asset: Address) -> (r: Option<Address>)
        ensures
            r == self.price_feeds.get(asset),
    {
        self.price_feeds.lookup(asset)
    }
}

} // verus!
