//! Opportunity detection and atomic execution engine for an on-chain
//! trading agent: the data model of candidate opportunities, the
//! per-strategy detection formulas, the profitability evaluator, the
//! capital provider that wraps a plan in a flash borrow, the per-plan
//! execution state machine with bounded retry and backoff, per-account
//! nonce sequencing, and the outcome reporter.
pub mod amount;
pub mod opportunity;
pub mod strategy;
pub mod sandwich;
pub mod plan;
pub mod config;
pub mod capital;
pub mod evaluator;
pub mod execution;
pub mod nonce;
pub mod reporter;

pub use amount::Amount;
pub use config::{AssetMap, ConfigError, StrategyConfig};
pub use evaluator::{Evaluation, RejectReason, evaluate};
pub use execution::{Action, Event, Execution, Outcome, OutcomeRecord, Phase, RetryPolicy};
pub use nonce::NonceBook;
pub use opportunity::{Address, Opportunity, StrategyKind, Subject, TxHash};
pub use plan::{CallArgs, ExecutionPlan, Funding, Method, OrderingConstraint, Step};
pub use reporter::ProfitCounter;
