use mev_engine::amount::Amount;
use mev_engine::capital::{provide_capital, CapitalError};
use mev_engine::config::{AssetMap, ConfigError, StrategyConfig};
use mev_engine::evaluator::{estimate_cost, evaluate, reprice, trade_steps, Evaluation, RejectReason};
use mev_engine::execution::{
    backoff_delay, realized_proceeds, initial_fee_bid, Action, Event, Execution, Outcome, Phase, RetryPolicy,
};
use mev_engine::nonce::NonceBook;
use mev_engine::opportunity::{Address, Opportunity, StrategyKind, Subject, TxHash};
use mev_engine::plan::{CallArgs, ExecutionPlan, Method, OrderingConstraint};
use mev_engine::reporter::{status_label, ProfitCounter};
use mev_engine::strategy::{
    check_arbitrage_opportunity, flashloan_candidate, frontrun_candidate, is_profitable, latency_candidate,
    liquidation_candidate, sandwich_candidate,
};

fn amt(v: u64) -> Amount {
    Amount::from_u64(v)
}

fn addr(v: u32) -> Address {
    Address { high: 0, low: v }
}

fn config() -> StrategyConfig {
    StrategyConfig {
        kind: StrategyKind::CrossVenueArbitrage,
        router: addr(1),
        alt_router: addr(2),
        lending_pools: pools(),
        own_balance: amt(1_000),
        borrow_fee_bps: 9,
        slippage_bps: 50,
        max_staleness: 2,
        validity_blocks: 5,
        max_retries: 3,
        base_delay: 1,
        max_delay: 60,
        fee_premium: 7,
        fee_bump: 2,
        price_feeds: AssetMap::new(),
    }
}

fn pools() -> AssetMap {
    let mut m = AssetMap::new();
    m.add(addr(10), addr(3));
    m.add(addr(30), addr(4));
    m
}

fn pair_opportunity(gain: u64, cost: u64, capital: u64) -> Opportunity {
    Opportunity {
        strategy_kind: StrategyKind::CrossVenueArbitrage,
        subject: Subject::TokenPair { token_in: addr(10), token_out: addr(11) },
        observed_at_block: 100,
        expected_gross_gain: amt(gain),
        estimated_cost: amt(cost),
        required_capital: amt(capital),
    }
}

fn policy(max_retries: u32) -> RetryPolicy {
    RetryPolicy { max_retries, base_delay: 1, max_delay: 60, fee_bump: 2 }
}

fn accepted(e: Evaluation) -> ExecutionPlan {
    match e {
        Evaluation::Accept(p) => p,
        Evaluation::Reject(r) => panic!("rejected: {:?}", r),
    }
}

fn rejected(e: Evaluation) -> RejectReason {
    match e {
        Evaluation::Accept(_) => panic!("accepted"),
        Evaluation::Reject(r) => r,
    }
}

fn report_of(a: Action) -> mev_engine::execution::OutcomeRecord {
    match a {
        Action::Report(r) => r,
        other => panic!("expected a report, got {:?}", other),
    }
}

#[test]
fn profitable_candidate_confirms_with_realized_profit() {
    let plan = accepted(evaluate(&pair_opportunity(500, 300, 200), &config(), 100));
    assert_eq!(plan.expected_profit, amt(200));
    let mut ex = Execution::new(9, &plan, policy(3), 20, 7, 1_000);
    assert_eq!(ex.step(Event::Simulated { reverted: false }, 1_001), Action::CheckBeforeSubmit);
    assert_eq!(
        ex.step(Event::ReadyToSubmit { subject_pending: true, height: 101 }, 1_002),
        Action::Submit { attempt: 1, fee_bid: 20 }
    );
    let rec = report_of(ex.step(
        Event::Included { success: true, proceeds: amt(500), gas_cost: amt(300) },
        1_010,
    ));
    assert_eq!(rec.outcome, Outcome::ConfirmedSuccess);
    assert_eq!(status_label(rec.outcome), "confirmed-success");
    assert_eq!(rec.realized_profit(), amt(200));
    assert_eq!(rec.realized_loss(), Amount::zero());
    assert_eq!(rec.attempt_count, 1);
    assert_eq!(rec.plan_id, 9);
    assert_eq!((rec.started_at, rec.finished_at), (1_000, 1_010));
    let mut counter = ProfitCounter::new();
    counter.record(&rec);
    assert_eq!(counter.total_profit, amt(200));
    assert_eq!(counter.reported, 1);
}

#[test]
fn unprofitable_candidate_is_rejected() {
    let r = rejected(evaluate(&pair_opportunity(100, 300, 200), &config(), 100));
    assert_eq!(r, RejectReason::Unprofitable);
}

#[test]
fn equal_gain_and_cost_is_rejected() {
    let r = rejected(evaluate(&pair_opportunity(300, 300, 200), &config(), 100));
    assert_eq!(r, RejectReason::Unprofitable);
}

#[test]
fn three_network_errors_exhaust_retries() {
    let plan = accepted(evaluate(&pair_opportunity(500, 300, 200), &config(), 100));
    let mut ex = Execution::new(1, &plan, policy(3), 20, 0, 0);
    ex.step(Event::Simulated { reverted: false }, 1);
    let mut delays = Vec::new();
    let mut bids = Vec::new();
    let mut last = Action::Idle;
    for t in 0..3u64 {
        match ex.step(Event::ReadyToSubmit { subject_pending: true, height: 100 }, 2 + t) {
            Action::Submit { fee_bid, .. } => bids.push(fee_bid),
            other => panic!("expected a submission, got {:?}", other),
        }
        match ex.step(Event::SubmitFailed, 2 + t) {
            Action::Wait { delay } => delays.push(delay),
            other => panic!("expected a wait, got {:?}", other),
        }
        last = ex.step(Event::TimerElapsed, 2 + t);
    }
    assert_eq!(delays, vec![1, 2, 4]);
    assert_eq!(bids, vec![20, 22, 24]);
    let rec = report_of(last);
    assert_eq!(rec.outcome, Outcome::RetriesExceeded);
    assert_eq!(rec.attempt_count, 3);
    assert_eq!(ex.phase, Phase::RetriesExceeded);
    assert_eq!(ex.step(Event::TimerElapsed, 9), Action::Idle);
    assert_eq!(ex.step(Event::ReadyToSubmit { subject_pending: true, height: 100 }, 9), Action::Idle);
}

#[test]
fn simulated_revert_abandons_without_attempts() {
    let plan = accepted(evaluate(&pair_opportunity(500, 300, 200), &config(), 100));
    let mut ex = Execution::new(2, &plan, policy(3), 20, 0, 0);
    let rec = report_of(ex.step(Event::Simulated { reverted: true }, 1));
    assert_eq!(rec.outcome, Outcome::Abandoned);
    assert_eq!(rec.attempt_count, 0);
    assert_eq!(rec.gas_cost, Amount::zero());
    assert_eq!(ex.phase, Phase::Abandoned);
    assert_eq!(ex.step(Event::ReadyToSubmit { subject_pending: true, height: 100 }, 2), Action::Idle);
}

#[test]
fn pending_plan_past_deadline_expires_for_good() {
    let plan = accepted(evaluate(&pair_opportunity(500, 300, 200), &config(), 100));
    assert_eq!(plan.deadline_block, 105);
    let mut ex = Execution::new(3, &plan, policy(3), 20, 0, 0);
    ex.step(Event::Simulated { reverted: false }, 1);
    ex.step(Event::ReadyToSubmit { subject_pending: true, height: 101 }, 2);
    assert_eq!(ex.step(Event::NewBlock { height: 105 }, 3), Action::Idle);
    let rec = report_of(ex.step(Event::NewBlock { height: 106 }, 4));
    assert_eq!(rec.outcome, Outcome::Expired);
    assert_eq!(ex.step(Event::SubmitFailed, 5), Action::Idle);
    assert_eq!(ex.step(Event::TimerElapsed, 6), Action::Idle);
    assert_eq!(ex.phase, Phase::Expired);
}

#[test]
fn on_chain_revert_reports_the_gas_lost() {
    let plan = accepted(evaluate(&pair_opportunity(500, 300, 200), &config(), 100));
    let mut ex = Execution::new(4, &plan, policy(3), 20, 0, 0);
    ex.step(Event::Simulated { reverted: false }, 1);
    ex.step(Event::ReadyToSubmit { subject_pending: true, height: 101 }, 2);
    let rec = report_of(ex.step(
        Event::Included { success: false, proceeds: amt(999), gas_cost: amt(40) },
        3,
    ));
    assert_eq!(rec.outcome, Outcome::ConfirmedReverted);
    assert_eq!(rec.realized_loss(), amt(40));
    assert_eq!(rec.realized_profit(), Amount::zero());
}

#[test]
fn vanished_subject_abandons_competitive_plan() {
    let o = frontrun_candidate(
        TxHash { high: 1, low: 2 },
        &amt(100_000),
        addr(10),
        addr(11),
        &amt(1_000),
        &amt(300),
        100,
    )
    .unwrap();
    let mut c = config();
    c.own_balance = amt(1_000_000);
    let plan = accepted(evaluate(&o, &c, 100));
    assert_eq!(plan.ordering, OrderingConstraint::BeforeSubject);
    assert_eq!(plan.subject_tx, Some(TxHash { high: 1, low: 2 }));
    let mut ex = Execution::new(5, &plan, policy(3), 20, 7, 0);
    ex.step(Event::Simulated { reverted: false }, 1);
    let rec = report_of(ex.step(Event::ReadyToSubmit { subject_pending: false, height: 101 }, 2));
    assert_eq!(rec.outcome, Outcome::Abandoned);
    assert_eq!(rec.attempt_count, 0);
}

#[test]
fn competitive_strategies_bid_a_premium() {
    assert_eq!(initial_fee_bid(StrategyKind::FrontRunning, 20, 7), 27);
    assert_eq!(initial_fee_bid(StrategyKind::Sandwich, u64::MAX, 7), u64::MAX);
    assert_eq!(initial_fee_bid(StrategyKind::Liquidation, 20, 7), 20);
}

#[test]
fn backoff_doubles_up_to_the_cap() {
    let got: Vec<u64> = (0..7u32).map(|k| backoff_delay(3, 50, k)).collect();
    assert_eq!(got, vec![3, 6, 12, 24, 48, 50, 50]);
    assert_eq!(backoff_delay(1, u64::MAX, 64), u64::MAX);
    assert_eq!(backoff_delay(100, 10, 0), 10);
}

#[test]
fn funded_plan_is_bracketed_by_borrow_and_repay() {
    let plan = accepted(evaluate(&pair_opportunity(500, 300, 10_000), &config(), 100));
    let f = plan.funding.unwrap();
    assert_eq!(f.pool, addr(3));
    assert_eq!(f.amount, amt(10_000));
    assert_eq!(f.repay_amount, amt(10_009));
    let methods: Vec<Method> = plan.steps.iter().map(|s| s.method).collect();
    assert_eq!(methods, vec![Method::FlashBorrow, Method::Swap, Method::Swap, Method::Repay]);
    let loan = CallArgs::Loan { asset: addr(10), mode: 0 };
    assert_eq!(plan.steps[0].args, loan);
    assert_eq!(plan.steps[3].args, loan);
    assert_eq!(plan.steps[3].amount_in, amt(10_009));
    assert_eq!(plan.steps[1].args, CallArgs::Swap { token_in: addr(10), token_out: addr(11) });
    assert_eq!(plan.steps[2].args, CallArgs::Swap { token_in: addr(11), token_out: addr(10) });
    assert!(plan.steps[2].uses_prior_output);
    assert_eq!(plan.steps[2].min_output, amt(10_000));
}

#[test]
fn unfunded_plan_has_no_funding_steps() {
    let plan = accepted(evaluate(&pair_opportunity(500, 300, 200), &config(), 100));
    assert!(plan.funding.is_none());
    let methods: Vec<Method> = plan.steps.iter().map(|s| s.method).collect();
    assert_eq!(methods, vec![Method::Swap, Method::Swap]);
    assert_eq!(plan.ordering, OrderingConstraint::Either);
}

#[test]
fn missing_facility_and_staleness_are_rejected() {
    let mut c = config();
    c.lending_pools = AssetMap::new();
    let r = rejected(evaluate(&pair_opportunity(500, 300, 10_000), &c, 100));
    assert_eq!(r, RejectReason::NoFundingFacility);
    // A facility for another asset does not help.
    let mut o = pair_opportunity(500, 300, 10_000);
    o.subject = Subject::TokenPair { token_in: addr(12), token_out: addr(11) };
    assert_eq!(rejected(evaluate(&o, &config(), 100)), RejectReason::NoFundingFacility);
    let r = rejected(evaluate(&pair_opportunity(500, 300, 200), &config(), 103));
    assert_eq!(r, RejectReason::Stale);
    let plan = accepted(evaluate(&pair_opportunity(500, 300, 200), &config(), 102));
    assert_eq!(plan.strategy_kind, StrategyKind::CrossVenueArbitrage);
}

#[test]
fn unrepayable_loan_is_rejected() {
    let mut o = pair_opportunity(500, 300, 0);
    o.required_capital = Amount { w0: u64::MAX, w1: u64::MAX, w2: u64::MAX, w3: u64::MAX };
    let r = rejected(evaluate(&o, &config(), 100));
    assert_eq!(r, RejectReason::Overflow);
    let trades = trade_steps(&o, &config());
    let mut c = config();
    c.lending_pools = AssetMap::new();
    assert_eq!(
        provide_capital(trades.clone(), &c, addr(10), &o.required_capital).unwrap_err(),
        CapitalError::NoFacility
    );
    assert_eq!(
        provide_capital(trades, &config(), addr(10), &o.required_capital).unwrap_err(),
        CapitalError::Overflow
    );
}

#[test]
fn liquidation_needs_a_price_feed() {
    let o = liquidation_candidate(addr(20), addr(21), addr(30), &amt(5), &amt(1), &amt(3), &amt(100), &amt(10), 100)
        .unwrap();
    assert_eq!(o.expected_gross_gain, amt(200));
    let r = rejected(evaluate(&o, &config(), 100));
    assert_eq!(r, RejectReason::UnsupportedSubject);
    let mut c = config();
    c.price_feeds.add(addr(21), addr(99));
    let plan = accepted(evaluate(&o, &c, 100));
    let methods: Vec<Method> = plan.steps.iter().map(|s| s.method).collect();
    assert_eq!(methods, vec![Method::Liquidate, Method::Swap]);
    assert_eq!(plan.steps[0].args, CallArgs::Liquidation { borrower: addr(20), collateral: addr(21) });
    assert_eq!(plan.steps[1].args, CallArgs::Swap { token_in: addr(21), token_out: addr(30) });
}

#[test]
fn price_feed_lookup_takes_the_first_entry() {
    let mut c = config();
    c.price_feeds.add(addr(1), addr(100));
    c.price_feeds.add(addr(2), addr(200));
    c.price_feeds.add(addr(1), addr(300));
    assert_eq!(c.get_chainlink_price_feed_address(addr(1)), Some(addr(100)));
    assert_eq!(c.get_chainlink_price_feed_address(addr(2)), Some(addr(200)));
    assert_eq!(c.get_chainlink_price_feed_address(addr(3)), None);
}

#[test]
fn nonces_follow_acceptance_order_per_account() {
    let mut book = NonceBook::new();
    let a = addr(1);
    let b = addr(2);
    assert_eq!(book.accept(a, 7), Some(7));
    assert_eq!(book.accept(b, 40), Some(40));
    assert_eq!(book.accept(a, 0), Some(8));
    assert_eq!(book.accept(a, 0), Some(9));
    assert_eq!(book.accept(b, 0), Some(41));
    let mut full = NonceBook::new();
    assert_eq!(full.accept(a, u64::MAX), None);
    assert_eq!(full.accept(a, u64::MAX - 1), Some(u64::MAX - 1));
    assert_eq!(full.accept(a, 0), None);
}

#[test]
fn config_errors_are_found_in_order() {
    assert_eq!(config().validate(), Ok(()));
    let mut c = config();
    c.max_retries = 0;
    assert_eq!(c.validate(), Err(ConfigError::NoRetries));
    let mut c = config();
    c.base_delay = 0;
    assert_eq!(c.validate(), Err(ConfigError::ZeroBaseDelay));
    let mut c = config();
    c.max_delay = 0;
    assert_eq!(c.validate(), Err(ConfigError::DelayCapBelowBase));
    let mut c = config();
    c.slippage_bps = 10_001;
    assert_eq!(c.validate(), Err(ConfigError::FractionOutOfRange));
    let mut c = config();
    c.validity_blocks = 0;
    assert_eq!(c.validate(), Err(ConfigError::ZeroValidity));
    let mut c = config();
    c.fee_bump = 0;
    assert_eq!(c.validate(), Err(ConfigError::ZeroFeeBump));
}

#[test]
fn scanners_emit_candidates_only_when_worthwhile() {
    let o = check_arbitrage_opportunity(addr(1), addr(2), &amt(1_000), &amt(400), &amt(300), 7).unwrap();
    assert_eq!(o.expected_gross_gain, amt(600));
    assert_eq!(o.required_capital, amt(600));
    assert_eq!(o.estimated_cost, amt(300));
    assert_eq!(o.observed_at_block, 7);
    assert!(check_arbitrage_opportunity(addr(1), addr(2), &amt(400), &amt(1_000), &amt(300), 7).is_none());
    assert!(check_arbitrage_opportunity(addr(1), addr(2), &amt(700), &amt(400), &amt(300), 7).is_none());

    let o = flashloan_candidate(addr(5), addr(6), &amt(2_000), &amt(1_000), &amt(1_000), &amt(10), 100, 7).unwrap();
    assert_eq!(o.required_capital, amt(980));
    assert_eq!(o.subject, Subject::TokenPair { token_in: addr(5), token_out: addr(6) });
    assert!(flashloan_candidate(addr(5), addr(6), &amt(1_000), &amt(1_000), &amt(1_000), &amt(10), 100, 7).is_none());

    let t = TxHash { high: 0, low: 1 };
    assert!(frontrun_candidate(t, &amt(1_000), addr(1), addr(2), &amt(1_000), &amt(10), 7).is_none());

    let h = TxHash { high: 0, low: 9 };
    let o = sandwich_candidate(h, &amt(1_000), addr(1), addr(2), &amt(500), &amt(10), 0, &amt(1), &amt(1_001), 7)
        .unwrap();
    assert_eq!(o.required_capital, amt(990));
    assert!(sandwich_candidate(h, &amt(1_000), addr(1), addr(2), &amt(500), &amt(10), 0, &amt(1), &amt(1_000), 7)
        .is_none());

    let o = latency_candidate(addr(4), addr(5), &amt(2_999), &amt(3_000), &amt(1_000), &amt(10), 100, 7).unwrap();
    assert_eq!(o.subject, Subject::PriceTarget { asset: addr(4), quote: addr(5), target_price: amt(3_000) });
    assert!(latency_candidate(addr(4), addr(5), &amt(3_000), &amt(3_000), &amt(1_000), &amt(10), 100, 7).is_none());
    let healthy = amt(1_000_000_000_000_000_000);
    assert!(liquidation_candidate(addr(20), addr(21), addr(30), &healthy, &amt(1), &amt(3), &amt(100), &amt(10), 7)
        .is_none());
}

#[test]
fn status_labels() {
    assert_eq!(status_label(Outcome::ConfirmedReverted), "confirmed-reverted");
    assert_eq!(status_label(Outcome::Expired), "expired");
    assert_eq!(status_label(Outcome::Abandoned), "abandoned");
    assert_eq!(status_label(Outcome::RetriesExceeded), "retries-exceeded");
}

#[test]
fn cost_adds_gas_borrow_fee_and_slippage() {
    // 21_000 gas at 20 per unit, a 9 fee, 1% of 5_000.
    assert_eq!(estimate_cost(21_000, 20, &amt(9), &amt(5_000), 100), Some(amt(420_059)));
    assert_eq!(estimate_cost(u64::MAX, u64::MAX, &Amount::zero(), &Amount::zero(), 0).is_some(), true);
    let max = Amount { w0: u64::MAX, w1: u64::MAX, w2: u64::MAX, w3: u64::MAX };
    assert_eq!(estimate_cost(1, 1, &max, &Amount::zero(), 0), None);
    // 2 basis points of the largest gain fit: no intermediate product overflows.
    let allowance = estimate_cost(0, 0, &Amount::zero(), &max, 2).unwrap();
    assert!(is_profitable(&max, &allowance));
    assert!(!allowance.is_zero());
}

#[test]
fn repricing_makes_a_new_candidate() {
    let o = pair_opportunity(500, 1, 10_000);
    let priced = reprice(&o, &config(), 10, 20).unwrap();
    // 200 gas, 9 bps of the 10_000 borrowed, 0.5% of 500 rounded down.
    assert_eq!(priced.estimated_cost, amt(200 + 9 + 2));
    assert_eq!(priced.expected_gross_gain, o.expected_gross_gain);
    assert_eq!(priced.subject, o.subject);
    assert_eq!(o.estimated_cost, amt(1));
    let unfunded = reprice(&pair_opportunity(500, 1, 200), &config(), 10, 20).unwrap();
    assert_eq!(unfunded.estimated_cost, amt(202));
    // A gain of 201 costs 200 in gas plus 1 of slippage: no longer profitable.
    let thin = reprice(&pair_opportunity(201, 1, 200), &config(), 10, 20).unwrap();
    assert_eq!(rejected(evaluate(&thin, &config(), 100)), RejectReason::Unprofitable);
}

#[test]
fn sandwich_plan_trades_there_and_back() {
    let h = TxHash { high: 0, low: 3 };
    let o = sandwich_candidate(h, &amt(2_000), addr(30), addr(31), &amt(500), &amt(10), 0, &amt(1), &amt(5_000), 100)
        .unwrap();
    let plan = accepted(evaluate(&o, &config(), 100));
    let methods: Vec<Method> = plan.steps.iter().map(|s| s.method).collect();
    assert_eq!(methods, vec![Method::FlashBorrow, Method::Swap, Method::Swap, Method::Repay]);
    assert_eq!(plan.steps[0].args, CallArgs::Loan { asset: addr(30), mode: 0 });
    assert_eq!(plan.steps[0].contract, addr(4));
    assert_eq!(plan.steps[1].args, CallArgs::Swap { token_in: addr(30), token_out: addr(31) });
    assert_eq!(plan.steps[2].args, CallArgs::Swap { token_in: addr(31), token_out: addr(30) });
    assert_eq!(plan.ordering, OrderingConstraint::BeforeSubject);
}

#[test]
fn single_trade_names_its_path() {
    let o = latency_candidate(addr(40), addr(41), &amt(2_999), &amt(3_000), &amt(1_000), &amt(10), 0, 100).unwrap();
    let plan = accepted(evaluate(&o, &config(), 100));
    assert_eq!(plan.steps.len(), 1);
    assert_eq!(plan.steps[0].args, CallArgs::Swap { token_in: addr(40), token_out: addr(41) });
    assert_eq!(plan.steps[0].amount_in, amt(990));
}

#[test]
fn mismatched_subject_is_unsupported() {
    let mut o = pair_opportunity(500, 300, 200);
    o.strategy_kind = StrategyKind::Sandwich;
    assert_eq!(rejected(evaluate(&o, &config(), 100)), RejectReason::UnsupportedSubject);
}

#[test]
fn proceeds_add_back_the_gas() {
    assert_eq!(realized_proceeds(&amt(1_000), &amt(1_150), &amt(50)), amt(200));
    assert_eq!(realized_proceeds(&amt(1_000), &amt(900), &amt(50)), Amount::zero());
}

#[test]
fn only_the_latest_nonce_is_given_back() {
    let mut book = NonceBook::new();
    let a = addr(1);
    assert_eq!(book.accept(a, 5), Some(5));
    assert_eq!(book.accept(a, 0), Some(6));
    assert!(!book.release(a, 5));
    assert!(book.release(a, 6));
    assert_eq!(book.accept(a, 0), Some(6));
    assert!(!book.release(addr(2), 0));
}
