use std::cell::{Cell, RefCell};

use market::api::alert::{AlertData, AlertType, Bar, FixedDecimal};
use market::api::handlers::receive_webhook_alert;
use market::api::objects::Broker;
use market::retry::RetryDelay;
use market::strategy_manager::{Order, Strategy, StrategyManager, TradeError, TradingClient};
use market::trade_executor::{ExecutionAction, ExecutionEvent, ExecutionState, TradeExecutor};

/// A broker that fails a set number of submissions and then accepts.
struct Flaky {
    order_id: u128,
    failures_left: Cell<u32>,
    submitted: RefCell<Vec<Order>>,
}

impl Flaky {
    fn new(order_id: u128, failures: u32) -> Flaky {
        Flaky { order_id, failures_left: Cell::new(failures), submitted: RefCell::new(Vec::new()) }
    }
}

impl TradingClient for Flaky {
    fn create_order(&self, _input: &AlertData) -> Order {
        Order { id: self.order_id }
    }
    fn execute_order(&self, order: &Order) -> Result<(), TradeError> {
        self.submitted.borrow_mut().push(*order);
        if self.failures_left.get() == 0 {
            Ok(())
        } else {
            self.failures_left.set(self.failures_left.get() - 1);
            Err(TradeError::Broker(String::from("unavailable")))
        }
    }
    fn cancel_order(&self, _order: &Order) -> Result<(), TradeError> {
        Ok(())
    }
    fn get_order(&self, _order: &Order) -> Result<(), TradeError> {
        Ok(())
    }
    fn get_orders(&self) -> Result<(), TradeError> {
        Ok(())
    }
    fn get_positions(&self) -> Result<(), TradeError> {
        Ok(())
    }
    fn get_account(&self) -> Result<(), TradeError> {
        Ok(())
    }
}

/// Runs the executor to a terminal state and returns the waits it asked for
/// and the last action.
fn drive(executor: &mut TradeExecutor, client: &Flaky) -> (Vec<RetryDelay>, ExecutionAction) {
    let mut waits = Vec::new();
    let first = executor.step(ExecutionEvent::Started);
    assert_eq!(first, ExecutionAction::Submit(executor.order()));
    loop {
        let action = executor.attempt(client);
        match action {
            ExecutionAction::Wait(delay) => {
                waits.push(delay);
                let next = executor.step(ExecutionEvent::DelayElapsed);
                assert_eq!(next, ExecutionAction::Submit(executor.order()));
            }
            other => return (waits, other),
        }
    }
}

fn one_second() -> RetryDelay {
    RetryDelay { nanos: 1_000_000_000 }
}

fn aapl(strategy_id: u128) -> AlertData {
    AlertData {
        ticker: String::from("AAPL"),
        timeframe: String::from("5m"),
        exchange: String::from("NASDAQ"),
        alert_type: AlertType::Entry,
        bar: Bar {
            time: 1_700_000_000,
            open: FixedDecimal { mantissa: 15000, scale: 2 },
            high: FixedDecimal { mantissa: 15100, scale: 2 },
            low: FixedDecimal { mantissa: 14950, scale: 2 },
            close: FixedDecimal { mantissa: 15075, scale: 2 },
            volume: 10000,
        },
        time: 1_700_000_060,
        strategy_id,
    }
}

fn strategy(id: u128, retries: u8) -> Strategy {
    Strategy {
        id,
        name: String::from("s"),
        enabled: true,
        broker: Broker::Alpaca,
        max_event_retries: retries,
        event_retry_delay: one_second(),
    }
}

#[test]
fn fresh_executor_is_pending() {
    let executor = TradeExecutor::new(Order { id: 1 }, 2, one_second());
    assert_eq!(executor.state(), ExecutionState::Pending);
    assert_eq!(executor.order(), Order { id: 1 });
    assert_eq!(executor.max_retries(), 2);
    assert_eq!(executor.retry_delay(), one_second());
    assert_eq!(executor.failures(), 0);
    assert_eq!(executor.attempts(), 0);
    assert!(!executor.is_terminal());
}

#[test]
fn steps_follow_the_state_diagram() {
    let order = Order { id: 77 };
    let mut executor = TradeExecutor::new(order, 1, RetryDelay { nanos: 250_000_000 });
    assert_eq!(executor.step(ExecutionEvent::Started), ExecutionAction::Submit(order));
    assert_eq!(executor.state(), ExecutionState::Executing);
    assert_eq!(executor.attempts(), 1);
    assert_eq!(
        executor.step(ExecutionEvent::AttemptFailed),
        ExecutionAction::Wait(RetryDelay { nanos: 250_000_000 })
    );
    assert_eq!(executor.state(), ExecutionState::RetryScheduled);
    assert_eq!(executor.failures(), 1);
    assert_eq!(executor.attempts(), 1);
    assert_eq!(executor.step(ExecutionEvent::DelayElapsed), ExecutionAction::Submit(order));
    assert_eq!(executor.state(), ExecutionState::Executing);
    assert_eq!(executor.attempts(), 2);
    assert_eq!(
        executor.step(ExecutionEvent::AttemptFailed),
        ExecutionAction::ReportFailure(TradeError::MaxRetriesReached(order))
    );
    assert_eq!(executor.state(), ExecutionState::Failed);
    assert_eq!(executor.failures(), 2);
    assert_eq!(executor.attempts(), 2);
    assert!(executor.is_terminal());
}

#[test]
fn events_that_do_not_apply_change_nothing() {
    let order = Order { id: 5 };
    let mut executor = TradeExecutor::new(order, 3, one_second());
    assert_eq!(executor.step(ExecutionEvent::AttemptFailed), ExecutionAction::Nothing);
    assert_eq!(executor.step(ExecutionEvent::AttemptSucceeded), ExecutionAction::Nothing);
    assert_eq!(executor.step(ExecutionEvent::DelayElapsed), ExecutionAction::Nothing);
    assert_eq!(executor.state(), ExecutionState::Pending);
    assert_eq!(executor.failures(), 0);
    executor.step(ExecutionEvent::Started);
    assert_eq!(executor.step(ExecutionEvent::Started), ExecutionAction::Nothing);
    assert_eq!(executor.step(ExecutionEvent::DelayElapsed), ExecutionAction::Nothing);
    assert_eq!(executor.state(), ExecutionState::Executing);
    executor.step(ExecutionEvent::AttemptFailed);
    assert_eq!(executor.step(ExecutionEvent::AttemptFailed), ExecutionAction::Nothing);
    assert_eq!(executor.step(ExecutionEvent::Started), ExecutionAction::Nothing);
    assert_eq!(executor.state(), ExecutionState::RetryScheduled);
    assert_eq!(executor.failures(), 1);
}

#[test]
fn terminal_states_are_never_left() {
    let mut won = TradeExecutor::new(Order { id: 5 }, 3, one_second());
    won.step(ExecutionEvent::Started);
    assert_eq!(won.step(ExecutionEvent::AttemptSucceeded), ExecutionAction::ReportSuccess);
    let mut lost = TradeExecutor::new(Order { id: 6 }, 0, one_second());
    lost.step(ExecutionEvent::Started);
    lost.step(ExecutionEvent::AttemptFailed);
    let events = [
        ExecutionEvent::Started,
        ExecutionEvent::AttemptSucceeded,
        ExecutionEvent::AttemptFailed,
        ExecutionEvent::DelayElapsed,
    ];
    for event in events {
        assert_eq!(won.step(event), ExecutionAction::Nothing);
        assert_eq!(won.state(), ExecutionState::Succeeded);
        assert_eq!(won.attempts(), 1);
        assert_eq!(lost.step(event), ExecutionAction::Nothing);
        assert_eq!(lost.state(), ExecutionState::Failed);
        assert_eq!(lost.attempts(), 1);
    }
    let idle = Flaky::new(6, 0);
    assert_eq!(lost.attempt(&idle), ExecutionAction::Nothing);
    assert!(idle.submitted.borrow().is_empty());
}

#[test]
fn outcome_event_reads_the_broker_answer() {
    assert_eq!(TradeExecutor::outcome_event(&Ok(())), ExecutionEvent::AttemptSucceeded);
    assert_eq!(
        TradeExecutor::outcome_event(&Err(TradeError::Broker(String::from("down")))),
        ExecutionEvent::AttemptFailed
    );
}

#[test]
fn attempt_makes_no_call_before_the_start() {
    let client = Flaky::new(1, 0);
    let mut executor = TradeExecutor::new(Order { id: 1 }, 2, one_second());
    assert_eq!(executor.attempt(&client), ExecutionAction::Nothing);
    assert_eq!(executor.state(), ExecutionState::Pending);
    assert!(client.submitted.borrow().is_empty());
}

#[test]
fn k_failures_within_budget_succeed_after_k_plus_one_attempts() {
    for n in [0u8, 1, 2, 5, 255] {
        for k in 0..=(n as u32) {
            let client = Flaky::new(9, k);
            let mut executor = TradeExecutor::new(Order { id: 9 }, n, one_second());
            let (waits, last) = drive(&mut executor, &client);
            assert_eq!(last, ExecutionAction::ReportSuccess);
            assert_eq!(executor.state(), ExecutionState::Succeeded);
            assert_eq!(executor.attempts() as u32, k + 1);
            assert_eq!(client.submitted.borrow().len() as u32, k + 1);
            assert_eq!(waits.len() as u32, k);
        }
    }
}

#[test]
fn more_failures_than_budget_fail_after_n_plus_one_attempts() {
    for n in [0u8, 1, 2, 5, 255] {
        for extra in [1u32, 2, 10] {
            let client = Flaky::new(9, n as u32 + extra);
            let mut executor = TradeExecutor::new(Order { id: 9 }, n, one_second());
            let (waits, last) = drive(&mut executor, &client);
            assert_eq!(last, ExecutionAction::ReportFailure(TradeError::MaxRetriesReached(Order { id: 9 })));
            assert_eq!(executor.state(), ExecutionState::Failed);
            assert_eq!(executor.attempts() as u32, n as u32 + 1);
            assert_eq!(client.submitted.borrow().len() as u32, n as u32 + 1);
            assert_eq!(waits.len() as u32, n as u32);
        }
    }
}

#[test]
fn every_wait_is_the_configured_delay() {
    let delay = RetryDelay { nanos: 1_500_000_000 };
    let client = Flaky::new(3, 4);
    let mut executor = TradeExecutor::new(Order { id: 3 }, 4, delay);
    let (waits, last) = drive(&mut executor, &client);
    assert_eq!(last, ExecutionAction::ReportSuccess);
    assert_eq!(waits, vec![delay, delay, delay, delay]);
}

#[test]
fn every_attempt_submits_the_same_order() {
    let client = Flaky::new(0xabc, 3);
    let mut executor = TradeExecutor::new(Order { id: 0xabc }, 3, one_second());
    drive(&mut executor, &client);
    assert_eq!(*client.submitted.borrow(), vec![Order { id: 0xabc }; 4]);
    assert_eq!(executor.order(), Order { id: 0xabc });
}

#[test]
fn two_executions_do_not_interfere() {
    let calm = Flaky::new(1, 1);
    let stormy = Flaky::new(2, 9);
    let mut first = TradeExecutor::new(Order { id: 1 }, 2, one_second());
    let mut second = TradeExecutor::new(Order { id: 2 }, 1, RetryDelay { nanos: 5 });
    first.step(ExecutionEvent::Started);
    second.step(ExecutionEvent::Started);
    assert_eq!(first.attempt(&calm), ExecutionAction::Wait(one_second()));
    assert_eq!(second.attempt(&stormy), ExecutionAction::Wait(RetryDelay { nanos: 5 }));
    second.step(ExecutionEvent::DelayElapsed);
    first.step(ExecutionEvent::DelayElapsed);
    assert_eq!(
        second.attempt(&stormy),
        ExecutionAction::ReportFailure(TradeError::MaxRetriesReached(Order { id: 2 }))
    );
    assert_eq!(first.attempt(&calm), ExecutionAction::ReportSuccess);
    assert_eq!(first.state(), ExecutionState::Succeeded);
    assert_eq!(first.attempts(), 2);
    assert_eq!(second.state(), ExecutionState::Failed);
    assert_eq!(second.attempts(), 2);
    assert_eq!(*calm.submitted.borrow(), vec![Order { id: 1 }; 2]);
    assert_eq!(*stormy.submitted.borrow(), vec![Order { id: 2 }; 2]);
}

#[test]
fn alert_with_a_working_broker_succeeds_without_retries() {
    let s: u128 = 0x0123456789abcdef0123456789abcdef;
    let table = StrategyManager::new(vec![strategy(s, 2)]);
    let plan = receive_webhook_alert(1, aapl(s), &table);
    assert_eq!(plan.record.ticker, "AAPL");
    assert_eq!(plan.record.bar_close, FixedDecimal { mantissa: 15075, scale: 2 });
    let signal = plan.dispatch.expect("signal");
    let client = Flaky::new(11, 0);
    let mut executor = table.handle_event(&client, &signal.alert).expect("executor");
    let (waits, last) = drive(&mut executor, &client);
    assert_eq!(last, ExecutionAction::ReportSuccess);
    assert_eq!(executor.state(), ExecutionState::Succeeded);
    assert_eq!(client.submitted.borrow().len(), 1);
    assert!(waits.is_empty());
    assert_eq!(executor.failures(), 0);
}

#[test]
fn alert_with_no_retries_and_a_failing_broker_fails_after_one_attempt() {
    let s: u128 = 0x0123456789abcdef0123456789abcdef;
    let table = StrategyManager::new(vec![strategy(s, 0)]);
    let plan = receive_webhook_alert(1, aapl(s), &table);
    let signal = plan.dispatch.expect("signal");
    let client = Flaky::new(11, u32::MAX);
    let mut executor = table.handle_event(&client, &signal.alert).expect("executor");
    let (waits, last) = drive(&mut executor, &client);
    assert_eq!(last, ExecutionAction::ReportFailure(TradeError::MaxRetriesReached(Order { id: 11 })));
    assert_eq!(executor.state(), ExecutionState::Failed);
    assert_eq!(executor.attempts(), 1);
    assert_eq!(client.submitted.borrow().len(), 1);
    assert!(waits.is_empty());
}
