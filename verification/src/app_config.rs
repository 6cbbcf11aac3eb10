//! The process configuration, as plain values.

use vstd::prelude::*;
use crate::api::alert::FixedDecimal;
use crate::api::objects::Broker;
use crate::retry::RetryDelay;
use crate::strategy_manager::{StrategyManager, StrategyManagerError};

verus! {

/// Where the alert log is kept.
#[derive(Debug)]
pub struct Database {
    pub url: String,
}

/// Settings shared by every strategy. The retry delay is in seconds.
#[derive(Debug)]
pub struct Common {
    pub api_key: String,
    pub trade_signal_max_retries: u8,
    pub trade_signal_retry_delay: FixedDecimal,
}

/// A strategy as the configuration file lists it.
#[derive(Debug)]
pub struct Strategy {
    pub id: u128,
    pub name: String,
    pub is_active: bool,
}

/// Everything the process is configured with.
#[derive(Debug)]
pub struct AppConfig {
    pub database: Database,
    pub common: Common,
    pub strategies: Vec<Strategy>,
}

impl AppConfig {
    /// The table entry for the listed strategy at position `at`: its own
    /// identifier, name and switch, and the retry policy shared by all, with
    /// `delay` as the wait.
    pub open spec fn entry(self, at: int, delay: RetryDelay) -> crate::strategy_manager::Strategy {
        crate::strategy_manager::Strategy {
            id: self.strategies[at].id,
            name: self.strategies[at].name,
            enabled: self.strategies[at].is_active,
            broker: Broker::Alpaca,
            max_event_retries: self.common.trade_signal_max_retries,
            event_retry_delay: delay,
        }
    }

    /// `table` lists the configured strategies in their order, each with the
    /// shared retry policy and `delay` as the wait.
    pub open spec fn lists(self, table: Seq<crate::strategy_manager::Strategy>, delay: RetryDelay) -> bool {
        &&& table.len() == self.strategies.len()
        &&& forall|at: int| 0 <= at < table.len() ==> #[trigger] table[at] == self.entry(at, delay)
    }

    /// Builds the strategy table that the configuration describes.
    ///
    /// Fails with `ConfigError` exactly when the configured retry delay is not
    /// a whole number of nanoseconds below 2^64. Otherwise the table lists the
    /// configured strategies in their order, and every one waits exactly the
    /// configured delay between submissions.
    pub fn strategy_table(&self) -> (result: Result<StrategyManager, StrategyManagerError>)
        ensures
            match result {
                Ok(table) => exists|delay: RetryDelay|
                    #[trigger] delay.is_exactly(self.common.trade_signal_retry_delay) && self.lists(
                        table@,
                        delay,
                    ),
                Err(err) => {
                    &&& err matches StrategyManagerError::ConfigError(why) && why@
                        == "trade_signal_retry_delay is not a whole number of nanoseconds"@
                    &&& forall|delay: RetryDelay|
                        !#[trigger] delay.is_exactly(self.common.trade_signal_retry_delay)
                },
            },
    {
        let delay = match RetryDelay::from_seconds(self.common.trade_signal_retry_delay) {
            Some(delay) => delay,
            None => {
                return Err(
                    StrategyManagerError::ConfigError(
                        String::from_str(
                            "trade_signal_retry_delay is not a whole number of nanoseconds",
                        ),
                    ),
                );
            },
        };
        let mut listed: Vec<crate::strategy_manager::Strategy> = Vec::new();
        let mut at: usize = 0;
        while at < self.strategies.len()
            invariant
                at <= self.strategies.len(),
                listed@.len() == at,
                forall|i: int| 0 <= i < at ==> #[trigger] listed@[i] == self.entry(i, delay),
            decreases self.strategies.len() - at,
        {
            let source = &self.strategies[at];
            listed.push(
                crate::strategy_manager::Strategy {
                    id: source.id,
                    name: source.name.clone(),
                    enabled: source.is_active,
                    broker: Broker::Alpaca,
                    max_event_retries: self.common.trade_signal_max_retries,
                    event_retry_delay: delay,
                },
            );
            at += 1;
        }
        let table = StrategyManager::new(listed);
        proof {
            assert(self.lists(table@, delay));
        }
        Ok(table)
    }
}

} // verus!
