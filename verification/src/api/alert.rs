//! Alerts as they arrive, the signal built from one, and the row that records one.

use vstd::prelude::*;
use crate::strategy_manager::{hyphenated, hyphenated_text, Strategy, StrategyManager, StrategyManagerError};
use crate::api::objects::Broker;

verus! {

/// What an alert asks for.
#[derive(Clone, Copy, Debug, PartialEq, Eq, Structural)]
pub enum AlertType {
    Entry,
    Exit,
    Scale,
}

/// A fixed-precision decimal: the number `mantissa / 10^scale`.
#[derive(Clone, Copy, Debug, PartialEq, Eq, Structural)]
pub struct FixedDecimal {
    pub mantissa: i128,
    pub scale: u32,
}

/// One bar of market data. `time` is in seconds since the Unix epoch.
#[derive(Clone, Copy, Debug, PartialEq, Eq, Structural)]
pub struct Bar {
    pub time: i64,
    pub open: FixedDecimal,
    pub high: FixedDecimal,
    pub low: FixedDecimal,
    pub close: FixedDecimal,
    pub volume: u64,
}

/// An alert as the signal source sent it. `time` is when it fired, in seconds
/// since the Unix epoch.
#[derive(Debug)]
pub struct AlertData {
    pub ticker: String,
    pub timeframe: String,
    pub exchange: String,
    pub alert_type: AlertType,
    pub bar: Bar,
    pub time: i64,
    pub strategy_id: u128,
}

impl Clone for AlertData {
    fn clone(&self) -> (copy: Self)
        ensures
            copy == *self,
    {
        AlertData {
            ticker: self.ticker.clone(),
            timeframe: self.timeframe.clone(),
            exchange: self.exchange.clone(),
            alert_type: self.alert_type,
            bar: self.bar,
            time: self.time,
            strategy_id: self.strategy_id,
        }
    }
}

/// The row appended to the alert log for one alert.
#[derive(Debug)]
pub struct AlertRecord {
    pub alert_id: u128,
    pub ticker: String,
    pub timeframe: String,
    pub exchange: String,
    pub alert_type: AlertType,
    pub bar_time: i64,
    pub bar_open: FixedDecimal,
    pub bar_high: FixedDecimal,
    pub bar_low: FixedDecimal,
    pub bar_close: FixedDecimal,
    pub bar_volume: u64,
    pub alert_fire_time: i64,
}

impl AlertRecord {
    /// The row for `alert` under the identifier `alert_id`.
    pub open spec fn of(alert_id: u128, alert: AlertData) -> AlertRecord {
        AlertRecord {
            alert_id,
            ticker: alert.ticker,
            timeframe: alert.timeframe,
            exchange: alert.exchange,
            alert_type: alert.alert_type,
            bar_time: alert.bar.time,
            bar_open: alert.bar.open,
            bar_high: alert.bar.high,
            bar_low: alert.bar.low,
            bar_close: alert.bar.close,
            bar_volume: alert.bar.volume,
            alert_fire_time: alert.time,
        }
    }

    /// Builds the row for `alert` under the identifier `alert_id`; every field
    /// of the alert but the strategy is carried over unchanged.
    pub fn from_alert(alert_id: u128, alert: &AlertData) -> (record: AlertRecord)
        ensures
            record == Self::of(alert_id, *alert),
    {
        AlertRecord {
            alert_id,
            ticker: alert.ticker.clone(),
            timeframe: alert.timeframe.clone(),
            exchange: alert.exchange.clone(),
            alert_type: alert.alert_type,
            bar_time: alert.bar.time,
            bar_open: alert.bar.open,
            bar_high: alert.bar.high,
            bar_low: alert.bar.low,
            bar_close: alert.bar.close,
            bar_volume: alert.bar.volume,
            alert_fire_time: alert.time,
        }
    }
}

/// An alert bound to the enabled strategy that it names.
#[derive(Debug)]
pub struct TradeSignal {
    pub alert: AlertData,
    pub strategy: Strategy,
}

impl TradeSignal {
    /// `result` is what binding `alert` over `table` must give: the signal with
    /// the first strategy that has the alert's strategy id where that strategy
    /// is enabled, `StrategyDisabled` where it is not, `UnknownStrategy` where
    /// there is none; both errors carry the id in its hyphenated form.
    pub open spec fn resolves(
        alert: AlertData,
        table: StrategyManager,
        result: Result<TradeSignal, StrategyManagerError>,
    ) -> bool {
        match table.lookup(alert.strategy_id) {
            None => result matches Err(StrategyManagerError::UnknownStrategy(text)) && text@
                == hyphenated_text(alert.strategy_id),
            Some(strategy) => if strategy.enabled {
                result == Ok::<TradeSignal, StrategyManagerError>(TradeSignal { alert, strategy })
            } else {
                result matches Err(StrategyManagerError::StrategyDisabled(text)) && text@
                    == hyphenated_text(alert.strategy_id)
            },
        }
    }

    /// Binds `alert` to the strategy it names.
    ///
    /// Fails with `UnknownStrategy` exactly when no strategy of the table has
    /// the alert's strategy id, and with `StrategyDisabled` exactly when the
    /// first strategy with that id is not enabled; both errors carry the id in
    /// its hyphenated form. Otherwise the signal holds the alert and that
    /// strategy, unchanged.
    pub fn from_alert_data(alert: AlertData, table: &StrategyManager) -> (result: Result<
        TradeSignal,
        StrategyManagerError,
    >)
        ensures
            Self::resolves(alert, *table, result),
    {
        match table.find_strategy(alert.strategy_id) {
            None => Err(StrategyManagerError::UnknownStrategy(hyphenated(alert.strategy_id))),
            Some(strategy) => {
                if strategy.enabled {
                    Ok(TradeSignal { strategy: strategy.clone(), alert })
                } else {
                    Err(StrategyManagerError::StrategyDisabled(hyphenated(alert.strategy_id)))
                }
            },
        }
    }

    /// The broker that the signal's strategy trades through.
    pub fn broker(&self) -> (broker: Broker)
        ensures
            broker == self.strategy.broker,
    {
        self.strategy.broker
    }
}

} // verus!
