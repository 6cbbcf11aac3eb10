//! The decisions of the ingestion boundary: what is recorded for an alert,
//! whether it is dispatched, and how query parameters are read.

use vstd::prelude::*;
use crate::api::alert::{AlertData, AlertRecord, TradeSignal};
use crate::api::objects::{AssetClass, Broker};
use crate::strategy_manager::{StrategyManager, StrategyManagerError};

verus! {

/// The upper-case form that std gives the text `text`.
pub uninterp spec fn uppercase_text(text: Seq<char>) -> Seq<char>;

/// Upper-cases a text with `str::to_uppercase`, whose result depends on the
/// characters of the text alone.
#[verifier::external_body]
fn to_uppercase(text: &str) -> (upper: String)
    ensures
        upper@ == uppercase_text(text@),
{
    text.to_uppercase()
}

/// Selects the broker that a query is about.
#[derive(Debug)]
pub struct BrokerQuery {
    pub broker: Broker,
}

/// Selects the asset class that a query is about.
#[derive(Debug)]
pub struct AssetTypeQuery {
    pub class: AssetClass,
}

/// Selects one asset by its symbol, in any letter case.
#[derive(Debug)]
pub struct SymbolQuery {
    pub symbol: String,
}

impl SymbolQuery {
    /// The symbol as brokers list it: in upper case.
    pub fn listed_symbol(&self) -> (symbol: String)
        ensures
            symbol@ == uppercase_text(self.symbol@),
    {
        to_uppercase(self.symbol.as_str())
    }
}

/// What the ingestion boundary does with one alert: the row to append to the
/// alert log, and the signal to dispatch once the row is written, or why
/// there is none.
#[derive(Debug)]
pub struct Ingestion {
    pub record: AlertRecord,
    pub dispatch: Result<TradeSignal, StrategyManagerError>,
}

/// Decides what to record and what to dispatch for `alert`, which is stored
/// under the identifier `alert_id`.
///
/// Every alert is recorded, with its fields unchanged, whether or not its
/// strategy resolves. A signal is dispatched exactly when the first strategy
/// with the alert's id is enabled; otherwise `dispatch` holds
/// `UnknownStrategy` or `StrategyDisabled` and no order is to be created.
pub fn receive_webhook_alert(alert_id: u128, alert: AlertData, table: &StrategyManager) -> (plan:
    Ingestion)
    ensures
        plan.record == AlertRecord::of(alert_id, alert),
        TradeSignal::resolves(alert, *table, plan.dispatch),
{
    let record = AlertRecord::from_alert(alert_id, &alert);
    let dispatch = TradeSignal::from_alert_data(alert, table);
    Ingestion { record, dispatch }
}

} // verus!
