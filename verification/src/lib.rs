//! Trade-signal dispatch: alerts are matched to configured strategies, and each
//! strategy's order is driven through a broker with a bounded number of retries.

pub mod api;
pub mod app_config;
pub mod events;
pub mod retry;
pub mod strategy_manager;
pub mod trade_executor;
