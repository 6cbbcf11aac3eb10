//! What handling one event can fail with.

use vstd::prelude::*;
use crate::strategy_manager::{StrategyManagerError, TradeError};

verus! {

/// Why an event was not handled to the end.
#[derive(Debug, PartialEq, Eq)]
pub enum HandleEventError {
    /// The event's strategy could not be resolved.
    Strategy(StrategyManagerError),
    /// The order for the event did not go through.
    Trade(TradeError),
}

} // verus!
