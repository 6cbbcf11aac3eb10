//! The strategy table, the orders that strategies place, and the capabilities
//! that a broker client offers.

use vstd::prelude::*;
use crate::api::alert::AlertData;
use crate::api::objects::Broker;
use crate::events::HandleEventError;
use crate::retry::RetryDelay;
use crate::trade_executor::TradeExecutor;

verus! {

/// The sixteen lower-case hexadecimal digits, in their order.
pub open spec fn hex_digits() -> Seq<char> {
    seq!['0', '1', '2', '3', '4', '5', '6', '7', '8', '9', 'a', 'b', 'c', 'd', 'e', 'f']
}

/// The hexadecimal digit of `id` at position `at` of its thirty-two, counted
/// from the most significant.
pub open spec fn hex_digit_at(id: u128, at: int) -> char {
    hex_digits()[((id >> ((4 * (31 - at)) as u128)) & 0xf) as int]
}

/// The hyphenated form of the identifier with the 128-bit value `id`: its
/// thirty-two lower-case hexadecimal digits, most significant first, in
/// groups of 8, 4, 4, 4 and 12 with a hyphen between two groups.
pub open spec fn hyphenated_text(id: u128) -> Seq<char> {
    Seq::new(
        36,
        |at: int|
            if at == 8 || at == 13 || at == 18 || at == 23 {
                '-'
            } else if at < 8 {
                hex_digit_at(id, at)
            } else if at < 13 {
                hex_digit_at(id, at - 1)
            } else if at < 18 {
                hex_digit_at(id, at - 2)
            } else if at < 23 {
                hex_digit_at(id, at - 3)
            } else {
                hex_digit_at(id, at - 4)
            },
    )
}

/// Prints an identifier as `uuid::Uuid` does. `Uuid::from_u128` takes the
/// big-endian bytes of `id`, and the identifier's `Display` writes them as
/// lower-case hexadecimal digits, two to a byte, with hyphens after the
/// digits 8, 12, 16 and 20: the hyphenated form.
#[verifier::external_body]
pub(crate) fn hyphenated(id: u128) -> (text: String)
    ensures
        text@ == hyphenated_text(id),
{
    uuid::Uuid::from_u128(id).to_string()
}

/// One trade intent, as a broker is to see it.
#[derive(Clone, Copy, Debug, PartialEq, Eq, Structural)]
pub struct Order {
    pub id: u128,
}

impl Order {
    /// The order as log lines show it: its identifier in hyphenated form,
    /// between `{ id: ` and ` }`.
    pub fn to_text(&self) -> (text: String)
        ensures
            text@ == "{ id: "@ + hyphenated_text(self.id) + " }"@,
    {
        let id = hyphenated(self.id);
        String::from_str("{ id: ").concat(id.as_str()).concat(" }")
    }
}

/// Why an order did not go through.
#[derive(Debug, PartialEq, Eq)]
pub enum TradeError {
    /// Every allowed submission of the order failed.
    MaxRetriesReached(Order),
    /// The broker refused or could not be reached; the text is the broker's.
    Broker(String),
}

/// What a broker backend can do. Nothing is promised of an implementation:
/// each call may succeed or fail as the broker decides.
pub trait TradingClient {
    fn create_order(&self, input: &AlertData) -> Order;

    fn execute_order(&self, order: &Order) -> Result<(), TradeError>;

    fn cancel_order(&self, order: &Order) -> Result<(), TradeError>;

    fn get_order(&self, order: &Order) -> Result<(), TradeError>;

    fn get_orders(&self) -> Result<(), TradeError>;

    fn get_positions(&self) -> Result<(), TradeError>;

    fn get_account(&self) -> Result<(), TradeError>;
}

/// A configured strategy: which broker it trades through and how often a
/// failed submission is repeated.
#[derive(Debug)]
pub struct Strategy {
    pub id: u128,
    pub name: String,
    pub enabled: bool,
    pub broker: Broker,
    pub max_event_retries: u8,
    pub event_retry_delay: RetryDelay,
}

impl Clone for Strategy {
    fn clone(&self) -> (copy: Self)
        ensures
            copy == *self,
    {
        Strategy {
            id: self.id,
            name: self.name.clone(),
            enabled: self.enabled,
            broker: self.broker,
            max_event_retries: self.max_event_retries,
            event_retry_delay: self.event_retry_delay,
        }
    }
}

/// Why a strategy could not be loaded or resolved.
#[derive(Debug, PartialEq, Eq)]
pub enum StrategyManagerError {
    /// The strategy file could not be read; the text says why.
    ConfigError(String),
    /// The broker client could not be set up; the text says why.
    AlpacaClientError(String),
    /// No strategy has the identifier, given in hyphenated form.
    UnknownStrategy(String),
    /// The strategy with the identifier, given in hyphenated form, is switched off.
    StrategyDisabled(String),
    /// The alert names an exchange that no broker serves.
    UnknownExchange(String),
}

impl StrategyManagerError {
    /// The error in words: a loading error in the words of what failed, a
    /// resolution error as a fixed phrase, ` - ` and the name it could not
    /// resolve.
    pub open spec fn text_of(self) -> Seq<char> {
        match self {
            StrategyManagerError::ConfigError(why) => why@,
            StrategyManagerError::AlpacaClientError(why) => why@,
            StrategyManagerError::UnknownStrategy(id) => "Unknown strategy - "@ + id@,
            StrategyManagerError::StrategyDisabled(id) => "Strategy disabled - "@ + id@,
            StrategyManagerError::UnknownExchange(name) => "Unknown exchange - "@ + name@,
        }
    }

    /// The error in words, for a log line.
    pub fn to_text(&self) -> (text: String)
        ensures
            text@ == self.text_of(),
    {
        match self {
            StrategyManagerError::ConfigError(why) => why.clone(),
            StrategyManagerError::AlpacaClientError(why) => why.clone(),
            StrategyManagerError::UnknownStrategy(id) => String::from_str(
                "Unknown strategy - ",
            ).concat(id.as_str()),
            StrategyManagerError::StrategyDisabled(id) => String::from_str(
                "Strategy disabled - ",
            ).concat(id.as_str()),
            StrategyManagerError::UnknownExchange(name) => String::from_str(
                "Unknown exchange - ",
            ).concat(name.as_str()),
        }
    }
}

/// The strategies of the process, in the order in which they were configured.
/// Nothing changes the table once it is built.
pub struct StrategyManager {
    strategies: Vec<Strategy>,
}

impl View for StrategyManager {
    type V = Seq<Strategy>;

    closed spec fn view(&self) -> Seq<Strategy> {
        self.strategies@
    }
}

impl StrategyManager {
    /// Position `at` holds the first strategy with the identifier `id`.
    pub open spec fn first_at(self, at: int, id: u128) -> bool {
        &&& 0 <= at < self@.len()
        &&& self@[at].id == id
        &&& forall|before: int| 0 <= before < at ==> (#[trigger] self@[before]).id != id
    }

    /// Some strategy of the table has the identifier `id`.
    pub open spec fn knows(self, id: u128) -> bool {
        exists|at: int| 0 <= at < self@.len() && (#[trigger] self@[at]).id == id
    }

    /// The first strategy with the identifier `id`, if the table has one.
    pub open spec fn lookup(self, id: u128) -> Option<Strategy> {
        if exists|at: int| self.first_at(at, id) {
            Some(self@[choose|at: int| self.first_at(at, id)])
        } else {
            None
        }
    }

    /// The table over `strategies`, in their order.
    pub fn new(strategies: Vec<Strategy>) -> (table: StrategyManager)
        ensures
            table@ == strategies@,
    {
        StrategyManager { strategies }
    }

    /// The number of strategies in the table.
    pub fn len(&self) -> (n: usize)
        ensures
            n == self@.len(),
    {
        self.strategies.len()
    }

    /// The first strategy with the identifier `strategy_id`; `None` exactly
    /// when no strategy of the table has it.
    pub fn find_strategy(&self, strategy_id: u128) -> (found: Option<&Strategy>)
        ensures
            found.is_some() == self.knows(strategy_id),
            match found {
                Some(strategy) => self.lookup(strategy_id) == Some(*strategy),
                None => self.lookup(strategy_id).is_none(),
            },
    {
        let mut at: usize = 0;
        while at < self.strategies.len()
            invariant
                at <= self.strategies.len(),
                forall|before: int| 0 <= before < at ==> (#[trigger] self@[before]).id != strategy_id,
            decreases self.strategies.len() - at,
        {
            if self.strategies[at].id == strategy_id {
                proof {
                    assert(self.first_at(at as int, strategy_id));
                    let chosen = choose|c: int| self.first_at(c, strategy_id);
                    assert(chosen == at);
                }
                return Some(&self.strategies[at]);
            }
            at += 1;
        }
        proof {
            assert forall|c: int| !self.first_at(c, strategy_id) by {}
        }
        None
    }

    /// Resolves the strategy that `event` names and has `client` build the one
    /// order that every submission for this event will carry.
    ///
    /// Fails with `UnknownStrategy` exactly when the table has no strategy with
    /// the event's id, and with `StrategyDisabled` exactly when the first such
    /// strategy is not enabled. Otherwise the executor that comes back has made
    /// no submission yet and follows that strategy's retry policy.
    pub fn handle_event<C: TradingClient>(&self, client: &C, event: &AlertData) -> (result: Result<
        TradeExecutor,
        HandleEventError,
    >)
        ensures
            match self.lookup(event.strategy_id) {
                None => result matches Err(
                    HandleEventError::Strategy(StrategyManagerError::UnknownStrategy(text)),
                ) && text@ == hyphenated_text(event.strategy_id),
                Some(strategy) => if strategy.enabled {
                    result matches Ok(executor) && executor@.is_fresh_for(strategy)
                } else {
                    result matches Err(
                        HandleEventError::Strategy(StrategyManagerError::StrategyDisabled(text)),
                    ) && text@ == hyphenated_text(event.strategy_id)
                },
            },
    {
        match self.find_strategy(event.strategy_id) {
            None => Err(
                HandleEventError::Strategy(
                    StrategyManagerError::UnknownStrategy(hyphenated(event.strategy_id)),
                ),
            ),
            Some(strategy) => {
                if strategy.enabled {
                    let order = client.create_order(event);
                    Ok(
                        TradeExecutor::new(
                            order,
                            strategy.max_event_retries,
                            strategy.event_retry_delay,
                        ),
                    )
                } else {
                    Err(
                        HandleEventError::Strategy(
                            StrategyManagerError::StrategyDisabled(hyphenated(event.strategy_id)),
                        ),
                    )
                }
            },
        }
    }
}

/// Looking an identifier up finds nothing exactly when no strategy of the
/// table has it; what it finds is a strategy of the table with that
/// identifier, and no strategy before it has the same one.
pub proof fn law_lookup_finds_the_first(table: StrategyManager, id: u128)
    ensures
        table.lookup(id).is_none() <==> !table.knows(id),
        table.lookup(id).is_some() ==> exists|at: int|
            table.first_at(at, id) && table.lookup(id) == Some(table@[at]),
        forall|at: int, other: int|
            table.first_at(at, id) && table.first_at(other, id) ==> at == other,
{
    if table.knows(id) {
        let at = choose|at: int| 0 <= at < table@.len() && (#[trigger] table@[at]).id == id;
        lemma_first_exists(table, id, at);
    }
    if table.lookup(id).is_some() {
        let at = choose|at: int| table.first_at(at, id);
        assert(table.first_at(at, id) && table.lookup(id) == Some(table@[at]));
    }
}

proof fn lemma_first_exists(table: StrategyManager, id: u128, at: int)
    requires
        0 <= at < table@.len(),
        table@[at].id == id,
    ensures
        exists|first: int| table.first_at(first, id),
    decreases at,
{
    if exists|before: int| 0 <= before < at && (#[trigger] table@[before]).id == id {
        let before = choose|before: int| 0 <= before < at && (#[trigger] table@[before]).id == id;
        lemma_first_exists(table, id, before);
    } else {
        assert(table.first_at(at, id));
    }
}

} // verus!
