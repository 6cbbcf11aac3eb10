//! Tags that select a broker backend and an asset class.

use vstd::prelude::*;

verus! {

/// The broker backends that a strategy can trade through.
#[derive(Clone, Copy, Debug, PartialEq, Eq, Structural)]
pub enum Broker {
    Alpaca,
}

/// The asset classes that a broker can be asked about.
#[derive(Clone, Copy, Debug, PartialEq, Eq, Structural)]
pub enum AssetClass {
    UsEquity,
    Crypto,
}

} // verus!
