//! Best-price summaries that adapters publish to the orchestrator.

use crate::TPrice;
use vstd::prelude::*;

verus! {

/// The venues this build knows about. Venues are finite and known at build
/// time, so a closed set of variants stands in for dynamic dispatch on names.
#[derive(Clone, Copy, Debug, PartialEq, Eq, Structural)]
pub enum VenueName {
    Bybit,
    Dexnow,
    Phoenix,
}

impl VenueName {
    /// The display name of the venue, as the adapters report it.
    pub fn as_str(&self) -> (r: &'static str)
        ensures
            *self is Bybit ==> r@ == "Bybit"@,
            *self is Dexnow ==> r@ == "DEXnow"@,
            *self is Phoenix ==> r@ == "Phoenix"@,
    {
        match self {
            VenueName::Bybit => "Bybit",
            VenueName::Dexnow => "DEXnow",
            VenueName::Phoenix => "Phoenix",
        }
    }
}

/// Best prices for a specific exchange. Either side is absent until the
/// venue's book has a level on it: an absent ask is treated as infinitely
/// expensive and an absent bid as worthless when scanning for opportunities.
#[derive(Clone, Copy, Debug, PartialEq, Eq, Structural)]
pub struct BestPrices {
    pub best_bid: Option<TPrice>,
    pub best_ask: Option<TPrice>,
}

/// Represents an update to the best prices of an exchange.
#[derive(Clone, Copy, Debug, PartialEq, Eq, Structural)]
pub struct ExchangeUpdate {
    pub exchange_name: VenueName,
    pub best_prices: BestPrices,
}

} // verus!
