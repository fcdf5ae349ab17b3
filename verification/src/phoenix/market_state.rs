//! Fixed-layout units of the venue's market accounts. The venue counts
//! quantities in lots and prices in ticks; each market fixes the conversion
//! factors between lots, ticks and whole units.

use vstd::prelude::*;

verus! {

/// A quantity of quote-currency lots.
#[derive(Debug, Clone, Copy, PartialEq, Eq, Structural, Default)]
pub struct QuoteLots {
    inner: u64,
}

/// A quantity of base-currency lots.
#[derive(Debug, Clone, Copy, PartialEq, Eq, Structural, Default)]
pub struct BaseLots {
    inner: u64,
}

/// A price expressed in market ticks.
#[derive(Debug, Clone, Copy, PartialEq, Eq, Structural, Default)]
pub struct Ticks {
    inner: u64,
}

/// The identity of a resting order.
#[derive(Debug, Clone, Copy, PartialEq, Eq, Structural, Default)]
pub struct FIFOOrderId {
    /// The price of the order, in ticks. Each market has a designated tick
    /// size (some number of quote lots per base unit) that is used to
    /// convert the price to ticks.
    pub price_in_ticks: Ticks,
    /// This is the unique identifier of the order, which is used to
    /// determine the side of the order; it is derived from the market's
    /// sequence number. The leading bit tells the side apart: 0 indicates an
    /// ask, 1 a bid (the sequence number of a bid has its bits inverted).
    pub order_sequence_number: u64,
}

/// One maker's resting order.
#[derive(Clone, Copy, Debug)]
pub struct PhoenixOrder {
    pub num_base_lots: u64,
    /// The maker's account key.
    pub maker_id: [u8; 32],
}

/// One trader's balances on the market.
#[derive(Debug, Clone, Copy, PartialEq, Eq, Structural, Default)]
pub struct TraderState {
    pub quote_lots_locked: QuoteLots,
    pub quote_lots_free: QuoteLots,
    pub base_lots_locked: BaseLots,
    pub base_lots_free: BaseLots,
}

} // verus!
