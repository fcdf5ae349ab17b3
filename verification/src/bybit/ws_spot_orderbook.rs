//! The venue's order-book stream message: snapshot/delta updates keyed by a
//! cross sequence, with prices and sizes already scaled to integer ticks.

use crate::TPrice;
use crate::TVolume;
use vstd::prelude::*;

verus! {

/// Represents a price level in the order book.
///
/// The first element (index 0) is the price.
/// The second element (index 1) is the size (amount).
#[derive(Clone, Copy, Debug, PartialEq, Eq, Structural)]
pub struct PriceLevel(pub TPrice, pub TVolume);

impl PriceLevel {
    /// Returns the price of this price level.
    ///
    /// Bid price or Ask price.
    pub fn price(&self) -> (r: &TPrice)
        ensures
            *r == self.0,
    {
        &self.0
    }

    /// Returns the size (amount) at this price level.
    ///
    /// Bid size or Ask size.
    /// The delta data has size=0, which means that all quotations for this
    /// price have been filled or cancelled.
    pub fn size(&self) -> (r: &TVolume)
        ensures
            *r == self.1,
    {
        &self.1
    }
}

/// Represents the data of an order book update.
#[derive(Debug)]
pub struct OrderBookData {
    /// Symbol name.
    pub s: String,
    /// Bids. For `snapshot` stream, the element is sorted by price in
    /// descending order.
    pub b: Vec<PriceLevel>,
    /// Asks. For `snapshot` stream, the element is sorted by price in
    /// ascending order.
    pub a: Vec<PriceLevel>,
    /// Update ID. Is a sequence. Occasionally, you'll receive "u"=1, which
    /// is a snapshot data due to the restart of the service. So please
    /// overwrite your local orderbook.
    pub u: u64,
    /// Cross sequence.
    /// You can use this field to compare different levels orderbook data,
    /// and for the smaller seq, then it means the data is generated earlier.
    pub seq: u64,
}

/// One order-book stream message.
#[derive(Debug)]
pub struct OrderBookUpdate {
    /// Topic name.
    pub topic: String,
    /// The timestamp when the system generates this update message
    /// (milliseconds since the epoch).
    pub ts: i64,
    /// Data type: `snapshot` or `delta`.
    pub update_type: crate::order_book::UpdateType,
    /// The actual order book data.
    pub data: OrderBookData,
    /// The timestamp from the match engine when this orderbook data was
    /// produced (milliseconds since the epoch).
    pub cts: i64,
}

} // verus!
