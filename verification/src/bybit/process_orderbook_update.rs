//! Applies one stream message to the venue's book and derives the best-price
//! summary that is published to the orchestrator.

use crate::exchange_update::BestPrices;
use crate::exchange_update::ExchangeUpdate;
use crate::exchange_update::VenueName;
use crate::order_book::OrderBook;
use crate::order_book::UpdateModel;
use crate::order_book::VenueUpdate;
use crate::order_book::apply_spec;
use crate::order_book::is_best_ask_of;
use crate::order_book::is_best_bid_of;
use crate::TPrice;
use crate::TVolume;
use super::ws_spot_orderbook::OrderBookUpdate;
use super::ws_spot_orderbook::PriceLevel;
use vstd::prelude::*;

verus! {

/// The normalized form of one stream message: the venue's own kind tag and
/// cross sequence, the match-engine timestamp, and both change lists.
pub open spec fn venue_update_of(u: OrderBookUpdate) -> UpdateModel {
    UpdateModel {
        kind: u.update_type,
        sequence: u.data.seq,
        event_time: u.cts,
        bid_changes: u.data.b@.map_values(|l: PriceLevel| (l.0, l.1)),
        ask_changes: u.data.a@.map_values(|l: PriceLevel| (l.0, l.1)),
    }
}

/// Converts one side's levels into plain change pairs.
fn level_changes(levels: &Vec<PriceLevel>) -> (r: Vec<(TPrice, TVolume)>)
    ensures
        r@ == levels@.map_values(|l: PriceLevel| (l.0, l.1)),
{
    let mut r: Vec<(TPrice, TVolume)> = Vec::new();
    let mut i: usize = 0;
    while i < levels.len()
        invariant
            i <= levels@.len(),
            r@.len() == i,
            forall|j: int| 0 <= j < i ==> r@[j] == (levels@[j].0, levels@[j].1),
        decreases levels@.len() - i,
    {
        let l = levels[i];
        r.push((l.0, l.1));
        i = i + 1;
    }
    proof {
        assert(r@ =~= levels@.map_values(|l: PriceLevel| (l.0, l.1)));
    }
    r
}

/// Processes one stream message, per the book's own update semantics: a
/// snapshot replaces the book, a delta at or below the current sequence is
/// skipped as outdated, any other delta upserts its levels. On every applied
/// update the new best bid/ask summary is returned for publication; a
/// skipped update returns nothing.
pub fn process_orderbook_update(orderbook: &mut OrderBook, update: &OrderBookUpdate) -> (r:
    Option<ExchangeUpdate>)
    ensures
        final(orderbook)@ == apply_spec(old(orderbook)@, venue_update_of(*update)),
        r is Some <==> (update.update_type is Snapshot || update.data.seq
            > old(orderbook)@.sequence),
        r matches Some(e) ==> {
            &&& e.exchange_name == VenueName::Bybit
            &&& is_best_bid_of(final(orderbook)@.bids, e.best_prices.best_bid)
            &&& is_best_ask_of(final(orderbook)@.asks, e.best_prices.best_ask)
        },
{
    let venue_update = VenueUpdate {
        kind: update.update_type,
        sequence: update.data.seq,
        event_time: update.cts,
        bid_changes: level_changes(&update.data.b),
        ask_changes: level_changes(&update.data.a),
    };
    match orderbook.apply(&venue_update) {
        Ok(_) => {
            let best_bid = orderbook.get_best_bid();
            let best_ask = orderbook.get_best_ask();
            Some(
                ExchangeUpdate {
                    exchange_name: VenueName::Bybit,
                    best_prices: BestPrices { best_bid, best_ask },
                },
            )
        },
        Err(_) => None,
    }
}

} // verus!
