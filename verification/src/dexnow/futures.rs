//! Futures-market account addresses and live quotes of a derivative.

use super::TAccountKey;
use super::line_px::LinePx;
use vstd::prelude::*;

verus! {

/// Contains data about futures market.
#[derive(Debug)]
pub struct Futures {
    pub bids_tree_account: TAccountKey,
    pub asks_tree_account: TAccountKey,
    pub bid_orders_account: TAccountKey,
    pub ask_orders_account: TAccountKey,
    pub lines_account: TAccountKey,
    pub maps_account: TAccountKey,
    pub client_infos_account: TAccountKey,
    pub client_infos2_account: TAccountKey,
    pub client_accounts_account: TAccountKey,
    pub day_trades: Option<u64>,
    pub alltime_trades: Option<u64>,
    /// Time of last trade in seconds since epoch.
    pub last_trade_time: Option<u64>,
    /// Orderbook bid quotes.
    pub bid_quotes: Option<Vec<LinePx>>,
    /// Orderbook ask quotes.
    pub ask_quotes: Option<Vec<LinePx>>,
}

} // verus!
