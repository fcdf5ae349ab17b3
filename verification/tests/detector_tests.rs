use arb_core::arbitrage_manager::ArbitrageManager;
use arb_core::arbitrage_manager::analyze_opportunities::ArbitrageOpportunity;
use arb_core::exchange_update::BestPrices;
use arb_core::exchange_update::ExchangeUpdate;
use arb_core::exchange_update::VenueName;
use arb_core::order_book::OrderBook;
use arb_core::order_book::UpdateType;
use arb_core::order_book::VenueUpdate;
use arb_core::trading_pair::ETradingPair;

fn send_prices(m: &mut ArbitrageManager, venue: VenueName, bid: u64, ask: u64) {
    m.apply_update(ExchangeUpdate {
        exchange_name: venue,
        best_prices: BestPrices { best_bid: Some(bid), best_ask: Some(ask) },
    });
}

fn book_with(bids: Vec<(u64, u64)>, asks: Vec<(u64, u64)>, last_updated: i64) -> OrderBook {
    let mut book = OrderBook::new();
    book.apply(&VenueUpdate {
        kind: UpdateType::Snapshot,
        sequence: 1,
        event_time: last_updated,
        bid_changes: bids,
        ask_changes: asks,
    })
    .unwrap();
    book
}

fn candidate() -> ArbitrageOpportunity {
    ArbitrageOpportunity {
        buy_exchange: VenueName::Dexnow,
        sell_exchange: VenueName::Bybit,
        buy_price: 100,
        sell_price: 105,
    }
}

#[test]
fn candidate_detection_picks_lowest_ask_and_highest_bid() {
    let mut m = ArbitrageManager::new(ETradingPair::SolUsdc);
    m.add_exchange(VenueName::Bybit);
    m.add_exchange(VenueName::Dexnow);
    send_prices(&mut m, VenueName::Bybit, 100, 101);
    send_prices(&mut m, VenueName::Dexnow, 105, 104);
    let op = m.check_local_opportunities().unwrap();
    assert_eq!(op.buy_exchange, VenueName::Bybit);
    assert_eq!(op.buy_price, 101);
    assert_eq!(op.sell_exchange, VenueName::Dexnow);
    assert_eq!(op.sell_price, 105);
}

#[test]
fn no_candidate_when_prices_do_not_cross() {
    let mut m = ArbitrageManager::new(ETradingPair::SolUsdc);
    send_prices(&mut m, VenueName::Bybit, 100, 101);
    send_prices(&mut m, VenueName::Dexnow, 99, 100);
    assert_eq!(m.check_local_opportunities(), None);
}

#[test]
fn no_candidate_without_any_prices() {
    let m = ArbitrageManager::new(ETradingPair::SolUsdc);
    assert_eq!(m.check_local_opportunities(), None);
}

#[test]
fn absent_sides_are_skipped_in_the_scan() {
    let mut m = ArbitrageManager::new(ETradingPair::SolUsdc);
    m.apply_update(ExchangeUpdate {
        exchange_name: VenueName::Bybit,
        best_prices: BestPrices { best_bid: None, best_ask: Some(90) },
    });
    m.apply_update(ExchangeUpdate {
        exchange_name: VenueName::Dexnow,
        best_prices: BestPrices { best_bid: Some(95), best_ask: None },
    });
    let op = m.check_local_opportunities().unwrap();
    assert_eq!(op.buy_exchange, VenueName::Bybit);
    assert_eq!(op.buy_price, 90);
    assert_eq!(op.sell_exchange, VenueName::Dexnow);
    assert_eq!(op.sell_price, 95);
}

#[test]
fn later_update_overwrites_the_venue_cache_entry() {
    let mut m = ArbitrageManager::new(ETradingPair::SolUsdc);
    send_prices(&mut m, VenueName::Bybit, 100, 101);
    send_prices(&mut m, VenueName::Dexnow, 105, 104);
    // Prices move: no longer crossing.
    send_prices(&mut m, VenueName::Dexnow, 100, 104);
    assert_eq!(m.check_local_opportunities(), None);
}

#[test]
fn first_seen_venue_wins_price_ties() {
    let mut m = ArbitrageManager::new(ETradingPair::SolUsdc);
    send_prices(&mut m, VenueName::Bybit, 105, 101);
    send_prices(&mut m, VenueName::Dexnow, 105, 101);
    send_prices(&mut m, VenueName::Phoenix, 105, 101);
    let op = m.check_local_opportunities().unwrap();
    assert_eq!(op.buy_exchange, VenueName::Bybit);
    assert_eq!(op.sell_exchange, VenueName::Bybit);
}

#[test]
fn confirmation_walks_the_books_greedily() {
    let m = ArbitrageManager::new(ETradingPair::SolUsdc);
    let buy_book = book_with(vec![], vec![(100, 2), (101, 3)], 1_000_000);
    let sell_book = book_with(vec![(105, 1), (102, 4)], vec![], 1_000_000);
    let confirmed = m
        .confirm_opportunity(candidate(), &buy_book, &sell_book, 1_000_100)
        .unwrap();
    // 1 @ 100 -> 105 (profit 5), 1 @ 100 -> 102 (profit 2), 3 @ 101 -> 102
    // (profit 3): volume 5, profit 10, no level revisited after exhaustion.
    assert_eq!(confirmed.volume, 5);
    assert_eq!(confirmed.estimated_profit, 10);
    assert_eq!(confirmed.buy_price, 100);
    assert_eq!(confirmed.sell_price, 105);
    assert_eq!(confirmed.buy_exchange, VenueName::Dexnow);
    assert_eq!(confirmed.sell_exchange, VenueName::Bybit);
}

#[test]
fn confirmation_stops_once_prices_no_longer_cross() {
    let m = ArbitrageManager::new(ETradingPair::SolUsdc);
    let buy_book = book_with(vec![], vec![(100, 1), (104, 9)], 1_000_000);
    let sell_book = book_with(vec![(103, 5)], vec![], 1_000_000);
    let confirmed = m
        .confirm_opportunity(candidate(), &buy_book, &sell_book, 1_000_100)
        .unwrap();
    assert_eq!(confirmed.volume, 1);
    assert_eq!(confirmed.estimated_profit, 3);
}

#[test]
fn confirmation_yields_nothing_without_crossing_levels() {
    let m = ArbitrageManager::new(ETradingPair::SolUsdc);
    let buy_book = book_with(vec![], vec![(105, 2)], 1_000_000);
    let sell_book = book_with(vec![(101, 2)], vec![], 1_000_000);
    assert_eq!(m.confirm_opportunity(candidate(), &buy_book, &sell_book, 1_000_100), None);
}

#[test]
fn staleness_gap_between_books_aborts_confirmation() {
    let m = ArbitrageManager::new(ETradingPair::SolUsdc);
    // Crossed books, but the buy book is 600 ms older than the sell book.
    let buy_book = book_with(vec![], vec![(100, 2)], 999_400);
    let sell_book = book_with(vec![(105, 2)], vec![], 1_000_000);
    assert_eq!(m.confirm_opportunity(candidate(), &buy_book, &sell_book, 999_500), None);
    // The other direction trips the same guard.
    let buy_book2 = book_with(vec![], vec![(100, 2)], 1_000_000);
    let sell_book2 = book_with(vec![(105, 2)], vec![], 999_400);
    assert_eq!(m.confirm_opportunity(candidate(), &buy_book2, &sell_book2, 1_000_100), None);
}

#[test]
fn old_buy_book_data_aborts_confirmation() {
    let m = ArbitrageManager::new(ETradingPair::SolUsdc);
    let buy_book = book_with(vec![], vec![(100, 2)], 1_000_000);
    let sell_book = book_with(vec![(105, 2)], vec![], 1_000_000);
    // 301 ms of wall-clock age: too old to act on.
    assert_eq!(m.confirm_opportunity(candidate(), &buy_book, &sell_book, 1_000_301), None);
    // Clock skew: "now" earlier than the book's own timestamp.
    assert_eq!(m.confirm_opportunity(candidate(), &buy_book, &sell_book, 999_999), None);
    // At exactly 300 ms the data is still acceptable.
    assert!(m.confirm_opportunity(candidate(), &buy_book, &sell_book, 1_000_300).is_some());
}
