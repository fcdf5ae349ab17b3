use arb_core::bybit::process_orderbook_update::process_orderbook_update;
use arb_core::bybit::ws_ping::PingMessage;
use arb_core::bybit::ws_spot_orderbook::OrderBookData;
use arb_core::bybit::ws_spot_orderbook::OrderBookUpdate;
use arb_core::bybit::ws_spot_orderbook::PriceLevel;
use arb_core::bybit::ws_spot_subscribe::SubscribeRequest;
use arb_core::exchange_update::VenueName;
use arb_core::order_book::OrderBook;
use arb_core::order_book::UpdateType;
use arb_core::session::ConnectionPhase;
use arb_core::session::SessionAction;
use arb_core::session::SessionEvent;
use arb_core::session::SessionState;
use arb_core::session::next_ping_counter;
use arb_core::session::pong_matches;
use arb_core::trading_pair::ETradingPair;

fn stream_message(
    update_type: UpdateType,
    seq: u64,
    cts: i64,
    bids: Vec<PriceLevel>,
    asks: Vec<PriceLevel>,
) -> OrderBookUpdate {
    OrderBookUpdate {
        topic: "orderbook.1.SOLUSDC".to_string(),
        ts: cts + 5,
        update_type,
        data: OrderBookData { s: "SOLUSDC".to_string(), b: bids, a: asks, u: seq, seq },
        cts,
    }
}

#[test]
fn price_level_accessors_return_the_pair() {
    let level = PriceLevel(60938, 16796);
    assert_eq!(*level.price(), 60938);
    assert_eq!(*level.size(), 16796);
}

#[test]
fn ping_message_carries_op_and_optional_id() {
    let plain = PingMessage::new(None);
    assert_eq!(plain.op, "ping");
    assert_eq!(plain.req_id, "");
    let tagged = PingMessage::new(Some("abc".to_string()));
    assert_eq!(tagged.op, "ping");
    assert_eq!(tagged.req_id, "abc");
}

#[test]
fn subscribe_request_builds_depth_one_topics() {
    let req = SubscribeRequest::new(&vec!["BTCUSDC".to_string(), "SOLUSDC".to_string()]);
    assert_eq!(req.op, "subscribe");
    assert_eq!(req.args, vec!["orderbook.1.BTCUSDC", "orderbook.1.SOLUSDC"]);
}

#[test]
fn stream_snapshot_then_delta_keeps_the_book_current() {
    let mut book = OrderBook::new();
    let snap = stream_message(
        UpdateType::Snapshot,
        10,
        1000,
        vec![PriceLevel(100, 5), PriceLevel(99, 2)],
        vec![PriceLevel(101, 7)],
    );
    let update = process_orderbook_update(&mut book, &snap).unwrap();
    assert_eq!(update.exchange_name, VenueName::Bybit);
    assert_eq!(update.best_prices.best_bid, Some(100));
    assert_eq!(update.best_prices.best_ask, Some(101));
    assert_eq!(book.sequence, 10);
    assert_eq!(book.last_updated, 1000);

    let stale = stream_message(UpdateType::Delta, 10, 2000, vec![PriceLevel(100, 9)], vec![]);
    assert!(process_orderbook_update(&mut book, &stale).is_none());
    assert_eq!(book.bids.get(&100), Some(&5));

    let fresh = stream_message(
        UpdateType::Delta,
        11,
        3000,
        vec![PriceLevel(100, 0), PriceLevel(102, 4)],
        vec![],
    );
    let update = process_orderbook_update(&mut book, &fresh).unwrap();
    assert_eq!(update.best_prices.best_bid, Some(102));
    assert_eq!(book.bids.get(&100), None);
    assert_eq!(book.sequence, 11);
}

#[test]
fn session_reconnects_after_pong_timeout() {
    let mut s = SessionState::new(0);
    assert_eq!(s.step(SessionEvent::Tick, 0), SessionAction::OpenConnection);
    assert_eq!(s.phase, ConnectionPhase::Connecting);
    assert_eq!(s.step(SessionEvent::Opened, 3), SessionAction::SendSubscribe);
    assert_eq!(s.phase, ConnectionPhase::Subscribing);
    assert_eq!(s.step(SessionEvent::SubscribeAcked, 5), SessionAction::Wait);
    assert_eq!(s.phase, ConnectionPhase::Streaming);
    // No probe due before the interval has passed.
    assert_eq!(s.step(SessionEvent::Tick, 1004), SessionAction::Wait);
    assert_eq!(s.step(SessionEvent::Tick, 1005), SessionAction::SendPing);
    assert_eq!(s.step(SessionEvent::PongObserved, 1500), SessionAction::Wait);
    // 5001 ms without a pong: the connection is dead.
    assert_eq!(s.step(SessionEvent::Tick, 6501), SessionAction::CloseAndBackoff);
    assert_eq!(s.phase, ConnectionPhase::Disconnected);
    assert_eq!(s.retry_at, 7501);
    assert_eq!(s.step(SessionEvent::Tick, 7000), SessionAction::Wait);
    assert_eq!(s.step(SessionEvent::Tick, 7501), SessionAction::OpenConnection);
}

#[test]
fn session_failure_always_backs_off() {
    let mut s = SessionState::new(0);
    s.step(SessionEvent::Tick, 0);
    assert_eq!(s.step(SessionEvent::ConnectionFailed, 100), SessionAction::CloseAndBackoff);
    assert_eq!(s.phase, ConnectionPhase::Disconnected);
    assert_eq!(s.retry_at, 1100);
}

#[test]
fn mismatched_session_events_change_nothing() {
    let mut s = SessionState::new(0);
    assert_eq!(s.step(SessionEvent::PongObserved, 10), SessionAction::Wait);
    assert_eq!(s.phase, ConnectionPhase::Disconnected);
    assert_eq!(s.step(SessionEvent::SubscribeAcked, 20), SessionAction::Wait);
    assert_eq!(s.phase, ConnectionPhase::Disconnected);
}

#[test]
fn transport_pong_must_echo_the_counter() {
    assert!(pong_matches(5, &vec![5]));
    assert!(pong_matches(5, &vec![5, 9]));
    assert!(!pong_matches(5, &vec![6]));
    assert!(!pong_matches(5, &vec![]));
}

#[test]
fn ping_counter_wraps() {
    assert_eq!(next_ping_counter(0), 1);
    assert_eq!(next_ping_counter(254), 255);
    assert_eq!(next_ping_counter(255), 0);
}

#[test]
fn trading_pairs_and_symbols() {
    assert_eq!(ETradingPair::all(), vec![ETradingPair::BtcUsdc, ETradingPair::SolUsdc]);
    assert_eq!(ETradingPair::BtcUsdc.instrument_symbol(), "BTCUSDC");
    assert_eq!(ETradingPair::SolUsdc.instrument_symbol(), "SOLUSDC");
}

#[test]
fn venue_names_display_as_reported() {
    assert_eq!(VenueName::Bybit.as_str(), "Bybit");
    assert_eq!(VenueName::Dexnow.as_str(), "DEXnow");
    assert_eq!(VenueName::Phoenix.as_str(), "Phoenix");
}
