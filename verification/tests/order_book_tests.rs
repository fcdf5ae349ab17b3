use arb_core::order_book::ApplyError;
use arb_core::order_book::OrderBook;
use arb_core::order_book::UpdateType;
use arb_core::order_book::VenueUpdate;

fn delta(sequence: u64, event_time: i64, bids: Vec<(u64, u64)>, asks: Vec<(u64, u64)>) -> VenueUpdate {
    VenueUpdate {
        kind: UpdateType::Delta,
        sequence,
        event_time,
        bid_changes: bids,
        ask_changes: asks,
    }
}

fn snapshot(sequence: u64, event_time: i64, bids: Vec<(u64, u64)>, asks: Vec<(u64, u64)>) -> VenueUpdate {
    VenueUpdate {
        kind: UpdateType::Snapshot,
        sequence,
        event_time,
        bid_changes: bids,
        ask_changes: asks,
    }
}

fn levels(book_side: &std::collections::BTreeMap<u64, u64>) -> Vec<(u64, u64)> {
    book_side.iter().map(|(p, v)| (*p, *v)).collect()
}

#[test]
fn fresh_book_is_empty() {
    let book = OrderBook::new();
    assert_eq!(book.sequence, 0);
    assert_eq!(book.last_updated, 0);
    assert!(book.bids.is_empty());
    assert!(book.asks.is_empty());
    assert_eq!(book.get_best_bid(), None);
    assert_eq!(book.get_best_ask(), None);
}

#[test]
fn delta_upserts_levels_and_advances_sequence() {
    let mut book = OrderBook::new();
    let r = book.apply(&delta(3, 1000, vec![(100, 5), (99, 2)], vec![(101, 7)]));
    assert_eq!(r, Ok(()));
    assert_eq!(book.sequence, 3);
    assert_eq!(book.last_updated, 1000);
    assert_eq!(levels(&book.bids), vec![(99, 2), (100, 5)]);
    assert_eq!(levels(&book.asks), vec![(101, 7)]);
}

#[test]
fn stale_delta_is_rejected_and_changes_nothing() {
    let mut book = OrderBook::new();
    book.apply(&delta(5, 1000, vec![(100, 5)], vec![])).unwrap();
    let r = book.apply(&delta(5, 2000, vec![(100, 9), (90, 1)], vec![(200, 4)]));
    assert_eq!(r, Err(ApplyError::StaleUpdate));
    assert_eq!(book.sequence, 5);
    assert_eq!(book.last_updated, 1000);
    assert_eq!(levels(&book.bids), vec![(100, 5)]);
    assert!(book.asks.is_empty());
    let r2 = book.apply(&delta(4, 3000, vec![], vec![]));
    assert_eq!(r2, Err(ApplyError::StaleUpdate));
}

#[test]
fn zero_volume_removes_present_price() {
    let mut book = OrderBook::new();
    book.apply(&delta(1, 10, vec![(100, 5), (101, 6)], vec![])).unwrap();
    book.apply(&delta(2, 20, vec![(100, 0)], vec![])).unwrap();
    assert_eq!(levels(&book.bids), vec![(101, 6)]);
}

#[test]
fn zero_volume_for_absent_price_is_a_noop() {
    let mut book = OrderBook::new();
    book.apply(&delta(1, 10, vec![(100, 5)], vec![])).unwrap();
    book.apply(&delta(2, 20, vec![(55, 0)], vec![])).unwrap();
    assert_eq!(levels(&book.bids), vec![(100, 5)]);
    assert_eq!(book.sequence, 2);
}

#[test]
fn snapshot_fully_replaces_prior_state() {
    let mut book = OrderBook::new();
    book.apply(&delta(9, 10, vec![(100, 5), (90, 1)], vec![(110, 3)])).unwrap();
    // Snapshot with a lower sequence still replaces: never merge.
    let r = book.apply(&snapshot(5, 50, vec![(70, 2)], vec![(80, 4)]));
    assert_eq!(r, Ok(()));
    assert_eq!(book.sequence, 5);
    assert_eq!(book.last_updated, 50);
    assert_eq!(levels(&book.bids), vec![(70, 2)]);
    assert_eq!(levels(&book.asks), vec![(80, 4)]);
}

#[test]
fn snapshot_drops_zero_volume_levels() {
    let mut book = OrderBook::new();
    book.apply(&snapshot(1, 1, vec![(70, 2), (71, 0)], vec![(80, 0)])).unwrap();
    assert_eq!(levels(&book.bids), vec![(70, 2)]);
    assert!(book.asks.is_empty());
}

#[test]
fn best_bid_is_max_and_best_ask_is_min() {
    let mut book = OrderBook::new();
    book.apply(&delta(1, 10, vec![(100, 5), (99, 2), (104, 1)], vec![(110, 3), (107, 2), (111, 9)]))
        .unwrap();
    assert_eq!(book.get_best_bid(), Some(104));
    assert_eq!(book.get_best_ask(), Some(107));
}

#[test]
fn out_of_order_deltas_then_sorted_replay_match_in_order_subsequence() {
    // Arrival order: 2, 1, 3 (update 1 is rejected as stale).
    let u1 = delta(1, 10, vec![(100, 1)], vec![]);
    let u2 = delta(2, 20, vec![(101, 2)], vec![]);
    let u3 = delta(3, 30, vec![(102, 3)], vec![]);

    let mut shuffled = OrderBook::new();
    let _ = shuffled.apply(&u2);
    let _ = shuffled.apply(&u1);
    let _ = shuffled.apply(&u3);
    // Re-apply in increasing-sequence order: every one is stale now.
    assert_eq!(shuffled.apply(&u1), Err(ApplyError::StaleUpdate));
    assert_eq!(shuffled.apply(&u2), Err(ApplyError::StaleUpdate));
    assert_eq!(shuffled.apply(&u3), Err(ApplyError::StaleUpdate));

    // The in-order subsequence of the arrival order is [u2, u3].
    let mut reference = OrderBook::new();
    reference.apply(&u2).unwrap();
    reference.apply(&u3).unwrap();

    assert_eq!(levels(&shuffled.bids), levels(&reference.bids));
    assert_eq!(levels(&shuffled.asks), levels(&reference.asks));
    assert_eq!(shuffled.sequence, reference.sequence);
    assert_eq!(shuffled.last_updated, reference.last_updated);
}

#[test]
fn ask_and_bid_levels_come_out_price_ascending() {
    let mut book = OrderBook::new();
    book.apply(&delta(1, 10, vec![(104, 1), (99, 2)], vec![(111, 9), (107, 2)])).unwrap();
    assert_eq!(book.bid_levels(), vec![(99, 2), (104, 1)]);
    assert_eq!(book.ask_levels(), vec![(107, 2), (111, 9)]);
}
