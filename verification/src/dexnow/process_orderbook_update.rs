//! Applying one decoded dynamic-account state to the venue's book. The
//! account always describes the whole book, so an accepted update is applied
//! as a snapshot keyed by the slot that delivered it; a non-zero slot at or
//! below the book's sequence is dropped as stale, and slot 0 marks an
//! out-of-band full refresh that always applies. Raw engine units are
//! converted into core ticks on the way in.

use super::instr_dynamic_account::InstrDynamicAccount;
use super::line_px::LinePx;
use super::line_px::line_converts;
use super::line_px::px_ticks;
use super::line_px::qty_ticks;
use crate::TPrice;
use crate::TVolume;
use crate::order_book::OrderBook;
use crate::order_book::UpdateModel;
use crate::order_book::UpdateType;
use crate::order_book::VenueUpdate;
use crate::order_book::apply_spec;
use vstd::prelude::*;

verus! {

/// The engine's update pipeline needs a publishing channel before updates
/// can flow; the publishing layer outside the library reports this.
#[derive(Clone, Copy, Debug, PartialEq, Eq, Structural)]
pub enum ProcessOrderbookError {
    UpdateSenderNotInitialized,
}

/// The normalized form of one decoded account state: a snapshot carrying the
/// slot as its sequence, the local receipt time as its timestamp, and every
/// line converted into core ticks.
pub open spec fn account_update_model(
    account: InstrDynamicAccount,
    asset_decimals: nat,
    slot: u64,
    now_ms: i64,
) -> UpdateModel {
    UpdateModel {
        kind: UpdateType::Snapshot,
        sequence: slot,
        event_time: now_ms,
        bid_changes: account.spot_bids@.map_values(
            |l: LinePx| (px_ticks(l.px as int) as u64, qty_ticks(l.qty as int, asset_decimals) as u64),
        ),
        ask_changes: account.spot_asks@.map_values(
            |l: LinePx| (px_ticks(l.px as int) as u64, qty_ticks(l.qty as int, asset_decimals) as u64),
        ),
    }
}

/// Converts one side's lines into tick-valued change pairs.
fn line_changes(lines: &Vec<LinePx>, asset_decimals: u8) -> (r: Vec<(TPrice, TVolume)>)
    requires
        asset_decimals <= 15,
        forall|i: int|
            0 <= i < lines@.len() ==> line_converts(#[trigger] lines@[i], asset_decimals as nat),
    ensures
        r@ == lines@.map_values(
            |l: LinePx| (px_ticks(l.px as int) as u64, qty_ticks(l.qty as int, asset_decimals as nat) as u64),
        ),
{
    let mut r: Vec<(TPrice, TVolume)> = Vec::new();
    let mut i: usize = 0;
    while i < lines.len()
        invariant
            asset_decimals <= 15,
            i <= lines@.len(),
            r@.len() == i,
            forall|j: int|
                0 <= j < lines@.len() ==> line_converts(#[trigger] lines@[j], asset_decimals as nat),
            forall|j: int|
                0 <= j < i ==> r@[j] == (
                    px_ticks(lines@[j].px as int) as u64,
                    qty_ticks(lines@[j].qty as int, asset_decimals as nat) as u64,
                ),
        decreases lines@.len() - i,
    {
        let converted = match lines[i].to_ticks(asset_decimals) {
            Some(t) => t,
            None => (0, 0),
        };
        r.push(converted);
        i = i + 1;
    }
    proof {
        assert(r@ =~= lines@.map_values(
            |l: LinePx| (px_ticks(l.px as int) as u64, qty_ticks(l.qty as int, asset_decimals as nat) as u64),
        ));
    }
    r
}

/// Applies one decoded account state. A non-zero slot at or below the
/// book's sequence is stale: it is silently dropped (not an error path,
/// purely ignored) and the book is left untouched. Otherwise the state is
/// applied as a full-replacement snapshot (zero quantities are not stored),
/// the sequence becomes the slot, and the book's timestamp becomes the
/// receipt time. Slot 0, the out-of-band full refresh, always applies. The
/// error variant belongs to the publishing pipeline around the book, which
/// the library does not hold, so this function itself always succeeds.
pub fn process_orderbook_update(
    orderbook: &mut OrderBook,
    instr_dynamic_account: &InstrDynamicAccount,
    asset_decimals: u8,
    slot: u64,
    now_ms: i64,
) -> (r: Result<(), ProcessOrderbookError>)
    requires
        asset_decimals <= 15,
        forall|i: int|
            0 <= i < instr_dynamic_account.spot_bids@.len() ==> line_converts(
                #[trigger] instr_dynamic_account.spot_bids@[i],
                asset_decimals as nat,
            ),
        forall|i: int|
            0 <= i < instr_dynamic_account.spot_asks@.len() ==> line_converts(
                #[trigger] instr_dynamic_account.spot_asks@[i],
                asset_decimals as nat,
            ),
    ensures
        r == Result::<(), ProcessOrderbookError>::Ok(()),
        slot != 0 && slot <= old(orderbook)@.sequence ==> final(orderbook)@ == old(orderbook)@,
        !(slot != 0 && slot <= old(orderbook)@.sequence) ==> final(orderbook)@ == apply_spec(
            old(orderbook)@,
            account_update_model(*instr_dynamic_account, asset_decimals as nat, slot, now_ms),
        ),
{
    if slot != 0 && slot <= orderbook.sequence {
        return Ok(());
    }
    let update = VenueUpdate {
        kind: UpdateType::Snapshot,
        sequence: slot,
        event_time: now_ms,
        bid_changes: line_changes(&instr_dynamic_account.spot_bids, asset_decimals),
        ask_changes: line_changes(&instr_dynamic_account.spot_asks, asset_decimals),
    };
    let _ = orderbook.apply(&update);
    Ok(())
}

} // verus!
