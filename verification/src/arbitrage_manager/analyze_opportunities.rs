//! The two-phase arbitrage detector.
//!
//! Phase one scans the best-price cache for the venue with the highest bid
//! and the venue with the lowest ask; a candidate exists only while the best
//! ask is strictly cheaper than the best bid. Phase two re-validates a
//! candidate against the two venues' full order books: staleness guards
//! first, then a greedy best-price-first walk that accrues matched volume
//! and estimated profit.

use super::ArbitrageManager;
use crate::TPrice;
use crate::TVolume;
use crate::exchange_update::BestPrices;
use crate::exchange_update::VenueName;
use crate::order_book::OrderBook;
use crate::order_book::levels_of;
use vstd::prelude::*;

verus! {

/// Books whose source timestamps differ by more than this many milliseconds
/// are not comparable; confirmation aborts.
pub const MAX_ORDERBOOK_TIME_GAP_MS: i64 = 500;

/// Data older than this many milliseconds of wall-clock time is too old to
/// act on; confirmation aborts.
pub const MAX_CURRENT_TIME_GAP_MS: i64 = 300;

/// Price and volume ceiling for levels the confirmation walk accepts; keeps
/// every matched (spread x volume) product within machine bounds.
pub const MAX_LEVEL_PRICE: u64 = 0x1_0000_0000;

/// See [`MAX_LEVEL_PRICE`].
pub const MAX_LEVEL_VOLUME: u64 = 0x1_0000_0000;

/// Ceiling on the number of levels per side the confirmation walk accepts.
pub const MAX_WALK_LEVELS: usize = 0x1000_0000;

/// An arbitrage candidate from the cheap scan: buy at `buy_exchange`'s best
/// ask, sell at `sell_exchange`'s best bid. Valid only while
/// `buy_price < sell_price`.
#[derive(Clone, Copy, Debug, PartialEq, Eq, Structural)]
pub struct ArbitrageOpportunity {
    pub buy_exchange: VenueName,
    pub sell_exchange: VenueName,
    pub buy_price: TPrice,
    pub sell_price: TPrice,
}

/// A candidate confirmed against full books: the matched volume and the
/// estimated profit of the greedy walk.
#[derive(Clone, Copy, Debug, PartialEq, Eq, Structural)]
pub struct ConfirmedArbitrageOpportunity {
    pub buy_exchange: VenueName,
    pub sell_exchange: VenueName,
    pub buy_price: TPrice,
    pub sell_price: TPrice,
    pub volume: u64,
    pub estimated_profit: u128,
}

/// Entry `i` holds the cache's best bid: its bid is present, no entry beats
/// it, and every earlier entry is strictly worse (first-seen tie-break).
pub open spec fn is_best_bid_entry(c: Seq<(VenueName, BestPrices)>, i: int) -> bool {
    &&& 0 <= i < c.len()
    &&& c[i].1.best_bid is Some
    &&& forall|j: int|
        0 <= j < c.len() && #[trigger] c[j].1.best_bid is Some ==> c[j].1.best_bid->0
            <= c[i].1.best_bid->0
    &&& forall|j: int|
        0 <= j < i && #[trigger] c[j].1.best_bid is Some ==> c[j].1.best_bid->0
            < c[i].1.best_bid->0
}

/// Entry `i` holds the cache's best (lowest) ask, first-seen tie-break.
pub open spec fn is_best_ask_entry(c: Seq<(VenueName, BestPrices)>, i: int) -> bool {
    &&& 0 <= i < c.len()
    &&& c[i].1.best_ask is Some
    &&& forall|j: int|
        0 <= j < c.len() && #[trigger] c[j].1.best_ask is Some ==> c[j].1.best_ask->0
            >= c[i].1.best_ask->0
    &&& forall|j: int|
        0 <= j < i && #[trigger] c[j].1.best_ask is Some ==> c[j].1.best_ask->0
            > c[i].1.best_ask->0
}

/// The greedy liquidity walk, on ask levels sorted ascending (best ask
/// first) and bid levels sorted ascending (best bid last). While the lowest
/// remaining ask is strictly below the highest remaining bid, it matches
/// `min` of the two volumes, accrues `(bid - ask) x matched` profit,
/// decrements the larger side and removes the exhausted side(s). Returns
/// (total matched volume, total profit).
pub open spec fn walk_spec(
    asks: Seq<(TPrice, TVolume)>,
    bids: Seq<(TPrice, TVolume)>,
) -> (int, int)
    decreases asks.len() + bids.len(),
{
    if asks.len() == 0 || bids.len() == 0 {
        (0, 0)
    } else {
        let ask_price = asks[0].0;
        let ask_vol = asks[0].1;
        let bid_price = bids[bids.len() - 1].0;
        let bid_vol = bids[bids.len() - 1].1;
        if ask_price >= bid_price {
            (0, 0)
        } else {
            let matched = if ask_vol <= bid_vol {
                ask_vol
            } else {
                bid_vol
            };
            let rec = if ask_vol > bid_vol {
                walk_spec(
                    asks.update(0, (ask_price, (ask_vol - bid_vol) as u64)),
                    bids.drop_last(),
                )
            } else if ask_vol < bid_vol {
                walk_spec(
                    asks.drop_first(),
                    bids.update(bids.len() - 1, (bid_price, (bid_vol - ask_vol) as u64)),
                )
            } else {
                walk_spec(asks.drop_first(), bids.drop_last())
            };
            (matched + rec.0, matched * (bid_price - ask_price) + rec.1)
        }
    }
}

/// Total volume offered by a list of levels.
pub open spec fn sum_vols(v: Seq<(TPrice, TVolume)>) -> int
    decreases v.len(),
{
    if v.len() == 0 {
        0
    } else {
        sum_vols(v.drop_last()) + v.last().1
    }
}

/// The walk never matches negative volume or profit.
pub proof fn lemma_walk_nonneg(asks: Seq<(TPrice, TVolume)>, bids: Seq<(TPrice, TVolume)>)
    ensures
        walk_spec(asks, bids).0 >= 0,
        walk_spec(asks, bids).1 >= 0,
    decreases asks.len() + bids.len(),
{
    if asks.len() > 0 && bids.len() > 0 {
        let ask_price = asks[0].0;
        let ask_vol = asks[0].1;
        let bid_price = bids[bids.len() - 1].0;
        let bid_vol = bids[bids.len() - 1].1;
        if ask_price < bid_price {
            if ask_vol > bid_vol {
                lemma_walk_nonneg(
                    asks.update(0, (ask_price, (ask_vol - bid_vol) as u64)),
                    bids.drop_last(),
                );
            } else if ask_vol < bid_vol {
                lemma_walk_nonneg(
                    asks.drop_first(),
                    bids.update(bids.len() - 1, (bid_price, (bid_vol - ask_vol) as u64)),
                );
            } else {
                lemma_walk_nonneg(asks.drop_first(), bids.drop_last());
            }
        }
    }
}

/// The matched volume never exceeds the volume the ask side offers.
pub proof fn lemma_walk_vol_le_sum(asks: Seq<(TPrice, TVolume)>, bids: Seq<(TPrice, TVolume)>)
    ensures
        walk_spec(asks, bids).0 <= sum_vols(asks),
        sum_vols(asks) >= 0,
    decreases asks.len() + bids.len(),
{
    lemma_sum_vols_nonneg(asks);
    if asks.len() > 0 && bids.len() > 0 {
        let ask_price = asks[0].0;
        let ask_vol = asks[0].1;
        let bid_price = bids[bids.len() - 1].0;
        let bid_vol = bids[bids.len() - 1].1;
        if ask_price < bid_price {
            if ask_vol > bid_vol {
                let asks2 = asks.update(0, (ask_price, (ask_vol - bid_vol) as u64));
                lemma_walk_vol_le_sum(asks2, bids.drop_last());
                lemma_sum_vols_update_first(asks, (ask_vol - bid_vol) as u64);
            } else if ask_vol < bid_vol {
                lemma_walk_vol_le_sum(
                    asks.drop_first(),
                    bids.update(bids.len() - 1, (bid_price, (bid_vol - ask_vol) as u64)),
                );
                lemma_sum_vols_drop_first(asks);
            } else {
                lemma_walk_vol_le_sum(asks.drop_first(), bids.drop_last());
                lemma_sum_vols_drop_first(asks);
            }
        }
    }
}

proof fn lemma_sum_vols_nonneg(v: Seq<(TPrice, TVolume)>)
    ensures
        sum_vols(v) >= 0,
    decreases v.len(),
{
    if v.len() > 0 {
        lemma_sum_vols_nonneg(v.drop_last());
    }
}

/// Replacing the first level's volume changes the sum by the difference.
proof fn lemma_sum_vols_update_first(v: Seq<(TPrice, TVolume)>, nv: TVolume)
    requires
        v.len() > 0,
    ensures
        sum_vols(v.update(0, (v[0].0, nv))) == sum_vols(v) - v[0].1 + nv,
    decreases v.len(),
{
    let w = v.update(0, (v[0].0, nv));
    if v.len() == 1 {
        assert(w.drop_last() =~= v.drop_last());
    } else {
        assert(w.drop_last() =~= v.drop_last().update(0, (v[0].0, nv)));
        lemma_sum_vols_update_first(v.drop_last(), nv);
        assert(w.last() == v.last());
    }
}

/// Dropping the first level removes exactly its volume from the sum.
proof fn lemma_sum_vols_drop_first(v: Seq<(TPrice, TVolume)>)
    requires
        v.len() > 0,
    ensures
        sum_vols(v.drop_first()) == sum_vols(v) - v[0].1,
    decreases v.len(),
{
    if v.len() == 1 {
        assert(v.drop_first() =~= Seq::<(TPrice, TVolume)>::empty());
        assert(v.drop_last() =~= Seq::<(TPrice, TVolume)>::empty());
        assert(sum_vols(Seq::<(TPrice, TVolume)>::empty()) == 0);
        assert(sum_vols(v) == sum_vols(v.drop_last()) + v.last().1);
        assert(v.last() == v[0]);
    } else {
        let df = v.drop_first();
        assert(df.len() == v.len() - 1);
        assert(sum_vols(df) == sum_vols(df.drop_last()) + df.last().1);
        assert(df.drop_last() =~= v.drop_last().drop_first());
        lemma_sum_vols_drop_first(v.drop_last());
        assert(v.drop_last()[0] == v[0]);
        assert(df.last() == v.last());
        assert(sum_vols(v) == sum_vols(v.drop_last()) + v.last().1);
    }
}

/// With bounded volumes, the offered volume is at most `len` times the cap.
pub proof fn lemma_sum_vols_bound(v: Seq<(TPrice, TVolume)>)
    requires
        forall|i: int| 0 <= i < v.len() ==> (#[trigger] v[i]).1 < MAX_LEVEL_VOLUME,
    ensures
        sum_vols(v) <= v.len() * MAX_LEVEL_VOLUME,
    decreases v.len(),
{
    if v.len() > 0 {
        lemma_sum_vols_bound(v.drop_last());
        assert((v.len() - 1) * MAX_LEVEL_VOLUME == v.len() * MAX_LEVEL_VOLUME
            - MAX_LEVEL_VOLUME) by (nonlinear_arith);
    }
}

/// With bounded bid prices, profit is at most the price cap times the
/// matched volume.
pub proof fn lemma_walk_profit_bound(asks: Seq<(TPrice, TVolume)>, bids: Seq<(TPrice, TVolume)>)
    requires
        forall|i: int| 0 <= i < bids.len() ==> (#[trigger] bids[i]).0 < MAX_LEVEL_PRICE,
    ensures
        walk_spec(asks, bids).1 <= MAX_LEVEL_PRICE * walk_spec(asks, bids).0,
    decreases asks.len() + bids.len(),
{
    lemma_walk_nonneg(asks, bids);
    if asks.len() > 0 && bids.len() > 0 {
        let ask_price = asks[0].0;
        let ask_vol = asks[0].1;
        let bid_price = bids[bids.len() - 1].0;
        let bid_vol = bids[bids.len() - 1].1;
        if ask_price < bid_price {
            let matched = if ask_vol <= bid_vol {
                ask_vol
            } else {
                bid_vol
            };
            if ask_vol > bid_vol {
                let a2 = asks.update(0, (ask_price, (ask_vol - bid_vol) as u64));
                let b2 = bids.drop_last();
                lemma_walk_profit_bound(a2, b2);
                lemma_walk_nonneg(a2, b2);
                lemma_step_profit(matched as int, bid_price - ask_price, walk_spec(a2, b2));
            } else if ask_vol < bid_vol {
                let a2 = asks.drop_first();
                let b2 = bids.update(bids.len() - 1, (bid_price, (bid_vol - ask_vol) as u64));
                lemma_walk_profit_bound(a2, b2);
                lemma_walk_nonneg(a2, b2);
                lemma_step_profit(matched as int, bid_price - ask_price, walk_spec(a2, b2));
            } else {
                let a2 = asks.drop_first();
                let b2 = bids.drop_last();
                lemma_walk_profit_bound(a2, b2);
                lemma_walk_nonneg(a2, b2);
                lemma_step_profit(matched as int, bid_price - ask_price, walk_spec(a2, b2));
            }
        }
    }
}

/// One walk step keeps profit within the price cap times volume.
proof fn lemma_step_profit(matched: int, spread: int, rec: (int, int))
    requires
        matched >= 0,
        0 < spread < MAX_LEVEL_PRICE,
        rec.0 >= 0,
        rec.1 <= MAX_LEVEL_PRICE * rec.0,
    ensures
        matched * spread + rec.1 <= MAX_LEVEL_PRICE * (matched + rec.0),
{
    assert(matched * spread <= matched * MAX_LEVEL_PRICE) by (nonlinear_arith)
        requires
            matched >= 0,
            0 < spread < MAX_LEVEL_PRICE,
    ;
    assert(MAX_LEVEL_PRICE * (matched + rec.0) == matched * MAX_LEVEL_PRICE + MAX_LEVEL_PRICE
        * rec.0) by (nonlinear_arith);
}

/// Two level lists representing the same side are identical: lists sorted by
/// strictly ascending price are a canonical form.
pub proof fn lemma_levels_of_unique(
    v1: Seq<(TPrice, TVolume)>,
    v2: Seq<(TPrice, TVolume)>,
    m: Map<TPrice, TVolume>,
)
    requires
        m.dom().finite(),
        levels_of(v1, m),
        levels_of(v2, m),
    ensures
        v1 == v2,
    decreases v1.len(),
{
    if v1.len() == 0 {
        assert(v1 =~= v2);
    } else {
        let k1 = v1.last().0;
        let k2 = v2.last().0;
        assert(k1 <= k2) by {
            assert(m.contains_key(k1));
            let i = choose|i: int| 0 <= i < v2.len() && v2[i].0 == k1;
            if i < v2.len() - 1 {
                assert(v2[i].0 < v2[v2.len() - 1].0);
            }
        }
        assert(k2 <= k1) by {
            assert(m.contains_key(k2));
            let i = choose|i: int| 0 <= i < v1.len() && v1[i].0 == k2;
            if i < v1.len() - 1 {
                assert(v1[i].0 < v1[v1.len() - 1].0);
            }
        }
        assert(v1.last() == v2.last());
        let m2 = m.remove(k1);
        assert(m2.dom() =~= m.dom().remove(k1));
        assert(levels_of(v1.drop_last(), m2)) by {
            lemma_levels_of_shrink(v1, m, k1);
        }
        assert(levels_of(v2.drop_last(), m2)) by {
            lemma_levels_of_shrink(v2, m, k1);
        }
        lemma_levels_of_unique(v1.drop_last(), v2.drop_last(), m2);
        assert forall|i: int| 0 <= i < v1.len() implies v1[i] == v2[i] by {
            if i < v1.len() - 1 {
                assert(v1.drop_last()[i] == v2.drop_last()[i]);
            }
        }
        assert(v1 =~= v2);
    }
}

/// Dropping the top level of a faithful list leaves a faithful list of the
/// side without its maximum price.
proof fn lemma_levels_of_shrink(v: Seq<(TPrice, TVolume)>, m: Map<TPrice, TVolume>, k: TPrice)
    requires
        m.dom().finite(),
        levels_of(v, m),
        v.len() > 0,
        v.last().0 == k,
    ensures
        levels_of(v.drop_last(), m.remove(k)),
    decreases v.len(),
{
    let w = v.drop_last();
    let m2 = m.remove(k);
    assert(m2.dom() =~= m.dom().remove(k));
    assert(w.len() == m2.len());
    assert forall|i: int| 0 <= i < w.len() implies #[trigger] m2.contains_key(w[i].0)
        && m2[w[i].0] == w[i].1 by {
        assert(w[i] == v[i]);
        assert(v[i].0 < v[v.len() - 1].0);
    }
    assert forall|q: TPrice| #[trigger] m2.contains_key(q) implies crate::order_book::has_price(
        w,
        q,
    ) by {
        assert(m.contains_key(q));
        let i = choose|i: int| 0 <= i < v.len() && v[i].0 == q;
        assert(i != v.len() - 1);
        assert(w[i].0 == q);
    }
}

/// A side's canonical level list: the price-ascending list of its levels.
pub open spec fn levels_seq(m: Map<TPrice, TVolume>) -> Seq<(TPrice, TVolume)> {
    choose|v: Seq<(TPrice, TVolume)>| levels_of(v, m)
}

/// A side the confirmation walk accepts: finitely many levels under the
/// depth cap, every price and volume under the caps, and no empty levels.
pub open spec fn side_bounded(m: Map<TPrice, TVolume>) -> bool {
    &&& m.dom().finite()
    &&& m.len() <= MAX_WALK_LEVELS
    &&& forall|p: TPrice|
        #[trigger] m.contains_key(p) ==> p < MAX_LEVEL_PRICE && 0 < m[p] < MAX_LEVEL_VOLUME
}

/// Both staleness guards: the two books' source timestamps are within
/// [`MAX_ORDERBOOK_TIME_GAP_MS`] of each other, and the buy book is no older
/// than [`MAX_CURRENT_TIME_GAP_MS`] of wall-clock time (nor from the future).
pub open spec fn guards_pass(buy_updated: i64, sell_updated: i64, now: i64) -> bool {
    &&& -(MAX_ORDERBOOK_TIME_GAP_MS as int) <= buy_updated - sell_updated
        <= MAX_ORDERBOOK_TIME_GAP_MS as int
    &&& 0 <= now - buy_updated <= MAX_CURRENT_TIME_GAP_MS as int
}

/// The remaining ask levels once the walk has consumed everything before
/// `i` and part of level `i` (whose volume stands at `cur`).
spec fn rem_front(v: Seq<(TPrice, TVolume)>, i: int, cur: TVolume) -> Seq<(TPrice, TVolume)> {
    if 0 <= i < v.len() {
        v.subrange(i, v.len() as int).update(0, (v[i].0, cur))
    } else {
        Seq::empty()
    }
}

/// The remaining bid levels once the walk has consumed everything from `j`
/// up and part of level `j - 1` (whose volume stands at `cur`).
spec fn rem_back(v: Seq<(TPrice, TVolume)>, j: int, cur: TVolume) -> Seq<(TPrice, TVolume)> {
    if 0 < j <= v.len() {
        v.subrange(0, j).update(j - 1, (v[j - 1].0, cur))
    } else {
        Seq::empty()
    }
}

/// Runs the greedy walk over extracted level lists; computes exactly
/// [`walk_spec`].
fn greedy_walk(asks: &Vec<(TPrice, TVolume)>, bids: &Vec<(TPrice, TVolume)>) -> (r: (u64, u128))
    requires
        asks@.len() <= MAX_WALK_LEVELS,
        bids@.len() <= MAX_WALK_LEVELS,
        forall|i: int|
            0 <= i < asks@.len() ==> (#[trigger] asks@[i]).0 < MAX_LEVEL_PRICE && 0 < asks@[i].1
                < MAX_LEVEL_VOLUME,
        forall|i: int|
            0 <= i < bids@.len() ==> (#[trigger] bids@[i]).0 < MAX_LEVEL_PRICE && 0 < bids@[i].1
                < MAX_LEVEL_VOLUME,
    ensures
        r.0 == walk_spec(asks@, bids@).0,
        r.1 == walk_spec(asks@, bids@).1,
{
    proof {
        lemma_walk_nonneg(asks@, bids@);
        lemma_walk_vol_le_sum(asks@, bids@);
        lemma_sum_vols_bound(asks@);
        lemma_walk_profit_bound(asks@, bids@);
        assert(asks@.len() * MAX_LEVEL_VOLUME <= MAX_WALK_LEVELS * MAX_LEVEL_VOLUME)
            by (nonlinear_arith)
            requires
                asks@.len() <= MAX_WALK_LEVELS,
        ;
        assert(MAX_LEVEL_PRICE * walk_spec(asks@, bids@).0 <= MAX_LEVEL_PRICE * (
        MAX_WALK_LEVELS * MAX_LEVEL_VOLUME)) by (nonlinear_arith)
            requires
                walk_spec(asks@, bids@).0 <= MAX_WALK_LEVELS * MAX_LEVEL_VOLUME,
        ;
    }
    let na = asks.len();
    let mut ai: usize = 0;
    let mut bj: usize = bids.len();
    let mut cur_av: u64 = if na > 0 {
        asks[0].1
    } else {
        0
    };
    let mut cur_bv: u64 = if bj > 0 {
        bids[bj - 1].1
    } else {
        0
    };
    let mut total_volume: u64 = 0;
    let mut total_profit: u128 = 0;
    proof {
        assert(rem_front(asks@, 0, cur_av) =~= asks@);
        assert(rem_back(bids@, bids@.len() as int, cur_bv) =~= bids@);
    }
    while ai < na && bj > 0 && asks[ai].0 < bids[bj - 1].0
        invariant
            na == asks@.len(),
            ai <= na,
            bj <= bids@.len(),
            forall|i: int|
                0 <= i < asks@.len() ==> (#[trigger] asks@[i]).0 < MAX_LEVEL_PRICE && 0
                    < asks@[i].1 < MAX_LEVEL_VOLUME,
            forall|i: int|
                0 <= i < bids@.len() ==> (#[trigger] bids@[i]).0 < MAX_LEVEL_PRICE && 0
                    < bids@[i].1 < MAX_LEVEL_VOLUME,
            ai < na ==> 0 < cur_av <= asks@[ai as int].1,
            bj > 0 ==> 0 < cur_bv <= bids@[bj - 1].1,
            total_volume + walk_spec(
                rem_front(asks@, ai as int, cur_av),
                rem_back(bids@, bj as int, cur_bv),
            ).0 == walk_spec(asks@, bids@).0,
            total_profit + walk_spec(
                rem_front(asks@, ai as int, cur_av),
                rem_back(bids@, bj as int, cur_bv),
            ).1 == walk_spec(asks@, bids@).1,
            walk_spec(asks@, bids@).0 <= MAX_WALK_LEVELS * MAX_LEVEL_VOLUME,
            walk_spec(asks@, bids@).1 <= MAX_LEVEL_PRICE * (MAX_WALK_LEVELS * MAX_LEVEL_VOLUME),
        decreases na - ai + bj,
    {
        let ap = asks[ai].0;
        let bp = bids[bj - 1].0;
        let matched = if cur_av <= cur_bv {
            cur_av
        } else {
            cur_bv
        };
        let ghost ra = rem_front(asks@, ai as int, cur_av);
        let ghost rb = rem_back(bids@, bj as int, cur_bv);
        let ghost ra2 = if cur_av > cur_bv {
            ra.update(0, (ap, (cur_av - cur_bv) as u64))
        } else {
            ra.drop_first()
        };
        let ghost rb2 = if cur_av < cur_bv {
            rb.update(rb.len() - 1, (bp, (cur_bv - cur_av) as u64))
        } else {
            rb.drop_last()
        };
        proof {
            assert(ra[0] == (ap, cur_av));
            assert(rb[rb.len() - 1] == (bp, cur_bv));
            assert(walk_spec(ra, rb).0 == matched + walk_spec(ra2, rb2).0);
            assert(walk_spec(ra, rb).1 == matched * (bp - ap) + walk_spec(ra2, rb2).1);
            lemma_walk_nonneg(ra2, rb2);
        }
        total_volume = total_volume + matched;
        total_profit = total_profit + (matched as u128) * ((bp - ap) as u128);
        if cur_av > cur_bv {
            cur_av = cur_av - cur_bv;
            bj = bj - 1;
            if bj > 0 {
                cur_bv = bids[bj - 1].1;
            } else {
                cur_bv = 0;
            }
            proof {
                assert(rem_front(asks@, ai as int, cur_av) =~= ra2);
                assert(rem_back(bids@, bj as int, cur_bv) =~= rb2);
            }
        } else if cur_av < cur_bv {
            cur_bv = cur_bv - cur_av;
            ai = ai + 1;
            if ai < na {
                cur_av = asks[ai].1;
            } else {
                cur_av = 0;
            }
            proof {
                assert(rem_front(asks@, ai as int, cur_av) =~= ra2);
                assert(rem_back(bids@, bj as int, cur_bv) =~= rb2);
            }
        } else {
            ai = ai + 1;
            bj = bj - 1;
            if ai < na {
                cur_av = asks[ai].1;
            } else {
                cur_av = 0;
            }
            if bj > 0 {
                cur_bv = bids[bj - 1].1;
            } else {
                cur_bv = 0;
            }
            proof {
                assert(rem_front(asks@, ai as int, cur_av) =~= ra2);
                assert(rem_back(bids@, bj as int, cur_bv) =~= rb2);
            }
        }
    }
    proof {
        let ra = rem_front(asks@, ai as int, cur_av);
        let rb = rem_back(bids@, bj as int, cur_bv);
        if ai < na && bj > 0 {
            assert(ra[0].0 == asks@[ai as int].0);
            assert(rb[rb.len() - 1].0 == bids@[bj - 1].0);
            assert(walk_spec(ra, rb) == (0int, 0int));
        } else {
            assert(ra.len() == 0 || rb.len() == 0);
        }
    }
    (total_volume, total_profit)
}

impl ArbitrageManager {
    /// Scans the cache once for the highest bid and the lowest ask; returns a
    /// candidate exactly when they belong to entries whose ask is strictly
    /// below the bid.
    pub fn check_local_opportunities(&self) -> (r: Option<ArbitrageOpportunity>)
        ensures
            match r {
                Some(op) => exists|bi: int, ai: int|
                    #![trigger is_best_bid_entry(self.cache_view(), bi), is_best_ask_entry(self.cache_view(), ai)]
                    {
                        let c = self.cache_view();
                        &&& is_best_bid_entry(c, bi)
                        &&& is_best_ask_entry(c, ai)
                        &&& op.sell_exchange == c[bi].0
                        &&& op.sell_price == c[bi].1.best_bid->0
                        &&& op.buy_exchange == c[ai].0
                        &&& op.buy_price == c[ai].1.best_ask->0
                        &&& op.buy_price < op.sell_price
                    },
                None => forall|bi: int, ai: int|
                    is_best_bid_entry(self.cache_view(), bi) && is_best_ask_entry(
                        self.cache_view(),
                        ai,
                    ) ==> self.cache_view()[ai].1.best_ask->0 >= self.cache_view()[bi].1.best_bid->0,
            },
    {
        let c = &self.best_prices;
        let n = c.len();
        let mut best_bid_at: Option<usize> = None;
        let mut best_ask_at: Option<usize> = None;
        let mut i: usize = 0;
        while i < n
            invariant
                n == c@.len(),
                i <= n,
                match best_bid_at {
                    Some(b) => {
                        &&& b < i
                        &&& c@[b as int].1.best_bid is Some
                        &&& forall|j: int|
                            0 <= j < i && #[trigger] c@[j].1.best_bid is Some ==> c@[j].1.best_bid->0
                                <= c@[b as int].1.best_bid->0
                        &&& forall|j: int|
                            0 <= j < b && #[trigger] c@[j].1.best_bid is Some ==> c@[j].1.best_bid->0
                                < c@[b as int].1.best_bid->0
                    },
                    None => forall|j: int| 0 <= j < i ==> !(#[trigger] c@[j].1.best_bid is Some),
                },
                match best_ask_at {
                    Some(a) => {
                        &&& a < i
                        &&& c@[a as int].1.best_ask is Some
                        &&& forall|j: int|
                            0 <= j < i && #[trigger] c@[j].1.best_ask is Some ==> c@[j].1.best_ask->0
                                >= c@[a as int].1.best_ask->0
                        &&& forall|j: int|
                            0 <= j < a && #[trigger] c@[j].1.best_ask is Some ==> c@[j].1.best_ask->0
                                > c@[a as int].1.best_ask->0
                    },
                    None => forall|j: int| 0 <= j < i ==> !(#[trigger] c@[j].1.best_ask is Some),
                },
            decreases n - i,
        {
            if let Some(bid) = c[i].1.best_bid {
                let beats = match best_bid_at {
                    Some(b) => {
                        let cur = c[b].1.best_bid.unwrap();
                        bid > cur
                    },
                    None => true,
                };
                if beats {
                    best_bid_at = Some(i);
                }
            }
            if let Some(ask) = c[i].1.best_ask {
                let beats = match best_ask_at {
                    Some(a) => {
                        let cur = c[a].1.best_ask.unwrap();
                        ask < cur
                    },
                    None => true,
                };
                if beats {
                    best_ask_at = Some(i);
                }
            }
            i = i + 1;
        }
        if let (Some(a), Some(b)) = (best_ask_at, best_bid_at) {
            let buy_price = c[a].1.best_ask.unwrap();
            let sell_price = c[b].1.best_bid.unwrap();
            if buy_price < sell_price {
                proof {
                    assert(is_best_bid_entry(self.cache_view(), b as int));
                    assert(is_best_ask_entry(self.cache_view(), a as int));
                }
                return Some(
                    ArbitrageOpportunity {
                        buy_exchange: c[a].0,
                        sell_exchange: c[b].0,
                        buy_price,
                        sell_price,
                    },
                );
            }
        }
        proof {
            assert forall|bi: int, ai: int|
                is_best_bid_entry(self.cache_view(), bi) && is_best_ask_entry(
                    self.cache_view(),
                    ai,
                ) implies self.cache_view()[ai].1.best_ask->0
                >= self.cache_view()[bi].1.best_bid->0 by {
                let cv = self.cache_view();
                match (best_ask_at, best_bid_at) {
                    (Some(a), Some(b)) => {
                        assert(cv[ai].1.best_ask->0 >= cv[a as int].1.best_ask->0);
                        assert(cv[bi].1.best_bid->0 <= cv[b as int].1.best_bid->0);
                    },
                    (None, _) => {
                        assert(!(cv[ai].1.best_ask is Some));
                    },
                    (_, None) => {
                        assert(!(cv[bi].1.best_bid is Some));
                    },
                }
            }
        }
        None
    }

    /// Re-validates a candidate against the two venues' full books. The
    /// staleness guards run first: if the books' source timestamps are more
    /// than [`MAX_ORDERBOOK_TIME_GAP_MS`] apart, or the buy book is older
    /// than [`MAX_CURRENT_TIME_GAP_MS`] of wall-clock time (or from the
    /// future), there is no opportunity. Otherwise the greedy walk over the
    /// buy venue's asks and the sell venue's bids decides: a confirmation is
    /// returned exactly when it matches positive volume, carrying the two
    /// books' own best prices and the walk's totals.
    pub fn confirm_opportunity(
        &self,
        opportunity: ArbitrageOpportunity,
        buy_orderbook: &OrderBook,
        sell_orderbook: &OrderBook,
        now_ms: i64,
    ) -> (r: Option<ConfirmedArbitrageOpportunity>)
        requires
            side_bounded(buy_orderbook@.asks),
            side_bounded(sell_orderbook@.bids),
        ensures
            !guards_pass(buy_orderbook@.last_updated, sell_orderbook@.last_updated, now_ms)
                ==> r is None,
            guards_pass(buy_orderbook@.last_updated, sell_orderbook@.last_updated, now_ms) ==> ({
                let av = levels_seq(buy_orderbook@.asks);
                let bv = levels_seq(sell_orderbook@.bids);
                let w = walk_spec(av, bv);
                if w.0 > 0 {
                    r == Some(
                        ConfirmedArbitrageOpportunity {
                            buy_exchange: opportunity.buy_exchange,
                            sell_exchange: opportunity.sell_exchange,
                            buy_price: av[0].0,
                            sell_price: bv[bv.len() - 1].0,
                            volume: w.0 as u64,
                            estimated_profit: w.1 as u128,
                        },
                    )
                } else {
                    r is None
                }
            }),
    {
        let time_gap: i128 = (buy_orderbook.last_updated as i128) - (
        sell_orderbook.last_updated as i128);
        if time_gap > MAX_ORDERBOOK_TIME_GAP_MS as i128 || time_gap < -(
        MAX_ORDERBOOK_TIME_GAP_MS as i128) {
            return None;
        }
        let current_gap: i128 = (now_ms as i128) - (buy_orderbook.last_updated as i128);
        if current_gap < 0 || current_gap > MAX_CURRENT_TIME_GAP_MS as i128 {
            return None;
        }
        let ask_volumes = buy_orderbook.ask_levels();
        let bid_volumes = sell_orderbook.bid_levels();
        proof {
            assert(levels_of(levels_seq(buy_orderbook@.asks), buy_orderbook@.asks)) by {
                assert(levels_of(ask_volumes@, buy_orderbook@.asks));
            }
            lemma_levels_of_unique(
                levels_seq(buy_orderbook@.asks),
                ask_volumes@,
                buy_orderbook@.asks,
            );
            assert(levels_of(levels_seq(sell_orderbook@.bids), sell_orderbook@.bids)) by {
                assert(levels_of(bid_volumes@, sell_orderbook@.bids));
            }
            lemma_levels_of_unique(
                levels_seq(sell_orderbook@.bids),
                bid_volumes@,
                sell_orderbook@.bids,
            );
            assert forall|i: int| 0 <= i < ask_volumes@.len() implies (#[trigger] ask_volumes@[i]).0
                < MAX_LEVEL_PRICE && 0 < ask_volumes@[i].1 < MAX_LEVEL_VOLUME by {
                assert(buy_orderbook@.asks.contains_key(ask_volumes@[i].0));
            }
            assert forall|i: int| 0 <= i < bid_volumes@.len() implies (#[trigger] bid_volumes@[i]).0
                < MAX_LEVEL_PRICE && 0 < bid_volumes@[i].1 < MAX_LEVEL_VOLUME by {
                assert(sell_orderbook@.bids.contains_key(bid_volumes@[i].0));
            }
        }
        let walk = greedy_walk(&ask_volumes, &bid_volumes);
        let total_volume = walk.0;
        let total_profit = walk.1;
        if total_volume > 0 {
            Some(
                ConfirmedArbitrageOpportunity {
                    buy_exchange: opportunity.buy_exchange,
                    sell_exchange: opportunity.sell_exchange,
                    buy_price: ask_volumes[0].0,
                    sell_price: bid_volumes[bid_volumes.len() - 1].0,
                    volume: total_volume,
                    estimated_profit: total_profit,
                },
            )
        } else {
            None
        }
    }
}

} // verus!
