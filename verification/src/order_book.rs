//! Sequence-versioned bid/ask ladder for one venue/instrument pair.
//!
//! Both sides are ordered maps from price to volume. A level with volume 0 is
//! logically absent and is never stored. The book rejects delta updates whose
//! sequence does not exceed the current one; a snapshot update replaces the
//! whole book unconditionally.

use crate::TPrice;
use crate::TVolume;
use std::collections::BTreeMap;
use vstd::prelude::*;

verus! {

broadcast use {vstd::std_specs::btree::group_btree_axioms, vstd::laws_cmp::group_laws_cmp};

use vstd::std_specs::btree::increasing_seq;
use vstd::std_specs::cmp::OrdSpec;

/// Whether a normalized update is a full replacement or an incremental change.
#[derive(Clone, Copy, Debug, PartialEq, Eq, Structural)]
pub enum UpdateType {
    Snapshot,
    Delta,
}

/// A normalized order-book update, the single shape every venue decoder
/// produces: a list of level changes per side, the venue's native sequence
/// (or slot) number, and the venue-reported event timestamp in milliseconds.
#[derive(Debug)]
pub struct VenueUpdate {
    pub kind: UpdateType,
    pub sequence: u64,
    pub event_time: i64,
    pub bid_changes: Vec<(TPrice, TVolume)>,
    pub ask_changes: Vec<(TPrice, TVolume)>,
}

/// Mathematical model of a [`VenueUpdate`].
pub struct UpdateModel {
    pub kind: UpdateType,
    pub sequence: u64,
    pub event_time: i64,
    pub bid_changes: Seq<(TPrice, TVolume)>,
    pub ask_changes: Seq<(TPrice, TVolume)>,
}

impl View for VenueUpdate {
    type V = UpdateModel;

    open spec fn view(&self) -> UpdateModel {
        UpdateModel {
            kind: self.kind,
            sequence: self.sequence,
            event_time: self.event_time,
            bid_changes: self.bid_changes@,
            ask_changes: self.ask_changes@,
        }
    }
}

/// An order book for a single market pair.
/// It maintains both buy and sell orders in sorted order of price.
pub struct OrderBook {
    pub bids: BTreeMap<TPrice, TVolume>,
    pub asks: BTreeMap<TPrice, TVolume>,
    /// The timestamp from the match engine when this orderbook data was
    /// produced (milliseconds since the epoch, not local receipt time).
    pub last_updated: i64,
    /// Cross sequence.
    pub sequence: u64,
}

/// Mathematical model of an [`OrderBook`]: each side as a map from price to
/// volume, plus the version metadata.
pub struct BookModel {
    pub bids: Map<TPrice, TVolume>,
    pub asks: Map<TPrice, TVolume>,
    pub last_updated: i64,
    pub sequence: u64,
}

impl View for OrderBook {
    type V = BookModel;

    open spec fn view(&self) -> BookModel {
        BookModel {
            bids: self.bids@,
            asks: self.asks@,
            last_updated: self.last_updated,
            sequence: self.sequence,
        }
    }
}

/// A side never stores a level with volume 0.
pub open spec fn side_wf(m: Map<TPrice, TVolume>) -> bool {
    forall|p: TPrice| m.contains_key(p) ==> m[p] > 0
}

impl BookModel {
    /// Both sides obey [`side_wf`].
    pub open spec fn wf(self) -> bool {
        side_wf(self.bids) && side_wf(self.asks)
    }

    pub open spec fn empty() -> BookModel {
        BookModel {
            bids: Map::empty(),
            asks: Map::empty(),
            last_updated: 0,
            sequence: 0,
        }
    }
}

/// The effect of a list of level changes on one side: volume 0 removes the
/// price, any other volume upserts it; later changes win.
pub open spec fn apply_levels_spec(
    m: Map<TPrice, TVolume>,
    changes: Seq<(TPrice, TVolume)>,
) -> Map<TPrice, TVolume>
    decreases changes.len(),
{
    if changes.len() == 0 {
        m
    } else {
        let rest = apply_levels_spec(m, changes.drop_last());
        let (price, volume) = changes.last();
        if volume == 0 {
            rest.remove(price)
        } else {
            rest.insert(price, volume)
        }
    }
}

/// The effect of one update on a whole book. A snapshot replaces the book
/// with the supplied levels and resets the version metadata; a delta whose
/// sequence does not exceed the current one leaves the book unchanged; any
/// other delta upserts/removes its levels and advances the metadata.
pub open spec fn apply_spec(b: BookModel, u: UpdateModel) -> BookModel {
    if u.kind is Snapshot {
        BookModel {
            bids: apply_levels_spec(Map::empty(), u.bid_changes),
            asks: apply_levels_spec(Map::empty(), u.ask_changes),
            last_updated: u.event_time,
            sequence: u.sequence,
        }
    } else if u.sequence <= b.sequence {
        b
    } else {
        BookModel {
            bids: apply_levels_spec(b.bids, u.bid_changes),
            asks: apply_levels_spec(b.asks, u.ask_changes),
            last_updated: u.event_time,
            sequence: u.sequence,
        }
    }
}

/// The effect of a whole batch of updates, applied in order.
pub open spec fn apply_all(b: BookModel, us: Seq<UpdateModel>) -> BookModel
    decreases us.len(),
{
    if us.len() == 0 {
        b
    } else {
        apply_all(apply_spec(b, us.first()), us.drop_first())
    }
}

/// The in-order subsequence of a batch of deltas: the updates that a book at
/// sequence `cur` actually accepts, each raising the running sequence.
pub open spec fn in_order_subseq(us: Seq<UpdateModel>, cur: u64) -> Seq<UpdateModel>
    decreases us.len(),
{
    if us.len() == 0 {
        Seq::empty()
    } else if us.first().sequence > cur {
        seq![us.first()] + in_order_subseq(us.drop_first(), us.first().sequence)
    } else {
        in_order_subseq(us.drop_first(), cur)
    }
}

/// Snapshot replacement: a snapshot update fully replaces any prior state,
/// so two books, whatever they held before, agree after applying the same
/// snapshot. The implementation never merges, only replaces.
pub proof fn lemma_snapshot_replaces(b1: BookModel, b2: BookModel, u: UpdateModel)
    requires
        u.kind is Snapshot,
    ensures
        apply_spec(b1, u) == apply_spec(b2, u),
{
}

/// Zero-volume removal: a delta that carries volume 0 for one bid price
/// removes exactly that price key; when the price is absent, the book is
/// left as it was.
pub proof fn lemma_zero_volume_removal(b: BookModel, u: UpdateModel, p: TPrice)
    requires
        u.kind is Delta,
        u.sequence > b.sequence,
        u.bid_changes == seq![(p, 0u64)],
        u.ask_changes == Seq::<(TPrice, TVolume)>::empty(),
    ensures
        apply_spec(b, u).bids == b.bids.remove(p),
        apply_spec(b, u).asks == b.asks,
        !b.bids.contains_key(p) ==> apply_spec(b, u).bids == b.bids,
{
    assert(u.bid_changes.drop_last() =~= Seq::<(TPrice, TVolume)>::empty());
    assert(u.bid_changes.last() == (p, 0u64));
    assert(apply_levels_spec(b.bids, Seq::<(TPrice, TVolume)>::empty()) == b.bids);
    assert(apply_levels_spec(b.asks, Seq::<(TPrice, TVolume)>::empty()) == b.asks);
    assert(apply_levels_spec(b.bids, u.bid_changes) == b.bids.remove(p));
    if !b.bids.contains_key(p) {
        assert(b.bids.remove(p) =~= b.bids);
    }
}

/// A batch of deltas at or below the book's sequence changes nothing.
pub proof fn lemma_stale_batch_is_noop(b: BookModel, ws: Seq<UpdateModel>)
    requires
        forall|i: int|
            0 <= i < ws.len() ==> (#[trigger] ws[i]).kind is Delta && ws[i].sequence <= b.sequence,
    ensures
        apply_all(b, ws) == b,
    decreases ws.len(),
{
    if ws.len() > 0 {
        assert(ws[0] == ws.first());
        assert(apply_spec(b, ws.first()) == b);
        assert forall|i: int| 0 <= i < ws.drop_first().len() implies (#[trigger] ws.drop_first()[
        i]).kind is Delta && ws.drop_first()[i].sequence <= b.sequence by {
            assert(ws.drop_first()[i] == ws[i + 1]);
        }
        lemma_stale_batch_is_noop(b, ws.drop_first());
    }
}

/// Applying deltas never lowers the book's sequence.
pub proof fn lemma_apply_all_monotone(b: BookModel, us: Seq<UpdateModel>)
    requires
        forall|i: int| 0 <= i < us.len() ==> (#[trigger] us[i]).kind is Delta,
    ensures
        apply_all(b, us).sequence >= b.sequence,
    decreases us.len(),
{
    if us.len() > 0 {
        assert(us[0] == us.first());
        assert forall|i: int|
            0 <= i < us.drop_first().len() implies (#[trigger] us.drop_first()[
        i]).kind is Delta by {
            assert(us.drop_first()[i] == us[i + 1]);
        }
        lemma_apply_all_monotone(apply_spec(b, us.first()), us.drop_first());
    }
}

/// After a batch of deltas, the book's sequence is at or above every
/// sequence the batch carried, whether or not that update was accepted.
pub proof fn lemma_apply_all_reaches(b: BookModel, us: Seq<UpdateModel>)
    requires
        forall|i: int| 0 <= i < us.len() ==> (#[trigger] us[i]).kind is Delta,
    ensures
        forall|i: int|
            0 <= i < us.len() ==> apply_all(b, us).sequence >= (#[trigger] us[i]).sequence,
    decreases us.len(),
{
    if us.len() > 0 {
        let b2 = apply_spec(b, us.first());
        assert(us[0] == us.first());
        assert forall|i: int|
            0 <= i < us.drop_first().len() implies (#[trigger] us.drop_first()[
        i]).kind is Delta by {
            assert(us.drop_first()[i] == us[i + 1]);
        }
        lemma_apply_all_reaches(b2, us.drop_first());
        lemma_apply_all_monotone(b2, us.drop_first());
        assert forall|i: int|
            0 <= i < us.len() implies apply_all(b, us).sequence >= (#[trigger] us[i]).sequence by {
            if i > 0 {
                assert(us.drop_first()[i - 1] == us[i]);
            } else {
                assert(b2.sequence >= us[0].sequence);
            }
        }
    }
}

/// Applying a batch of deltas equals applying just its in-order subsequence:
/// the rejected ones never touched the book.
pub proof fn lemma_apply_all_in_order(b: BookModel, us: Seq<UpdateModel>)
    requires
        forall|i: int| 0 <= i < us.len() ==> (#[trigger] us[i]).kind is Delta,
    ensures
        apply_all(b, us) == apply_all(b, in_order_subseq(us, b.sequence)),
    decreases us.len(),
{
    if us.len() > 0 {
        let u = us.first();
        assert(us[0] == u);
        assert forall|i: int|
            0 <= i < us.drop_first().len() implies (#[trigger] us.drop_first()[
        i]).kind is Delta by {
            assert(us.drop_first()[i] == us[i + 1]);
        }
        if u.sequence > b.sequence {
            let b2 = apply_spec(b, u);
            lemma_apply_all_in_order(b2, us.drop_first());
            let rest = in_order_subseq(us.drop_first(), u.sequence);
            let whole = seq![u] + rest;
            assert(whole.first() == u);
            assert(whole.drop_first() =~= rest);
            assert(b2.sequence == u.sequence);
            assert(apply_all(b, whole) == apply_all(b2, rest));
        } else {
            assert(apply_spec(b, u) == b);
            lemma_apply_all_in_order(b, us.drop_first());
        }
    }
}

/// Sequencing: apply a batch of delta updates to a fresh book in any arrival
/// order, then re-apply updates whose sequences the batch already carried
/// (for instance the same batch sorted by increasing sequence). The final
/// book is exactly the book obtained by applying the arrival order's
/// in-order subsequence once each: reordering is repaired by idempotent
/// rejection of stale updates, and re-application changes nothing.
pub proof fn lemma_sequencing(us: Seq<UpdateModel>, ws: Seq<UpdateModel>)
    requires
        forall|i: int| 0 <= i < us.len() ==> (#[trigger] us[i]).kind is Delta,
        forall|i: int| 0 <= i < ws.len() ==> (#[trigger] ws[i]).kind is Delta,
        forall|i: int|
            0 <= i < ws.len() ==> exists|j: int|
                0 <= j < us.len() && (#[trigger] ws[i]).sequence <= us[j].sequence,
    ensures
        apply_all(apply_all(BookModel::empty(), us), ws) == apply_all(
            BookModel::empty(),
            in_order_subseq(us, 0),
        ),
{
    let b = apply_all(BookModel::empty(), us);
    lemma_apply_all_reaches(BookModel::empty(), us);
    assert forall|i: int|
        0 <= i < ws.len() implies (#[trigger] ws[i]).kind is Delta && ws[i].sequence
        <= b.sequence by {
        let j = choose|j: int| 0 <= j < us.len() && ws[i].sequence <= us[j].sequence;
        assert(b.sequence >= us[j].sequence);
    }
    lemma_stale_batch_is_noop(b, ws);
    lemma_apply_all_in_order(BookModel::empty(), us);
}

/// An update with a sequence at or below the book's is dropped, silently, as
/// a non-fatal condition.
#[derive(Clone, Copy, Debug, PartialEq, Eq, Structural)]
pub enum ApplyError {
    StaleUpdate,
}

/// [`apply_levels_spec`] only ever inserts positive volumes, so it keeps a
/// side well formed.
pub proof fn lemma_apply_levels_wf(m: Map<TPrice, TVolume>, changes: Seq<(TPrice, TVolume)>)
    requires
        side_wf(m),
    ensures
        side_wf(apply_levels_spec(m, changes)),
    decreases changes.len(),
{
    if changes.len() > 0 {
        lemma_apply_levels_wf(m, changes.drop_last());
    }
}

/// Applying one change list step by step: the result after the first `i + 1`
/// changes extends the result after the first `i`.
proof fn lemma_apply_levels_take_step(
    m: Map<TPrice, TVolume>,
    changes: Seq<(TPrice, TVolume)>,
    i: int,
)
    requires
        0 <= i < changes.len(),
    ensures
        apply_levels_spec(m, changes.take(i + 1)) == {
            let rest = apply_levels_spec(m, changes.take(i));
            let (price, volume) = changes[i];
            if volume == 0 {
                rest.remove(price)
            } else {
                rest.insert(price, volume)
            }
        },
{
    assert(changes.take(i + 1).drop_last() =~= changes.take(i));
    assert(changes.take(i + 1).last() == changes[i]);
}

/// Applies a list of level changes to one side, in order.
fn apply_levels(side: &mut BTreeMap<TPrice, TVolume>, changes: &Vec<(TPrice, TVolume)>)
    ensures
        final(side)@ == apply_levels_spec(old(side)@, changes@),
{
    let ghost m0 = side@;
    let mut i: usize = 0;
    while i < changes.len()
        invariant
            i <= changes.len(),
            side@ == apply_levels_spec(m0, changes@.take(i as int)),
        decreases changes.len() - i,
    {
        let (price, volume) = changes[i];
        if volume == 0 {
            side.remove(&price);
        } else {
            side.insert(price, volume);
        }
        proof {
            lemma_apply_levels_take_step(m0, changes@, i as int);
        }
        i = i + 1;
    }
    proof {
        assert(changes@.take(changes@.len() as int) =~= changes@);
    }
}

/// `o` is the maximum price of side `m`, or nothing exactly when the side is
/// empty.
pub open spec fn is_best_bid_of(m: Map<TPrice, TVolume>, o: Option<TPrice>) -> bool {
    match o {
        Some(p) => m.contains_key(p) && forall|q: TPrice| #[trigger] m.contains_key(q) ==> q <= p,
        None => m.len() == 0,
    }
}

/// `o` is the minimum price of side `m`, or nothing exactly when the side is
/// empty.
pub open spec fn is_best_ask_of(m: Map<TPrice, TVolume>, o: Option<TPrice>) -> bool {
    match o {
        Some(p) => m.contains_key(p) && forall|q: TPrice| #[trigger] m.contains_key(q) ==> q >= p,
        None => m.len() == 0,
    }
}

/// Whether some level in `v` carries the price `k`.
pub open spec fn has_price(v: Seq<(TPrice, TVolume)>, k: TPrice) -> bool {
    exists|i: int| 0 <= i < v.len() && v[i].0 == k
}

/// A price-ascending list of levels faithfully representing one side.
pub open spec fn levels_of(v: Seq<(TPrice, TVolume)>, m: Map<TPrice, TVolume>) -> bool {
    &&& v.len() == m.len()
    &&& forall|i: int, j: int| 0 <= i < j < v.len() ==> v[i].0 < v[j].0
    &&& forall|i: int|
        0 <= i < v.len() ==> #[trigger] m.contains_key(v[i].0) && m[v[i].0] == v[i].1
    &&& forall|k: TPrice| #[trigger] m.contains_key(k) ==> has_price(v, k)
}

/// Collects one side into a vector of (price, volume) pairs, sorted by
/// ascending price.
pub fn side_levels(m: &BTreeMap<TPrice, TVolume>) -> (v: Vec<(TPrice, TVolume)>)
    ensures
        levels_of(v@, m@),
{
    let mut v: Vec<(TPrice, TVolume)> = Vec::new();
    for kv in it: m.iter()
        invariant
            v@.len() == it.index(),
            it.seq().len() == m@.len(),
            increasing_seq(it.seq().map_values(|p: (&TPrice, &TVolume)| *p.0)),
            forall|j: int|
                0 <= j < it.seq().len() ==> #[trigger] m@.contains_key(*it.seq()[j].0)
                    && m@[*it.seq()[j].0] == *it.seq()[j].1,
            forall|j: int| 0 <= j < v@.len() ==> v@[j] == (*it.seq()[j].0, *it.seq()[j].1),
            forall|i: int, j: int| 0 <= i < j < v@.len() ==> v@[i].0 < v@[j].0,
            forall|i: int|
                0 <= i < v@.len() ==> #[trigger] m@.contains_key(v@[i].0) && m@[v@[i].0]
                    == v@[i].1,
            forall|k: TPrice|
                #[trigger] m@.contains_key(k) && !has_price(v@, k) ==> exists|j: int|
                    it.index() <= j < it.seq().len() && *it.seq()[j].0 == k,
    {
        let ghost v0 = v@;
        proof {
            let s = it.seq();
            let keys = s.map_values(|p: (&TPrice, &TVolume)| *p.0);
            let n = it.index();
            assert forall|i: int| 0 <= i < v@.len() implies v@[i].0 < *s[n].0 by {
                assert(keys[i].cmp_spec(&keys[n]) is Less);
            }
        }
        v.push((*kv.0, *kv.1));
        proof {
            let s = it.seq();
            let n = it.index();
            assert(v@ == v0.push((*s[n].0, *s[n].1)));
            assert forall|k: TPrice|
                #[trigger] m@.contains_key(k) && !has_price(v@, k) implies exists|j: int|
                n + 1 <= j < s.len() && *s[j].0 == k by {
                assert(!has_price(v0, k)) by {
                    if has_price(v0, k) {
                        let i = choose|i: int| 0 <= i < v0.len() && v0[i].0 == k;
                        assert(v@[i].0 == k);
                    }
                }
                let j = choose|j: int| n <= j < s.len() && *s[j].0 == k;
                assert(j != n) by {
                    assert(v@[v@.len() - 1].0 == *s[n].0);
                }
                assert(n + 1 <= j < s.len() && *s[j].0 == k);
            }
        }
    }
    proof {
        assert forall|k: TPrice| #[trigger] m@.contains_key(k) implies has_price(v@, k) by {
            if !has_price(v@, k) {
                assert(false);
            }
        }
    }
    v
}

impl OrderBook {
    /// A fresh, empty book: no levels on either side, sequence 0 (the value
    /// reserved for "full reset"), epoch timestamp.
    pub fn new() -> (book: OrderBook)
        ensures
            book@ == BookModel::empty(),
    {
        let book = OrderBook {
            bids: BTreeMap::new(),
            asks: BTreeMap::new(),
            last_updated: 0,
            sequence: 0,
        };
        proof {
            assert(book@ =~= BookModel::empty()) by {
                assert(book@.bids =~= Map::<TPrice, TVolume>::empty());
                assert(book@.asks =~= Map::<TPrice, TVolume>::empty());
            }
        }
        book
    }

    /// Applies one normalized update, per [`apply_spec`]: snapshots replace
    /// the book unconditionally; a delta is rejected as stale if and only if
    /// its sequence does not exceed the book's.
    pub fn apply(&mut self, update: &VenueUpdate) -> (r: Result<(), ApplyError>)
        ensures
            final(self)@ == apply_spec(old(self)@, update@),
            r is Ok <==> (update.kind is Snapshot || update.sequence > old(self)@.sequence),
            r is Err ==> r == Result::<(), ApplyError>::Err(ApplyError::StaleUpdate),
            old(self)@.wf() ==> final(self)@.wf(),
    {
        proof {
            if old(self)@.wf() {
                lemma_apply_levels_wf(old(self)@.bids, update@.bid_changes);
                lemma_apply_levels_wf(old(self)@.asks, update@.ask_changes);
            }
            lemma_apply_levels_wf(Map::empty(), update@.bid_changes);
            lemma_apply_levels_wf(Map::empty(), update@.ask_changes);
        }
        match update.kind {
            UpdateType::Snapshot => {
                self.bids.clear();
                self.asks.clear();
                apply_levels(&mut self.bids, &update.bid_changes);
                apply_levels(&mut self.asks, &update.ask_changes);
                self.sequence = update.sequence;
                self.last_updated = update.event_time;
                Ok(())
            },
            UpdateType::Delta => {
                if update.sequence <= self.sequence {
                    return Err(ApplyError::StaleUpdate);
                }
                apply_levels(&mut self.bids, &update.bid_changes);
                apply_levels(&mut self.asks, &update.ask_changes);
                self.sequence = update.sequence;
                self.last_updated = update.event_time;
                Ok(())
            },
        }
    }
    /// Returns the ask side (what this venue sells at), best price first.
    pub fn ask_levels(&self) -> (v: Vec<(TPrice, TVolume)>)
        ensures
            levels_of(v@, self@.asks),
    {
        side_levels(&self.asks)
    }

    /// Returns the bid side (what this venue buys at), sorted by ascending
    /// price, so the best bid comes last.
    pub fn bid_levels(&self) -> (v: Vec<(TPrice, TVolume)>)
        ensures
            levels_of(v@, self@.bids),
    {
        side_levels(&self.bids)
    }

    /// Returns the best bid price: the maximum key among bids, or nothing on
    /// an empty side.
    pub fn get_best_bid(&self) -> (r: Option<TPrice>)
        ensures
            is_best_bid_of(self@.bids, r),
    {
        let v = side_levels(&self.bids);
        if v.len() == 0 {
            None
        } else {
            let p = v[v.len() - 1].0;
            proof {
                assert forall|q: TPrice| #[trigger] self@.bids.contains_key(q) implies q <= p by {
                    let i = choose|i: int| 0 <= i < v@.len() && v@[i].0 == q;
                    if i < v@.len() - 1 {
                        assert(v@[i].0 < v@[v@.len() - 1].0);
                    }
                }
            }
            Some(p)
        }
    }

    /// Returns the best ask price: the minimum key among asks, or nothing on
    /// an empty side.
    pub fn get_best_ask(&self) -> (r: Option<TPrice>)
        ensures
            is_best_ask_of(self@.asks, r),
    {
        let v = side_levels(&self.asks);
        if v.len() == 0 {
            None
        } else {
            let p = v[0].0;
            proof {
                assert forall|q: TPrice| #[trigger] self@.asks.contains_key(q) implies q >= p by {
                    let i = choose|i: int| 0 <= i < v@.len() && v@[i].0 == q;
                    if i > 0 {
                        assert(v@[0].0 < v@[i].0);
                    }
                }
            }
            Some(p)
        }
    }
}

} // verus!
