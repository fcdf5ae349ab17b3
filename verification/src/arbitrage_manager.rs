//! The orchestrator's state: the registered venues and the per-venue cache of
//! top-of-book prices, overwritten (never deleted) as adapter updates arrive.
//!
//! The surrounding run loop — spawning one worker per adapter and draining
//! the shared bounded channel — is async plumbing and lives outside the
//! library; it feeds every received update through [`ArbitrageManager::apply_update`].

pub mod analyze_opportunities;

use crate::exchange_update::BestPrices;
use crate::exchange_update::ExchangeUpdate;
use crate::exchange_update::VenueName;
use crate::trading_pair::ETradingPair;
use vstd::prelude::*;

verus! {

/// Whether `c` has an entry for venue `v`.
pub open spec fn cache_has_venue(c: Seq<(VenueName, BestPrices)>, v: VenueName) -> bool {
    exists|i: int| 0 <= i < c.len() && c[i].0 == v
}

/// An arbitrage manager that manages multiple exchanges and analyzes for
/// opportunities.
pub struct ArbitrageManager {
    /// List of exchanges to be managed in the arbitrage manager.
    exchanges: Vec<VenueName>,
    /// Cache best prices for each exchange, in first-seen order. The order is
    /// the explicit tie-break for the candidate scan.
    best_prices: Vec<(VenueName, BestPrices)>,
    /// The trading pair for which the arbitrage manager is managing
    /// exchanges.
    trading_pair: ETradingPair,
}

impl ArbitrageManager {
    /// The registered venues.
    pub closed spec fn exchanges_view(self) -> Seq<VenueName> {
        self.exchanges@
    }

    /// The best-price cache, in first-seen order.
    pub closed spec fn cache_view(self) -> Seq<(VenueName, BestPrices)> {
        self.best_prices@
    }

    /// The trading pair this manager was built for.
    pub closed spec fn pair(self) -> ETradingPair {
        self.trading_pair
    }

    /// Each venue has at most one cache entry.
    pub closed spec fn wf(self) -> bool {
        forall|i: int, j: int|
            0 <= i < j < self.best_prices@.len() ==> self.best_prices@[i].0
                != self.best_prices@[j].0
    }

    pub fn new(trading_pair: ETradingPair) -> (m: ArbitrageManager)
        ensures
            m.exchanges_view() == Seq::<VenueName>::empty(),
            m.cache_view() == Seq::<(VenueName, BestPrices)>::empty(),
            m.pair() == trading_pair,
            m.wf(),
    {
        ArbitrageManager { exchanges: Vec::new(), best_prices: Vec::new(), trading_pair }
    }

    /// Add a new exchange to the arbitrage manager to manage and update its
    /// order book. Exchanges are added only before the run loop starts.
    pub fn add_exchange(&mut self, exchange: VenueName)
        requires
            old(self).wf(),
        ensures
            final(self).exchanges_view() == old(self).exchanges_view().push(exchange),
            final(self).cache_view() == old(self).cache_view(),
            final(self).pair() == old(self).pair(),
            final(self).wf(),
    {
        self.exchanges.push(exchange);
    }

    /// Records one adapter update: overwrites the venue's cache entry, or
    /// appends one the first time the venue reports.
    pub fn apply_update(&mut self, update: ExchangeUpdate)
        requires
            old(self).wf(),
        ensures
            final(self).wf(),
            final(self).exchanges_view() == old(self).exchanges_view(),
            final(self).pair() == old(self).pair(),
            cache_has_venue(old(self).cache_view(), update.exchange_name) ==> {
                let i = choose|i: int|
                    0 <= i < old(self).cache_view().len() && old(self).cache_view()[i].0
                        == update.exchange_name;
                final(self).cache_view() == old(self).cache_view().update(
                    i,
                    (update.exchange_name, update.best_prices),
                )
            },
            !cache_has_venue(old(self).cache_view(), update.exchange_name)
                ==> final(self).cache_view() == old(self).cache_view().push(
                (update.exchange_name, update.best_prices),
            ),
    {
        let n = self.best_prices.len();
        let mut i: usize = 0;
        while i < n
            invariant
                *self == *old(self),
                old(self).wf(),
                n == self.best_prices@.len(),
                i <= n,
                forall|j: int| 0 <= j < i ==> self.best_prices@[j].0 != update.exchange_name,
            decreases n - i,
        {
            if self.best_prices[i].0 == update.exchange_name {
                self.best_prices.set(i, (update.exchange_name, update.best_prices));
                proof {
                    let c0 = old(self).cache_view();
                    assert(cache_has_venue(c0, update.exchange_name)) by {
                        assert(c0[i as int].0 == update.exchange_name);
                    }
                    let w = choose|w: int|
                        0 <= w < c0.len() && c0[w].0 == update.exchange_name;
                    assert(w == i as int) by {
                        if w < i as int {
                            assert(c0[w].0 != update.exchange_name);
                        } else if w > i as int {
                            assert(c0[i as int].0 != c0[w].0);
                        }
                    }
                }
                return ;
            }
            i = i + 1;
        }
        self.best_prices.push((update.exchange_name, update.best_prices));
        proof {
            let c0 = old(self).cache_view();
            assert(!cache_has_venue(c0, update.exchange_name));
            assert(final(self).cache_view() == c0.push(
                (update.exchange_name, update.best_prices),
            ));
        }
    }
}

} // verus!
