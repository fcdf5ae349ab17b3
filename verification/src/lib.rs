//! Cross-venue arbitrage detection core.
//!
//! The crate maintains sequence-versioned order books fed by venue adapters,
//! caches each venue's top-of-book, and runs a two-phase detector: a cheap
//! scan over the cache followed by a liquidity-aware confirmation walk over
//! full books. Prices and volumes are fixed-point integers; timestamps are
//! milliseconds since the epoch.

use vstd::prelude::*;

pub mod arbitrage_manager;
pub mod bybit;
pub mod dexnow;
pub mod exchange_update;
pub mod order_book;
pub mod phoenix;
pub mod session;
pub mod trading_pair;

verus! {

/// Smallest price unit. A price `p` stands for the real number `p` venue
/// ticks; adapters scale venue decimals into ticks before the core sees them.
pub type TPrice = u64;

/// Smallest volume unit, scaled the same way.
pub type TVolume = u64;

/// How many ticks make up one whole price or volume unit. Every adapter
/// scales its venue's native units by this factor, so prices from different
/// venues are comparable in the cache and the detector.
pub const TICKS_PER_UNIT: u64 = 1_000_000;

} // verus!
