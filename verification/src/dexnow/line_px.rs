//! One order-book line of the on-chain engine, and its conversion into the
//! core's ticks.

use super::constants::DEC;
use super::token_dec::lemma_pow10_positive;
use super::token_dec::pow10;
use super::token_dec::token_dec;
use crate::TICKS_PER_UNIT;
use crate::TPrice;
use crate::TVolume;
use vstd::prelude::*;

verus! {

/// Contains data about orderbook line, in the engine's raw integer units:
/// the price carries [`DEC`] fixed-point decimals, the quantity the asset
/// token's own decimals.
#[derive(Clone, Copy, Debug, PartialEq, Eq, Structural)]
pub struct LinePx {
    /// Price.
    pub px: i64,
    /// Quantity.
    pub qty: i64,
}

/// The tick value of a raw on-chain price.
pub open spec fn px_ticks(px: int) -> int {
    px * TICKS_PER_UNIT / DEC as int
}

/// The tick value of a raw on-chain quantity of a token with
/// `asset_decimals` decimals.
pub open spec fn qty_ticks(qty: int, asset_decimals: nat) -> int {
    qty * TICKS_PER_UNIT / pow10(asset_decimals)
}

/// Whether a line converts into ticks: both values non-negative and both
/// tick values within `u64`.
pub open spec fn line_converts(line: LinePx, asset_decimals: nat) -> bool {
    &&& line.px >= 0
    &&& line.qty >= 0
    &&& px_ticks(line.px as int) <= u64::MAX
    &&& qty_ticks(line.qty as int, asset_decimals) <= u64::MAX
}

impl LinePx {
    /// Converts this line from the engine's raw units into core ticks:
    /// price scaled by ticks-per-unit over the engine's fixed-point
    /// denominator, quantity by ticks-per-unit over the asset token's
    /// decimal factor. Nothing is returned for a negative or overflowing
    /// line.
    pub fn to_ticks(self, asset_decimals: u8) -> (r: Option<(TPrice, TVolume)>)
        requires
            asset_decimals <= 15,
        ensures
            r is Some <==> line_converts(self, asset_decimals as nat),
            r matches Some(t) ==> t.0 == px_ticks(self.px as int) && t.1 == qty_ticks(
                self.qty as int,
                asset_decimals as nat,
            ),
    {
        if self.px < 0 || self.qty < 0 {
            return None;
        }
        proof {
            lemma_pow10_positive(asset_decimals as nat);
        }
        let dec_factor = token_dec(asset_decimals);
        let px128 = (self.px as u128) * (TICKS_PER_UNIT as u128) / (DEC as u128);
        let qty128 = (self.qty as u128) * (TICKS_PER_UNIT as u128) / (dec_factor as u128);
        if px128 > u64::MAX as u128 || qty128 > u64::MAX as u128 {
            return None;
        }
        Some((px128 as u64, qty128 as u64))
    }
}

} // verus!
