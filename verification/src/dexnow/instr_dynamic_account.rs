//! The decoded order-book content of a dynamic instrument account.

use super::line_px::LinePx;
use vstd::prelude::*;

verus! {

#[derive(Debug)]
pub struct InstrDynamicAccount {
    pub spot_bids: Vec<LinePx>,
    pub spot_asks: Vec<LinePx>,
}

} // verus!
