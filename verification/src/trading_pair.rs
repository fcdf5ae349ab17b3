//! The trading pairs this build supports.

use vstd::prelude::*;

verus! {

#[derive(Clone, Copy, Debug, PartialEq, Eq, Structural)]
pub enum ETradingPair {
    /// Not supported by DEXnow.
    BtcUsdc,
    SolUsdc,
}

impl ETradingPair {
    /// Every supported pair, in declaration order.
    pub fn all() -> (v: Vec<ETradingPair>)
        ensures
            v@ == seq![ETradingPair::BtcUsdc, ETradingPair::SolUsdc],
    {
        let mut v: Vec<ETradingPair> = Vec::new();
        v.push(ETradingPair::BtcUsdc);
        v.push(ETradingPair::SolUsdc);
        proof {
            assert(v@ =~= seq![ETradingPair::BtcUsdc, ETradingPair::SolUsdc]);
        }
        v
    }

    /// The spot instrument symbol used in websocket subscriptions.
    pub fn instrument_symbol(&self) -> (r: &'static str)
        ensures
            *self is BtcUsdc ==> r@ == "BTCUSDC"@,
            *self is SolUsdc ==> r@ == "SOLUSDC"@,
    {
        match self {
            ETradingPair::BtcUsdc => "BTCUSDC",
            ETradingPair::SolUsdc => "SOLUSDC",
        }
    }
}

} // verus!
