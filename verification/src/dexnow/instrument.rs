//! An instrument registered with the venue.

use super::TAccountKey;
use super::derivative::Derivative;
use super::spot::Spot;
use vstd::prelude::*;

verus! {

/// Contains data about instrument.
#[derive(Debug)]
pub struct Instrument {
    pub static_account: TAccountKey,
    /// Account that stores all trading data about instrument.
    pub dynamic_account: TAccountKey,
    pub trace_account: Option<TAccountKey>,
    pub lut_account: Option<TAccountKey>,
    /// Instrument ID.
    pub id: u64,
    pub asset_token_id: u64,
    pub base_crncy_token_id: u64,
    /// True value means options pool token instrument.
    pub pool: bool,
    /// If instrument has derivatives refers to options pool token ID.
    pub pool_token_id: Option<u64>,
    /// Spot trading data.
    pub spot: Spot,
    pub derivatives_count: u64,
    pub dividends_time: Option<u64>,
    /// Derivatives trading data.
    pub derivatives: Vec<Derivative>,
}

} // verus!
