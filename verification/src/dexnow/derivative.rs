//! A derivative instance of an instrument.

use super::futures::Futures;
use vstd::prelude::*;

verus! {

/// Contains general data about derivative.
#[derive(Debug)]
pub struct Derivative {
    /// Derivative instance ID.
    pub instance_id: Option<u64>,
    /// Expiration date in seconds since epoch.
    pub expiration: Option<u64>,
    /// Futures data.
    pub futures: Futures,
    pub options_day_trades: Option<u64>,
    pub options_alltime_trades: Option<u64>,
}

} // verus!
