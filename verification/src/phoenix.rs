//! Market-state value types of the alternative on-chain venue.

pub mod market_state;
