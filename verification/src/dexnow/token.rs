//! A token registered with the venue.

use super::TAccountKey;
use vstd::prelude::*;

verus! {

/// Contains data about Token.
#[derive(Clone, Copy, Debug)]
pub struct Token {
    /// Venue account that stores data about the registered token.
    pub account: TAccountKey,
    /// Mint token address.
    pub mint: TAccountKey,
    /// SPL token account in which tokens are stored.
    pub program_address: TAccountKey,
    /// Token ID.
    pub id: u64,
    pub decimals: u8,
    pub base_crncy: bool,
    /// True if options pool token.
    pub pool: bool,
    pub token_2022: bool,
    /// Options pool token indicates main instrument ID.
    pub main_instr_id: Option<u64>,
}

} // verus!
