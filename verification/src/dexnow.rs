//! The account-polled on-chain venue: binary account layouts, their
//! decoders, the id-derivation seed buffers, the subscription messages, and
//! the snapshot-style book updates its engine produces.

pub mod account_notification;
pub mod account_subscribe;
pub mod constants;
pub mod decode_instr_dynamic_account;
pub mod derivative;
pub mod find_account_by_tag;
pub mod futures;
pub mod get_instrument_id;
pub mod get_token_id;
pub mod initialize_engine;
pub mod instr_dynamic_account;
pub mod instrument;
pub mod line_px;
pub mod process_orderbook_update;
pub mod read_basic_types;
pub mod read_int_uint;
pub mod spot;
pub mod subscription_response;
pub mod token;
pub mod token_dec;

use vstd::prelude::*;

verus! {

/// An on-chain account address: 32 raw key bytes.
pub type TAccountKey = [u8; 32];

} // verus!
