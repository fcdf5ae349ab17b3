//! Binary layout constants of the venue's on-chain accounts: tags, null
//! markers, field offsets and record sizes.

use vstd::prelude::*;

verus! {

pub const U32_BIT_31: u32 = 0x8000_0000;

pub const U32_BIT_30: u32 = 0x4000_0000;

/// Fixed-point denominator of on-chain prices.
pub const DEC: u64 = 1_000_000_000;

pub const NULL_ORDER: u16 = 0xFFFF;

pub const NULL_TASK: u16 = 0xFFFF;

pub const NULL_CLIENT: u32 = 0xFFFFFF;

pub const NULL_INSTR: u32 = 0xFFFFFFF;

pub const INSTR_STATIC_TAG: u32 = 6;

pub const TOKEN_TAG: u32 = 4;

/// Order-book depth stored in a dynamic instrument account.
pub const MARKET_DEPTH: usize = 20;

pub const ROOT_ACCOUNT_TAG_OFFSET: usize = 0;

pub const ROOT_ACCOUNT_VERSION_OFFSET: usize = 4;

pub const ROOT_ACCOUNT_OPERATOR_ADDRESS_OFFSET: usize = 8;

pub const ROOT_ACCOUNT_HOLDER_ADDRESS_OFFSET: usize = 40;

pub const ROOT_ACCOUNT_COMMUNITY_ADDRESS_OFFSET: usize = 72;

pub const ROOT_ACCOUNT_DISTRIB_ADDRESS_OFFSET: usize = 104;

pub const ROOT_ACCOUNT_DEXNOW_MINT_ADDRESS_OFFSET: usize = 136;

pub const ROOT_ACCOUNT_LUT_ADDRESS_OFFSET: usize = 168;

pub const ROOT_ACCOUNT_SOL_PROGRAM_ADDRESS_OFFSET: usize = 200;

pub const ROOT_ACCOUNT_SOL_MASK_OFFSET: usize = 232;

pub const ROOT_ACCOUNT_CLIENTS_COUNT_OFFSET: usize = 236;

pub const ROOT_ACCOUNT_TOKENS_COUNT_OFFSET: usize = 240;

pub const ROOT_ACCOUNT_INSTR_COUNT_OFFSET: usize = 244;

pub const ROOT_ACCOUNT_SIZE: usize = 248;

pub const TOKEN_ACCOUNT_TAG_OFFSET: usize = 0;

pub const TOKEN_ACCOUNT_VERSION_OFFSET: usize = 4;

pub const TOKEN_ACCOUNT_ROOT_ADDRESS_OFFSET: usize = 8;

pub const TOKEN_ACCOUNT_ADDRESS_OFFSET: usize = 40;

pub const TOKEN_ACCOUNT_PROGRAM_ADDRESS_OFFSET: usize = 72;

pub const TOKEN_ACCOUNT_ID_OFFSET: usize = 104;

pub const TOKEN_ACCOUNT_MASK_OFFSET: usize = 108;

pub const TOKEN_ACCOUNT_BASE_INSTR_ID_OFFSET: usize = 112;

pub const TOKEN_ACCOUNT_BASE_CRNCY_OFFSET: usize = 116;

pub const TOKEN_ACCOUNT_SIZE: usize = 120;

pub const INSTR_STATIC_ACCOUNT_TAG_OFFSET: usize = 0;

pub const INSTR_STATIC_ACCOUNT_VERSION_OFFSET: usize = 4;

pub const INSTR_STATIC_ACCOUNT_ROOT_ADDRESS_OFFSET: usize = 8;

pub const INSTR_STATIC_ACCOUNT_DYNAMIC_ADDRESS_OFFSET: usize = 40;

pub const INSTR_STATIC_ACCOUNT_ID_OFFSET: usize = 72;

pub const INSTR_STATIC_ACCOUNT_TOKEN_ID_OFFSET: usize = 76;

pub const INSTR_STATIC_ACCOUNT_MINT_ID_OFFSET: usize = 80;

pub const INSTR_STATIC_ACCOUNT_MASK_OFFSET: usize = 84;

pub const INSTR_STATIC_ACCOUNT_POOL_INSTR_ID_OFFSET: usize = 88;

pub const INSTR_STATIC_ACCOUNT_TASKS_COUNT_OFFSET: usize = 92;

pub const INSTR_STATIC_ACCOUNT_TOKEN_DECS_COUNT_OFFSET: usize = 96;

pub const INSTR_STATIC_ACCOUNT_MINT_DECS_COUNT_OFFSET: usize = 100;

pub const INSTR_STATIC_ACCOUNT_POOL_TOKEN_ID_OFFSET: usize = 104;

pub const INSTR_STATIC_ACCOUNT_RESERVED_OFFSET: usize = 108;

pub const INSTR_STATIC_ACCOUNT_MAPS_ADDRESS_OFFSET: usize = 112;

pub const INSTR_STATIC_ACCOUNT_CLIENT_ACCOUNTS_ADDRESS_OFFSET: usize = 144;

pub const INSTR_STATIC_ACCOUNT_CLIENT_INFOS_ADDRESS_OFFSET: usize = 176;

pub const INSTR_STATIC_ACCOUNT_CLIENT_INFOS2_ADDRESS_OFFSET: usize = 208;

pub const INSTR_STATIC_ACCOUNT_BIDS_TREE_ADDRESS_OFFSET: usize = 240;

pub const INSTR_STATIC_ACCOUNT_ASKS_TREE_ADDRESS_OFFSET: usize = 272;

pub const INSTR_STATIC_ACCOUNT_BID_ORDERS_ADDRESS_OFFSET: usize = 304;

pub const INSTR_STATIC_ACCOUNT_ASK_ORDERS_ADDRESS_OFFSET: usize = 336;

pub const INSTR_STATIC_ACCOUNT_LINES_ADDRESS_OFFSET: usize = 368;

pub const INSTR_STATIC_ACCOUNT_M1_CANDLES_ADDRESS_OFFSET: usize = 400;

pub const INSTR_STATIC_ACCOUNT_M15_CANDLES_ADDRESS_OFFSET: usize = 432;

pub const INSTR_STATIC_ACCOUNT_DAY_CANDLES_ADDRESS_OFFSET: usize = 464;

pub const INSTR_STATIC_ACCOUNT_TRACE_ADDRESS_OFFSET: usize = 496;

pub const INSTR_STATIC_ACCOUNT_LUT_ADDRESS_OFFSET: usize = 528;

pub const INSTR_STATIC_ACCOUNT_DEC_FACTOR_OFFSET: usize = 560;

pub const INSTR_STATIC_ACCOUNT_SIZE: usize = 568;

pub const TASK_STATIC_MAPS_ADDRESS_OFFSET: usize = 0;

pub const TASK_STATIC_CLIENT_ACCOUNTS_ADDRESS_OFFSET: usize = 32;

pub const TASK_STATIC_CLIENT_INFOS_ADDRESS_OFFSET: usize = 64;

pub const TASK_STATIC_CLIENT_INFOS2_ADDRESS_OFFSET: usize = 96;

pub const TASK_STATIC_BIDS_TREE_ADDRESS_OFFSET: usize = 128;

pub const TASK_STATIC_ASKS_TREE_ADDRESS_OFFSET: usize = 160;

pub const TASK_STATIC_BID_ORDERS_ADDRESS_OFFSET: usize = 192;

pub const TASK_STATIC_ASK_ORDERS_ADDRESS_OFFSET: usize = 224;

pub const TASK_STATIC_LINES_ADDRESS_OFFSET: usize = 256;

pub const TASK_STATIC_MASK_OFFSET: usize = 288;

pub const TASK_STATIC_SIZE: usize = 296;

pub const INSTR_DYNAMIC_ACCOUNT_ID_OFFSET: usize = 40;

pub const INSTR_DYNAMIC_ACCOUNT_BIDS_OFFSET: usize = 384;

pub const INSTR_DYNAMIC_ACCOUNT_ASKS_OFFSET: usize = 704;

} // verus!
