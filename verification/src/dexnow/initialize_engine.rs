//! Decoding the engine's bootstrap accounts: the root account, the token
//! registry accounts and the instrument static accounts. The RPC fetches
//! that deliver the raw bytes happen outside the library; these decoders
//! state exactly which bytes each field comes from.

use super::TAccountKey;
use super::constants::INSTR_STATIC_ACCOUNT_ASKS_TREE_ADDRESS_OFFSET;
use super::constants::INSTR_STATIC_ACCOUNT_ASK_ORDERS_ADDRESS_OFFSET;
use super::constants::INSTR_STATIC_ACCOUNT_BIDS_TREE_ADDRESS_OFFSET;
use super::constants::INSTR_STATIC_ACCOUNT_BID_ORDERS_ADDRESS_OFFSET;
use super::constants::INSTR_STATIC_ACCOUNT_CLIENT_ACCOUNTS_ADDRESS_OFFSET;
use super::constants::INSTR_STATIC_ACCOUNT_CLIENT_INFOS2_ADDRESS_OFFSET;
use super::constants::INSTR_STATIC_ACCOUNT_CLIENT_INFOS_ADDRESS_OFFSET;
use super::constants::INSTR_STATIC_ACCOUNT_DAY_CANDLES_ADDRESS_OFFSET;
use super::constants::INSTR_STATIC_ACCOUNT_DYNAMIC_ADDRESS_OFFSET;
use super::constants::INSTR_STATIC_ACCOUNT_ID_OFFSET;
use super::constants::INSTR_STATIC_ACCOUNT_LINES_ADDRESS_OFFSET;
use super::constants::INSTR_STATIC_ACCOUNT_LUT_ADDRESS_OFFSET;
use super::constants::INSTR_STATIC_ACCOUNT_M15_CANDLES_ADDRESS_OFFSET;
use super::constants::INSTR_STATIC_ACCOUNT_M1_CANDLES_ADDRESS_OFFSET;
use super::constants::INSTR_STATIC_ACCOUNT_MAPS_ADDRESS_OFFSET;
use super::constants::INSTR_STATIC_ACCOUNT_MASK_OFFSET;
use super::constants::INSTR_STATIC_ACCOUNT_MINT_ID_OFFSET;
use super::constants::INSTR_STATIC_ACCOUNT_POOL_TOKEN_ID_OFFSET;
use super::constants::INSTR_STATIC_ACCOUNT_SIZE;
use super::constants::INSTR_STATIC_ACCOUNT_TASKS_COUNT_OFFSET;
use super::constants::INSTR_STATIC_ACCOUNT_TOKEN_ID_OFFSET;
use super::constants::INSTR_STATIC_ACCOUNT_TRACE_ADDRESS_OFFSET;
use super::constants::NULL_INSTR;
use super::constants::ROOT_ACCOUNT_COMMUNITY_ADDRESS_OFFSET;
use super::constants::ROOT_ACCOUNT_DISTRIB_ADDRESS_OFFSET;
use super::constants::ROOT_ACCOUNT_SIZE;
use super::constants::ROOT_ACCOUNT_SOL_PROGRAM_ADDRESS_OFFSET;
use super::constants::ROOT_ACCOUNT_VERSION_OFFSET;
use super::constants::TASK_STATIC_ASKS_TREE_ADDRESS_OFFSET;
use super::constants::TASK_STATIC_ASK_ORDERS_ADDRESS_OFFSET;
use super::constants::TASK_STATIC_BIDS_TREE_ADDRESS_OFFSET;
use super::constants::TASK_STATIC_BID_ORDERS_ADDRESS_OFFSET;
use super::constants::TASK_STATIC_CLIENT_ACCOUNTS_ADDRESS_OFFSET;
use super::constants::TASK_STATIC_CLIENT_INFOS2_ADDRESS_OFFSET;
use super::constants::TASK_STATIC_CLIENT_INFOS_ADDRESS_OFFSET;
use super::constants::TASK_STATIC_LINES_ADDRESS_OFFSET;
use super::constants::TASK_STATIC_MAPS_ADDRESS_OFFSET;
use super::constants::TASK_STATIC_SIZE;
use super::constants::TOKEN_ACCOUNT_ADDRESS_OFFSET;
use super::constants::TOKEN_ACCOUNT_BASE_INSTR_ID_OFFSET;
use super::constants::TOKEN_ACCOUNT_ID_OFFSET;
use super::constants::TOKEN_ACCOUNT_MASK_OFFSET;
use super::constants::TOKEN_ACCOUNT_PROGRAM_ADDRESS_OFFSET;
use super::constants::TOKEN_ACCOUNT_SIZE;
use super::constants::U32_BIT_30;
use super::constants::U32_BIT_31;
use super::derivative::Derivative;
use super::futures::Futures;
use super::instrument::Instrument;
use super::read_basic_types::read_pubkey;
use super::read_basic_types::read_u32;
use super::read_int_uint::le_bytes_u32;
use super::spot::Spot;
use super::token::Token;
use std::collections::BTreeMap;
use vstd::prelude::*;

verus! {

broadcast use {vstd::std_specs::btree::group_btree_axioms, vstd::laws_cmp::group_laws_cmp};

use vstd::std_specs::btree::increasing_seq;
use vstd::std_specs::cmp::OrdSpec;

/// Why a bootstrap account could not be decoded.
#[derive(Clone, Copy, Debug, PartialEq, Eq, Structural)]
pub enum EngineAccountError {
    /// The root account is shorter than its fixed layout.
    InvalidRootAccount,
    /// A registry account is shorter than its layout demands.
    TruncatedAccount,
}

/// What the root account carries: the engine version and the venue's fixed
/// service accounts.
#[derive(Clone, Copy, Debug)]
pub struct RootInfo {
    pub version: u8,
    pub distrib_account: TAccountKey,
    pub community_account: TAccountKey,
    pub sol_program_address: TAccountKey,
}

/// Reads a 32-byte key at a known-good offset.
fn read_key_at(data: &Vec<u8>, offset: usize) -> (r: TAccountKey)
    requires
        offset + 32 <= data@.len(),
    ensures
        r@ == data@.subrange(offset as int, offset + 32),
{
    match read_pubkey(data.as_slice(), offset) {
        Ok(k) => k,
        Err(_) => [0u8; 32],
    }
}

/// Decodes the root account, rejecting one shorter than its layout.
pub fn decode_root_account(data: &Vec<u8>) -> (r: Result<RootInfo, EngineAccountError>)
    ensures
        r is Ok <==> data@.len() >= ROOT_ACCOUNT_SIZE,
        r is Err ==> r == Result::<RootInfo, EngineAccountError>::Err(
            EngineAccountError::InvalidRootAccount,
        ),
        r matches Ok(info) ==> {
            &&& info.version == le_bytes_u32(
                data@.subrange(
                    ROOT_ACCOUNT_VERSION_OFFSET as int,
                    ROOT_ACCOUNT_VERSION_OFFSET + 4,
                ),
            ) % 0x100
            &&& info.distrib_account@ == data@.subrange(
                ROOT_ACCOUNT_DISTRIB_ADDRESS_OFFSET as int,
                ROOT_ACCOUNT_DISTRIB_ADDRESS_OFFSET + 32,
            )
            &&& info.community_account@ == data@.subrange(
                ROOT_ACCOUNT_COMMUNITY_ADDRESS_OFFSET as int,
                ROOT_ACCOUNT_COMMUNITY_ADDRESS_OFFSET + 32,
            )
            &&& info.sol_program_address@ == data@.subrange(
                ROOT_ACCOUNT_SOL_PROGRAM_ADDRESS_OFFSET as int,
                ROOT_ACCOUNT_SOL_PROGRAM_ADDRESS_OFFSET + 32,
            )
        },
{
    if data.len() < ROOT_ACCOUNT_SIZE {
        return Err(EngineAccountError::InvalidRootAccount);
    }
    let version_word = read_u32(data.as_slice(), ROOT_ACCOUNT_VERSION_OFFSET);
    let version = #[verifier::truncate] (version_word as u8);
    proof {
        assert((#[verifier::truncate] (version_word as u8)) as u32 == version_word % 0x100u32)
            by (bit_vector);
    }
    Ok(
        RootInfo {
            version,
            distrib_account: read_key_at(data, ROOT_ACCOUNT_DISTRIB_ADDRESS_OFFSET),
            community_account: read_key_at(data, ROOT_ACCOUNT_COMMUNITY_ADDRESS_OFFSET),
            sol_program_address: read_key_at(data, ROOT_ACCOUNT_SOL_PROGRAM_ADDRESS_OFFSET),
        },
    )
}

/// How every [`Token`] field follows from its registry account's bytes.
pub open spec fn token_decoded(t: Token, pubkey: TAccountKey, data: Seq<u8>) -> bool {
    let mask = le_bytes_u32(
        data.subrange(TOKEN_ACCOUNT_MASK_OFFSET as int, TOKEN_ACCOUNT_MASK_OFFSET + 4),
    );
    let main_instr = le_bytes_u32(
        data.subrange(
            TOKEN_ACCOUNT_BASE_INSTR_ID_OFFSET as int,
            TOKEN_ACCOUNT_BASE_INSTR_ID_OFFSET + 4,
        ),
    );
    &&& t.id == le_bytes_u32(
        data.subrange(TOKEN_ACCOUNT_ID_OFFSET as int, TOKEN_ACCOUNT_ID_OFFSET + 4),
    )
    &&& t.account == pubkey
    &&& t.mint@ == data.subrange(
        TOKEN_ACCOUNT_ADDRESS_OFFSET as int,
        TOKEN_ACCOUNT_ADDRESS_OFFSET + 32,
    )
    &&& t.program_address@ == data.subrange(
        TOKEN_ACCOUNT_PROGRAM_ADDRESS_OFFSET as int,
        TOKEN_ACCOUNT_PROGRAM_ADDRESS_OFFSET + 32,
    )
    &&& t.decimals == mask % 16
    &&& t.base_crncy == ((mask / 0x4000_0000) % 2 == 1)
    &&& t.token_2022 == (mask >= 0x8000_0000)
    &&& t.pool == (main_instr != NULL_INSTR)
    &&& t.main_instr_id == if main_instr != NULL_INSTR {
        Some(main_instr as u64)
    } else {
        None::<u64>
    }
}

/// Decodes one token registry account.
pub fn decode_token_account(pubkey: &TAccountKey, data: &Vec<u8>) -> (r: Result<
    Token,
    EngineAccountError,
>)
    ensures
        r is Ok <==> data@.len() >= TOKEN_ACCOUNT_SIZE,
        r is Err ==> r == Result::<Token, EngineAccountError>::Err(
            EngineAccountError::TruncatedAccount,
        ),
        r matches Ok(t) ==> token_decoded(t, *pubkey, data@),
{
    if data.len() < TOKEN_ACCOUNT_SIZE {
        return Err(EngineAccountError::TruncatedAccount);
    }
    let id = read_u32(data.as_slice(), TOKEN_ACCOUNT_ID_OFFSET) as u64;
    let mask = read_u32(data.as_slice(), TOKEN_ACCOUNT_MASK_OFFSET);
    let token_2022 = (mask & U32_BIT_31) != 0;
    let base_crncy = (mask & U32_BIT_30) != 0;
    let decimals = #[verifier::truncate] ((mask & 0xF) as u8);
    let main_instr_id = read_u32(data.as_slice(), TOKEN_ACCOUNT_BASE_INSTR_ID_OFFSET);
    proof {
        assert((mask & 0x8000_0000u32 != 0) == (mask >= 0x8000_0000u32)) by (bit_vector);
        assert((mask & 0x4000_0000u32 != 0) == ((mask / 0x4000_0000u32) % 2u32 == 1u32))
            by (bit_vector);
        assert(((mask & 0xFu32) as u8) as u32 == mask % 16u32) by (bit_vector);
    }
    Ok(
        Token {
            account: *pubkey,
            mint: read_key_at(data, TOKEN_ACCOUNT_ADDRESS_OFFSET),
            program_address: read_key_at(data, TOKEN_ACCOUNT_PROGRAM_ADDRESS_OFFSET),
            id,
            decimals,
            base_crncy,
            pool: main_instr_id != NULL_INSTR,
            token_2022,
            main_instr_id: if main_instr_id != NULL_INSTR {
                Some(main_instr_id as u64)
            } else {
                None
            },
        },
    )
}

/// How a derivative's futures accounts follow from its task record's bytes,
/// the record starting at `off`.
pub open spec fn futures_decoded(f: Futures, data: Seq<u8>, off: int) -> bool {
    &&& f.bids_tree_account@ == data.subrange(
        off + TASK_STATIC_BIDS_TREE_ADDRESS_OFFSET,
        off + TASK_STATIC_BIDS_TREE_ADDRESS_OFFSET + 32,
    )
    &&& f.asks_tree_account@ == data.subrange(
        off + TASK_STATIC_ASKS_TREE_ADDRESS_OFFSET,
        off + TASK_STATIC_ASKS_TREE_ADDRESS_OFFSET + 32,
    )
    &&& f.bid_orders_account@ == data.subrange(
        off + TASK_STATIC_BID_ORDERS_ADDRESS_OFFSET,
        off + TASK_STATIC_BID_ORDERS_ADDRESS_OFFSET + 32,
    )
    &&& f.ask_orders_account@ == data.subrange(
        off + TASK_STATIC_ASK_ORDERS_ADDRESS_OFFSET,
        off + TASK_STATIC_ASK_ORDERS_ADDRESS_OFFSET + 32,
    )
    &&& f.lines_account@ == data.subrange(
        off + TASK_STATIC_LINES_ADDRESS_OFFSET,
        off + TASK_STATIC_LINES_ADDRESS_OFFSET + 32,
    )
    &&& f.maps_account@ == data.subrange(
        off + TASK_STATIC_MAPS_ADDRESS_OFFSET,
        off + TASK_STATIC_MAPS_ADDRESS_OFFSET + 32,
    )
    &&& f.client_infos_account@ == data.subrange(
        off + TASK_STATIC_CLIENT_INFOS_ADDRESS_OFFSET,
        off + TASK_STATIC_CLIENT_INFOS_ADDRESS_OFFSET + 32,
    )
    &&& f.client_infos2_account@ == data.subrange(
        off + TASK_STATIC_CLIENT_INFOS2_ADDRESS_OFFSET,
        off + TASK_STATIC_CLIENT_INFOS2_ADDRESS_OFFSET + 32,
    )
    &&& f.client_accounts_account@ == data.subrange(
        off + TASK_STATIC_CLIENT_ACCOUNTS_ADDRESS_OFFSET,
        off + TASK_STATIC_CLIENT_ACCOUNTS_ADDRESS_OFFSET + 32,
    )
    &&& f.day_trades is None
    &&& f.alltime_trades is None
    &&& f.last_trade_time is None
    &&& f.bid_quotes is None
    &&& f.ask_quotes is None
}

/// A derivative record holds only its futures accounts at decode time.
pub open spec fn derivative_decoded(d: Derivative, data: Seq<u8>, off: int) -> bool {
    &&& futures_decoded(d.futures, data, off)
    &&& d.instance_id is None
    &&& d.expiration is None
    &&& d.options_day_trades is None
    &&& d.options_alltime_trades is None
}

/// How an instrument's spot accounts follow from its static account's bytes.
pub open spec fn spot_decoded(s: Spot, data: Seq<u8>) -> bool {
    &&& s.bids_tree_account@ == data.subrange(
        INSTR_STATIC_ACCOUNT_BIDS_TREE_ADDRESS_OFFSET as int,
        INSTR_STATIC_ACCOUNT_BIDS_TREE_ADDRESS_OFFSET + 32,
    )
    &&& s.asks_tree_account@ == data.subrange(
        INSTR_STATIC_ACCOUNT_ASKS_TREE_ADDRESS_OFFSET as int,
        INSTR_STATIC_ACCOUNT_ASKS_TREE_ADDRESS_OFFSET + 32,
    )
    &&& s.bid_orders_account@ == data.subrange(
        INSTR_STATIC_ACCOUNT_BID_ORDERS_ADDRESS_OFFSET as int,
        INSTR_STATIC_ACCOUNT_BID_ORDERS_ADDRESS_OFFSET + 32,
    )
    &&& s.ask_orders_account@ == data.subrange(
        INSTR_STATIC_ACCOUNT_ASK_ORDERS_ADDRESS_OFFSET as int,
        INSTR_STATIC_ACCOUNT_ASK_ORDERS_ADDRESS_OFFSET + 32,
    )
    &&& s.lines_account@ == data.subrange(
        INSTR_STATIC_ACCOUNT_LINES_ADDRESS_OFFSET as int,
        INSTR_STATIC_ACCOUNT_LINES_ADDRESS_OFFSET + 32,
    )
    &&& s.maps_account@ == data.subrange(
        INSTR_STATIC_ACCOUNT_MAPS_ADDRESS_OFFSET as int,
        INSTR_STATIC_ACCOUNT_MAPS_ADDRESS_OFFSET + 32,
    )
    &&& s.client_infos_account@ == data.subrange(
        INSTR_STATIC_ACCOUNT_CLIENT_INFOS_ADDRESS_OFFSET as int,
        INSTR_STATIC_ACCOUNT_CLIENT_INFOS_ADDRESS_OFFSET + 32,
    )
    &&& s.client_infos2_account@ == data.subrange(
        INSTR_STATIC_ACCOUNT_CLIENT_INFOS2_ADDRESS_OFFSET as int,
        INSTR_STATIC_ACCOUNT_CLIENT_INFOS2_ADDRESS_OFFSET + 32,
    )
    &&& s.client_accounts_account@ == data.subrange(
        INSTR_STATIC_ACCOUNT_CLIENT_ACCOUNTS_ADDRESS_OFFSET as int,
        INSTR_STATIC_ACCOUNT_CLIENT_ACCOUNTS_ADDRESS_OFFSET + 32,
    )
    &&& s.m1_candles_account@ == data.subrange(
        INSTR_STATIC_ACCOUNT_M1_CANDLES_ADDRESS_OFFSET as int,
        INSTR_STATIC_ACCOUNT_M1_CANDLES_ADDRESS_OFFSET + 32,
    )
    &&& s.m15_candles_account@ == data.subrange(
        INSTR_STATIC_ACCOUNT_M15_CANDLES_ADDRESS_OFFSET as int,
        INSTR_STATIC_ACCOUNT_M15_CANDLES_ADDRESS_OFFSET + 32,
    )
    &&& s.day_candles_account@ == data.subrange(
        INSTR_STATIC_ACCOUNT_DAY_CANDLES_ADDRESS_OFFSET as int,
        INSTR_STATIC_ACCOUNT_DAY_CANDLES_ADDRESS_OFFSET + 32,
    )
    &&& s.day_trades is None
    &&& s.alltime_trades is None
    &&& s.last_trade_time is None
    &&& s.bid_quotes is None
    &&& s.ask_quotes is None
}

/// How every [`Instrument`] field follows from its static account's bytes.
pub open spec fn instrument_decoded(instr: Instrument, pubkey: TAccountKey, data: Seq<u8>) -> bool {
    let mask = le_bytes_u32(
        data.subrange(INSTR_STATIC_ACCOUNT_MASK_OFFSET as int, INSTR_STATIC_ACCOUNT_MASK_OFFSET + 4),
    );
    let count = le_bytes_u32(
        data.subrange(
            INSTR_STATIC_ACCOUNT_TASKS_COUNT_OFFSET as int,
            INSTR_STATIC_ACCOUNT_TASKS_COUNT_OFFSET + 4,
        ),
    );
    let pool = mask >= 0x8000_0000;
    &&& instr.static_account == pubkey
    &&& instr.dynamic_account@ == data.subrange(
        INSTR_STATIC_ACCOUNT_DYNAMIC_ADDRESS_OFFSET as int,
        INSTR_STATIC_ACCOUNT_DYNAMIC_ADDRESS_OFFSET + 32,
    )
    &&& instr.trace_account matches Some(k) && k@ == data.subrange(
        INSTR_STATIC_ACCOUNT_TRACE_ADDRESS_OFFSET as int,
        INSTR_STATIC_ACCOUNT_TRACE_ADDRESS_OFFSET + 32,
    )
    &&& instr.lut_account matches Some(k) && k@ == data.subrange(
        INSTR_STATIC_ACCOUNT_LUT_ADDRESS_OFFSET as int,
        INSTR_STATIC_ACCOUNT_LUT_ADDRESS_OFFSET + 32,
    )
    &&& instr.id == le_bytes_u32(
        data.subrange(INSTR_STATIC_ACCOUNT_ID_OFFSET as int, INSTR_STATIC_ACCOUNT_ID_OFFSET + 4),
    )
    &&& instr.asset_token_id == le_bytes_u32(
        data.subrange(
            INSTR_STATIC_ACCOUNT_TOKEN_ID_OFFSET as int,
            INSTR_STATIC_ACCOUNT_TOKEN_ID_OFFSET + 4,
        ),
    )
    &&& instr.base_crncy_token_id == le_bytes_u32(
        data.subrange(
            INSTR_STATIC_ACCOUNT_MINT_ID_OFFSET as int,
            INSTR_STATIC_ACCOUNT_MINT_ID_OFFSET + 4,
        ),
    )
    &&& instr.pool == pool
    &&& instr.pool_token_id == if !pool {
        Some(
            le_bytes_u32(
                data.subrange(
                    INSTR_STATIC_ACCOUNT_POOL_TOKEN_ID_OFFSET as int,
                    INSTR_STATIC_ACCOUNT_POOL_TOKEN_ID_OFFSET + 4,
                ),
            ) as u64,
        )
    } else {
        None::<u64>
    }
    &&& instr.derivatives_count == count
    &&& instr.dividends_time is None
    &&& spot_decoded(instr.spot, data)
    &&& instr.derivatives@.len() == count
    &&& forall|j: int|
        0 <= j < count ==> derivative_decoded(
            #[trigger] instr.derivatives@[j],
            data,
            INSTR_STATIC_ACCOUNT_SIZE + j * TASK_STATIC_SIZE,
        )
}

/// An instrument static account long enough for its fixed layout and for
/// every derivative task record it claims.
pub open spec fn instr_account_decodable(data: Seq<u8>) -> bool {
    &&& data.len() >= INSTR_STATIC_ACCOUNT_SIZE
    &&& INSTR_STATIC_ACCOUNT_SIZE + le_bytes_u32(
        data.subrange(
            INSTR_STATIC_ACCOUNT_TASKS_COUNT_OFFSET as int,
            INSTR_STATIC_ACCOUNT_TASKS_COUNT_OFFSET + 4,
        ),
    ) * TASK_STATIC_SIZE <= data.len()
}

/// Decodes one instrument static account, its derivative task records
/// included.
pub fn decode_instr_account(pubkey: &TAccountKey, data: &Vec<u8>) -> (r: Result<
    Instrument,
    EngineAccountError,
>)
    ensures
        r is Ok <==> instr_account_decodable(data@),
        r is Err ==> r == Result::<Instrument, EngineAccountError>::Err(
            EngineAccountError::TruncatedAccount,
        ),
        r matches Ok(instr) ==> instrument_decoded(instr, *pubkey, data@),
{
    if data.len() < INSTR_STATIC_ACCOUNT_SIZE {
        return Err(EngineAccountError::TruncatedAccount);
    }
    let mask = read_u32(data.as_slice(), INSTR_STATIC_ACCOUNT_MASK_OFFSET);
    let pool = (mask & U32_BIT_31) != 0;
    proof {
        assert((mask & 0x8000_0000u32 != 0) == (mask >= 0x8000_0000u32)) by (bit_vector);
    }
    let derivatives_count = read_u32(data.as_slice(), INSTR_STATIC_ACCOUNT_TASKS_COUNT_OFFSET);
    if derivatives_count as usize > (data.len() - INSTR_STATIC_ACCOUNT_SIZE) / TASK_STATIC_SIZE {
        proof {
            assert(INSTR_STATIC_ACCOUNT_SIZE + derivatives_count * TASK_STATIC_SIZE > data@.len())
                by (nonlinear_arith)
                requires
                    derivatives_count > (data@.len() - INSTR_STATIC_ACCOUNT_SIZE as int)
                        / TASK_STATIC_SIZE as int,
                    data@.len() >= INSTR_STATIC_ACCOUNT_SIZE,
                    INSTR_STATIC_ACCOUNT_SIZE == 568,
                    TASK_STATIC_SIZE == 296,
            ;
        }
        return Err(EngineAccountError::TruncatedAccount);
    }
    proof {
        assert(INSTR_STATIC_ACCOUNT_SIZE + derivatives_count * TASK_STATIC_SIZE <= data@.len())
            by (nonlinear_arith)
            requires
                derivatives_count <= (data@.len() - INSTR_STATIC_ACCOUNT_SIZE as int)
                    / TASK_STATIC_SIZE as int,
                data@.len() >= INSTR_STATIC_ACCOUNT_SIZE,
                INSTR_STATIC_ACCOUNT_SIZE == 568,
                TASK_STATIC_SIZE == 296,
        ;
    }
    let mut derivatives: Vec<Derivative> = Vec::new();
    let mut j: usize = 0;
    while j < derivatives_count as usize
        invariant
            j <= derivatives_count,
            data@.len() <= usize::MAX,
            INSTR_STATIC_ACCOUNT_SIZE + derivatives_count * TASK_STATIC_SIZE <= data@.len(),
            derivatives@.len() == j,
            forall|jj: int|
                0 <= jj < j ==> derivative_decoded(
                    #[trigger] derivatives@[jj],
                    data@,
                    INSTR_STATIC_ACCOUNT_SIZE + jj * TASK_STATIC_SIZE,
                ),
        decreases derivatives_count - j,
    {
        proof {
            assert((j + 1) * TASK_STATIC_SIZE <= derivatives_count * TASK_STATIC_SIZE
                && j * TASK_STATIC_SIZE + TASK_STATIC_SIZE == (j + 1) * TASK_STATIC_SIZE)
                by (nonlinear_arith)
                requires
                    j < derivatives_count,
                    TASK_STATIC_SIZE == 296,
            ;
        }
        let offset = INSTR_STATIC_ACCOUNT_SIZE + j * TASK_STATIC_SIZE;
        let futures = Futures {
            bids_tree_account: read_key_at(data, offset + TASK_STATIC_BIDS_TREE_ADDRESS_OFFSET),
            asks_tree_account: read_key_at(data, offset + TASK_STATIC_ASKS_TREE_ADDRESS_OFFSET),
            bid_orders_account: read_key_at(data, offset + TASK_STATIC_BID_ORDERS_ADDRESS_OFFSET),
            ask_orders_account: read_key_at(data, offset + TASK_STATIC_ASK_ORDERS_ADDRESS_OFFSET),
            lines_account: read_key_at(data, offset + TASK_STATIC_LINES_ADDRESS_OFFSET),
            maps_account: read_key_at(data, offset + TASK_STATIC_MAPS_ADDRESS_OFFSET),
            client_infos_account: read_key_at(
                data,
                offset + TASK_STATIC_CLIENT_INFOS_ADDRESS_OFFSET,
            ),
            client_infos2_account: read_key_at(
                data,
                offset + TASK_STATIC_CLIENT_INFOS2_ADDRESS_OFFSET,
            ),
            client_accounts_account: read_key_at(
                data,
                offset + TASK_STATIC_CLIENT_ACCOUNTS_ADDRESS_OFFSET,
            ),
            day_trades: None,
            alltime_trades: None,
            last_trade_time: None,
            bid_quotes: None,
            ask_quotes: None,
        };
        derivatives.push(
            Derivative {
                instance_id: None,
                expiration: None,
                futures,
                options_day_trades: None,
                options_alltime_trades: None,
            },
        );
        j = j + 1;
    }
    let spot = Spot {
        bids_tree_account: read_key_at(data, INSTR_STATIC_ACCOUNT_BIDS_TREE_ADDRESS_OFFSET),
        asks_tree_account: read_key_at(data, INSTR_STATIC_ACCOUNT_ASKS_TREE_ADDRESS_OFFSET),
        bid_orders_account: read_key_at(data, INSTR_STATIC_ACCOUNT_BID_ORDERS_ADDRESS_OFFSET),
        ask_orders_account: read_key_at(data, INSTR_STATIC_ACCOUNT_ASK_ORDERS_ADDRESS_OFFSET),
        lines_account: read_key_at(data, INSTR_STATIC_ACCOUNT_LINES_ADDRESS_OFFSET),
        maps_account: read_key_at(data, INSTR_STATIC_ACCOUNT_MAPS_ADDRESS_OFFSET),
        client_infos_account: read_key_at(data, INSTR_STATIC_ACCOUNT_CLIENT_INFOS_ADDRESS_OFFSET),
        client_infos2_account: read_key_at(
            data,
            INSTR_STATIC_ACCOUNT_CLIENT_INFOS2_ADDRESS_OFFSET,
        ),
        client_accounts_account: read_key_at(
            data,
            INSTR_STATIC_ACCOUNT_CLIENT_ACCOUNTS_ADDRESS_OFFSET,
        ),
        m1_candles_account: read_key_at(data, INSTR_STATIC_ACCOUNT_M1_CANDLES_ADDRESS_OFFSET),
        m15_candles_account: read_key_at(data, INSTR_STATIC_ACCOUNT_M15_CANDLES_ADDRESS_OFFSET),
        day_candles_account: read_key_at(data, INSTR_STATIC_ACCOUNT_DAY_CANDLES_ADDRESS_OFFSET),
        day_trades: None,
        alltime_trades: None,
        last_trade_time: None,
        bid_quotes: None,
        ask_quotes: None,
    };
    Ok(
        Instrument {
            static_account: *pubkey,
            dynamic_account: read_key_at(data, INSTR_STATIC_ACCOUNT_DYNAMIC_ADDRESS_OFFSET),
            trace_account: Some(read_key_at(data, INSTR_STATIC_ACCOUNT_TRACE_ADDRESS_OFFSET)),
            lut_account: Some(read_key_at(data, INSTR_STATIC_ACCOUNT_LUT_ADDRESS_OFFSET)),
            id: read_u32(data.as_slice(), INSTR_STATIC_ACCOUNT_ID_OFFSET) as u64,
            asset_token_id: read_u32(data.as_slice(), INSTR_STATIC_ACCOUNT_TOKEN_ID_OFFSET) as u64,
            base_crncy_token_id: read_u32(
                data.as_slice(),
                INSTR_STATIC_ACCOUNT_MINT_ID_OFFSET,
            ) as u64,
            pool,
            pool_token_id: if !pool {
                Some(read_u32(data.as_slice(), INSTR_STATIC_ACCOUNT_POOL_TOKEN_ID_OFFSET) as u64)
            } else {
                None
            },
            spot,
            derivatives_count: derivatives_count as u64,
            dividends_time: None,
            derivatives,
        },
    )
}

/// The token the engine registers without an on-chain record: the native
/// token, id 0 with 9 decimals, its program address taken from the root
/// account, every key of the system program (all zero bytes).
pub open spec fn is_sol_token(t: Token, root: RootInfo) -> bool {
    &&& t.id == 0
    &&& t.decimals == 9
    &&& !t.base_crncy
    &&& !t.pool
    &&& !t.token_2022
    &&& t.main_instr_id is None
    &&& forall|i: int| 0 <= i < 32 ==> t.account@[i] == 0 && t.mint@[i] == 0
    &&& t.program_address == root.sol_program_address
}

/// Builds the native token's registry entry from the decoded root account.
pub fn sol_token(root: &RootInfo) -> (t: Token)
    ensures
        is_sol_token(t, *root),
{
    Token {
        account: [0u8; 32],
        mint: [0u8; 32],
        program_address: root.sol_program_address,
        id: 0,
        decimals: 9,
        base_crncy: false,
        pool: false,
        token_2022: false,
        main_instr_id: None,
    }
}

/// The token table a list of decoded records builds over `init`: each record
/// keyed by its id, a later record overwriting an earlier one with the same
/// id.
pub open spec fn token_table_spec(init: Map<u64, Token>, ts: Seq<Token>) -> Map<u64, Token>
    decreases ts.len(),
{
    if ts.len() == 0 {
        init
    } else {
        token_table_spec(init, ts.drop_last()).insert(ts.last().id, ts.last())
    }
}

/// The instrument table a list of decoded records builds, keyed and
/// overwritten the same way.
pub open spec fn instr_table_spec(
    init: Map<u64, Instrument>,
    is_: Seq<Instrument>,
) -> Map<u64, Instrument>
    decreases is_.len(),
{
    if is_.len() == 0 {
        init
    } else {
        instr_table_spec(init, is_.drop_last()).insert(is_.last().id, is_.last())
    }
}

/// The registry the engine bootstraps from its fetched accounts: tokens and
/// instruments keyed by id.
pub struct EngineTables {
    pub tokens: BTreeMap<u64, Token>,
    pub instruments: BTreeMap<u64, Instrument>,
}

/// Assembles the registry from the decoded root account and the fetched
/// `(account key, account bytes)` lists: the native token entry first, then
/// every token record, then every instrument record, later records winning
/// on a repeated id. Any record shorter than its layout rejects the whole
/// assembly.
pub fn build_engine_tables(
    root: &RootInfo,
    token_accounts: &Vec<(TAccountKey, Vec<u8>)>,
    instr_accounts: &Vec<(TAccountKey, Vec<u8>)>,
) -> (r: Result<EngineTables, EngineAccountError>)
    ensures
        r is Ok <==> ((forall|i: int|
            0 <= i < token_accounts@.len() ==> (#[trigger] token_accounts@[i]).1@.len()
                >= TOKEN_ACCOUNT_SIZE) && (forall|i: int|
            0 <= i < instr_accounts@.len() ==> instr_account_decodable(
                (#[trigger] instr_accounts@[i]).1@,
            ))),
        r is Err ==> r == Result::<EngineTables, EngineAccountError>::Err(
            EngineAccountError::TruncatedAccount,
        ),
        r matches Ok(tables) ==> exists|sol: Token, ts: Seq<Token>, is_: Seq<Instrument>|
            #![trigger token_table_spec(Map::empty().insert(0u64, sol), ts), instr_table_spec(Map::empty(), is_)]
            {
                &&& is_sol_token(sol, *root)
                &&& ts.len() == token_accounts@.len()
                &&& (forall|i: int|
                    0 <= i < ts.len() ==> token_decoded(
                        #[trigger] ts[i],
                        token_accounts@[i].0,
                        token_accounts@[i].1@,
                    ))
                &&& tables.tokens@ == token_table_spec(Map::empty().insert(0u64, sol), ts)
                &&& is_.len() == instr_accounts@.len()
                &&& (forall|i: int|
                    0 <= i < is_.len() ==> instrument_decoded(
                        #[trigger] is_[i],
                        instr_accounts@[i].0,
                        instr_accounts@[i].1@,
                    ))
                &&& tables.instruments@ == instr_table_spec(Map::empty(), is_)
            },
{
    let sol = sol_token(root);
    let ghost sol_value = sol;
    let ghost tokens_init = Map::<u64, Token>::empty().insert(0u64, sol_value);
    let mut tokens: BTreeMap<u64, Token> = BTreeMap::new();
    tokens.insert(0, sol);
    let ghost mut ts: Seq<Token> = Seq::empty();
    let mut i: usize = 0;
    while i < token_accounts.len()
        invariant
            i <= token_accounts@.len(),
            ts.len() == i,
            forall|j: int|
                0 <= j < i ==> token_decoded(
                    #[trigger] ts[j],
                    token_accounts@[j].0,
                    token_accounts@[j].1@,
                ),
            forall|j: int|
                0 <= j < i ==> (#[trigger] token_accounts@[j]).1@.len() >= TOKEN_ACCOUNT_SIZE,
            tokens@ == token_table_spec(tokens_init, ts),
        decreases token_accounts@.len() - i,
    {
        let entry = &token_accounts[i];
        let token = match decode_token_account(&entry.0, &entry.1) {
            Ok(t) => t,
            Err(e) => {
                return Err(e);
            },
        };
        tokens.insert(token.id, token);
        proof {
            let ts2 = ts.push(token);
            assert(ts2.drop_last() =~= ts);
            assert(ts2.last() == token);
            ts = ts2;
        }
        i = i + 1;
    }
    let mut instruments: BTreeMap<u64, Instrument> = BTreeMap::new();
    let ghost mut is_: Seq<Instrument> = Seq::empty();
    let mut k: usize = 0;
    while k < instr_accounts.len()
        invariant
            k <= instr_accounts@.len(),
            is_.len() == k,
            forall|j: int|
                0 <= j < k ==> instrument_decoded(
                    #[trigger] is_[j],
                    instr_accounts@[j].0,
                    instr_accounts@[j].1@,
                ),
            forall|j: int|
                0 <= j < k ==> instr_account_decodable((#[trigger] instr_accounts@[j]).1@),
            instruments@ == instr_table_spec(Map::empty(), is_),
        decreases instr_accounts@.len() - k,
    {
        let entry = &instr_accounts[k];
        let ghost is_snapshot = is_;
        let instr = match decode_instr_account(&entry.0, &entry.1) {
            Ok(it) => it,
            Err(e) => {
                return Err(e);
            },
        };
        let ghost instr_value = instr;
        instruments.insert(instr.id, instr);
        proof {
            let is2 = is_.push(instr_value);
            assert(is2.drop_last() =~= is_);
            assert(is2.last() == instr_value);
            is_ = is2;
        }
        k = k + 1;
    }
    let tables = EngineTables { tokens, instruments };
    proof {
        assert(is_sol_token(sol_value, *root));
        assert(tables.tokens@ == token_table_spec(Map::empty().insert(0u64, sol_value), ts));
        assert(tables.instruments@ == instr_table_spec(Map::empty(), is_));
    }
    Ok(tables)
}

/// Whether an instrument trades `asset_token_id` against
/// `base_crncy_token_id`.
pub open spec fn instrument_matches(instr: Instrument, asset_token_id: u64, base_crncy_token_id: u64) -> bool {
    instr.asset_token_id == asset_token_id && instr.base_crncy_token_id == base_crncy_token_id
}

/// Picks the instrument that trades the given (asset, base-currency) token
/// pair: the lowest-id match, or nothing when no instrument matches.
pub fn find_instrument(
    instruments: &BTreeMap<u64, Instrument>,
    asset_token_id: u64,
    base_crncy_token_id: u64,
) -> (r: Option<u64>)
    ensures
        match r {
            Some(id) => instruments@.contains_key(id) && instrument_matches(
                instruments@[id],
                asset_token_id,
                base_crncy_token_id,
            ) && forall|q: u64|
                #[trigger] instruments@.contains_key(q) && q < id ==> !instrument_matches(
                    instruments@[q],
                    asset_token_id,
                    base_crncy_token_id,
                ),
            None => forall|q: u64|
                #[trigger] instruments@.contains_key(q) ==> !instrument_matches(
                    instruments@[q],
                    asset_token_id,
                    base_crncy_token_id,
                ),
        },
{
    for kv in it: instruments.iter()
        invariant
            it.seq().len() == instruments@.len(),
            increasing_seq(it.seq().map_values(|p: (&u64, &Instrument)| *p.0)),
            forall|j: int|
                0 <= j < it.seq().len() ==> #[trigger] instruments@.contains_key(*it.seq()[j].0)
                    && instruments@[*it.seq()[j].0] == *it.seq()[j].1,
            forall|q: u64|
                #[trigger] instruments@.contains_key(q) && instrument_matches(
                    instruments@[q],
                    asset_token_id,
                    base_crncy_token_id,
                ) ==> exists|j: int|
                    it.index() <= j < it.seq().len() && *it.seq()[j].0 == q,
    {
        if kv.1.asset_token_id == asset_token_id && kv.1.base_crncy_token_id
            == base_crncy_token_id {
            let id = *kv.0;
            proof {
                let s = it.seq();
                let n = it.index();
                let keys = s.map_values(|p: (&u64, &Instrument)| *p.0);
                assert(kv == s[n]);
                assert(instruments@.contains_key(id) && instruments@[id] == *kv.1);
                assert forall|q: u64|
                    #[trigger] instruments@.contains_key(q) && q < id implies !instrument_matches(
                    instruments@[q],
                    asset_token_id,
                    base_crncy_token_id,
                ) by {
                    if instrument_matches(instruments@[q], asset_token_id, base_crncy_token_id) {
                        let j = choose|j: int| n <= j < s.len() && *s[j].0 == q;
                        assert(keys[n].cmp_spec(&keys[j]) is Less || j == n);
                    }
                }
            }
            return Some(id);
        }
        proof {
            let s = it.seq();
            let n = it.index();
            assert(kv == s[n]);
            assert forall|q: u64|
                #[trigger] instruments@.contains_key(q) && instrument_matches(
                    instruments@[q],
                    asset_token_id,
                    base_crncy_token_id,
                ) implies exists|j: int| n + 1 <= j < s.len() && *s[j].0 == q by {
                let j = choose|j: int| n <= j < s.len() && *s[j].0 == q;
                assert(j != n) by {
                    if j == n {
                        assert(instruments@[q] == *s[n].1);
                    }
                }
                assert(n + 1 <= j < s.len() && *s[j].0 == q);
            }
        }
    }
    proof {
        assert forall|q: u64| #[trigger] instruments@.contains_key(q) implies !instrument_matches(
            instruments@[q],
            asset_token_id,
            base_crncy_token_id,
        ) by {
            if instrument_matches(instruments@[q], asset_token_id, base_crncy_token_id) {
                assert(false);
            }
        }
    }
    None
}

} // verus!
