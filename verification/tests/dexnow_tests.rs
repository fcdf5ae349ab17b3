use arb_core::dexnow::account_notification::AccountDataError;
use arb_core::dexnow::account_notification::decode_account_data;
use arb_core::dexnow::account_subscribe::CommitmentLevel;
use arb_core::dexnow::account_subscribe::SubscribeMessage;
use arb_core::dexnow::constants;
use arb_core::dexnow::decode_instr_dynamic_account::decode_instr_dynamic_account;
use arb_core::dexnow::find_account_by_tag::encoded_tag_filter;
use arb_core::dexnow::find_account_by_tag::tag_filter_bytes;
use arb_core::dexnow::get_instrument_id::GetInstrIdArgs;
use arb_core::dexnow::get_instrument_id::account_id_from_data;
use arb_core::dexnow::get_instrument_id::get_instr_id_seed;
use arb_core::dexnow::get_token_id::get_token_id_seed;
use arb_core::dexnow::initialize_engine::EngineAccountError;
use arb_core::dexnow::initialize_engine::build_engine_tables;
use arb_core::dexnow::initialize_engine::decode_instr_account;
use arb_core::dexnow::initialize_engine::find_instrument;
use arb_core::dexnow::initialize_engine::decode_root_account;
use arb_core::dexnow::initialize_engine::decode_token_account;
use arb_core::dexnow::line_px::LinePx;
use arb_core::dexnow::process_orderbook_update::process_orderbook_update;
use arb_core::dexnow::read_basic_types::read_pubkey;
use arb_core::dexnow::read_int_uint::read_i32;
use arb_core::dexnow::read_int_uint::read_i64;
use arb_core::dexnow::read_int_uint::read_u32;
use arb_core::dexnow::read_int_uint::read_u64;
use arb_core::dexnow::instr_dynamic_account::InstrDynamicAccount;
use arb_core::dexnow::token_dec::token_dec;
use arb_core::order_book::OrderBook;

fn put_u32(data: &mut [u8], offset: usize, v: u32) {
    data[offset..offset + 4].copy_from_slice(&v.to_le_bytes());
}

fn put_i64(data: &mut [u8], offset: usize, v: i64) {
    data[offset..offset + 8].copy_from_slice(&v.to_le_bytes());
}

#[test]
fn little_endian_readers_reconstruct_values() {
    let data: Vec<u8> = vec![0x78, 0x56, 0x34, 0x12, 0xFF, 0xFF, 0xFF, 0xFF, 0xFE, 0xFF, 0xFF,
        0xFF, 0xFF, 0xFF, 0xFF, 0xFF];
    assert_eq!(read_u32(&data, 0), 0x1234_5678);
    assert_eq!(read_i32(&data, 4), -1);
    assert_eq!(read_u64(&data, 0), 0xFFFF_FFFF_1234_5678);
    assert_eq!(read_i64(&data, 8), -2);
    assert_eq!(arb_core::dexnow::read_basic_types::read_u32(&data, 0), 0x1234_5678);
    assert_eq!(arb_core::dexnow::read_basic_types::read_i64(&data, 8), -2);
}

#[test]
fn pubkey_reader_checks_length() {
    let mut data = vec![0u8; 40];
    for (i, b) in data.iter_mut().enumerate() {
        *b = i as u8;
    }
    let key = read_pubkey(&data, 8).unwrap();
    assert_eq!(key[0], 8);
    assert_eq!(key[31], 39);
    assert!(read_pubkey(&data, 9).is_err());
}

#[test]
fn id_extraction_needs_four_bytes() {
    assert_eq!(account_id_from_data(&vec![7, 0, 0, 0, 99]), Some(7));
    assert_eq!(account_id_from_data(&vec![1, 2, 3]), None);
}

#[test]
fn instrument_seed_packs_version_tag_and_token_ids() {
    let seed = get_instr_id_seed(1, &GetInstrIdArgs { asset_token_id: 2, base_crncy_token_id: 3 });
    assert_eq!(
        seed,
        [1, 0, 0, 0, 6, 0, 0, 0, 2, 0, 0, 0, 3, 0, 0, 0],
    );
}

#[test]
fn token_seed_overwrites_the_mint_tail_with_the_version() {
    let mint = [0xAB; 32];
    let seed = get_token_id_seed(&mint, 0x0102_0304);
    assert_eq!(&seed[..28], &[0xAB; 28]);
    assert_eq!(&seed[28..], &[0x04, 0x03, 0x02, 0x01]);
}

#[test]
fn tag_filter_is_tag_then_version_base64() {
    assert_eq!(tag_filter_bytes(4, 1), [4, 0, 0, 0, 1, 0, 0, 0]);
    assert_eq!(encoded_tag_filter(4, 1), "BAAAAAEAAAA=");
}

#[test]
fn account_data_decoding_handles_each_failure() {
    let ok = decode_account_data(&"AQID".to_string(), &"base64".to_string());
    assert_eq!(ok, Ok(vec![1, 2, 3]));
    let bad = decode_account_data(&"!!!".to_string(), &"base64".to_string());
    assert_eq!(bad, Err(AccountDataError::InvalidBase64));
    let wrong = decode_account_data(&"AQID".to_string(), &"base58".to_string());
    assert_eq!(wrong, Err(AccountDataError::UnsupportedEncoding));
}

#[test]
fn subscribe_message_carries_the_rpc_fields() {
    let msg = SubscribeMessage::new("SomeBase58Key", CommitmentLevel::Confirmed);
    assert_eq!(msg.jsonrpc, "2.0");
    assert_eq!(msg.id, 1);
    assert_eq!(msg.method, "accountSubscribe");
    assert_eq!(msg.params.0, "SomeBase58Key");
    assert_eq!(msg.params.1.encoding, "base64");
    assert_eq!(msg.params.1.commitment, "confirmed");
}

#[test]
fn token_decimal_factors() {
    assert_eq!(token_dec(0), 1);
    assert_eq!(token_dec(9), 1_000_000_000);
    assert_eq!(token_dec(15), 1_000_000_000_000_000);
}

#[test]
fn root_account_decoding() {
    let mut data = vec![0u8; constants::ROOT_ACCOUNT_SIZE];
    put_u32(&mut data, constants::ROOT_ACCOUNT_VERSION_OFFSET, 1);
    data[constants::ROOT_ACCOUNT_DISTRIB_ADDRESS_OFFSET] = 0xD1;
    data[constants::ROOT_ACCOUNT_COMMUNITY_ADDRESS_OFFSET] = 0xC1;
    data[constants::ROOT_ACCOUNT_SOL_PROGRAM_ADDRESS_OFFSET] = 0x51;
    let info = decode_root_account(&data).unwrap();
    assert_eq!(info.version, 1);
    assert_eq!(info.distrib_account[0], 0xD1);
    assert_eq!(info.community_account[0], 0xC1);
    assert_eq!(info.sol_program_address[0], 0x51);

    let short = vec![0u8; constants::ROOT_ACCOUNT_SIZE - 1];
    assert!(matches!(decode_root_account(&short), Err(EngineAccountError::InvalidRootAccount)));
}

#[test]
fn token_account_decoding_reads_the_mask_bits() {
    let mut data = vec![0u8; constants::TOKEN_ACCOUNT_SIZE];
    put_u32(&mut data, constants::TOKEN_ACCOUNT_ID_OFFSET, 12);
    put_u32(&mut data, constants::TOKEN_ACCOUNT_MASK_OFFSET, 0xC000_0009);
    put_u32(&mut data, constants::TOKEN_ACCOUNT_BASE_INSTR_ID_OFFSET, constants::NULL_INSTR);
    data[constants::TOKEN_ACCOUNT_ADDRESS_OFFSET] = 0xA1;
    data[constants::TOKEN_ACCOUNT_PROGRAM_ADDRESS_OFFSET] = 0xB2;
    let pubkey = [7u8; 32];
    let token = decode_token_account(&pubkey, &data).unwrap();
    assert_eq!(token.id, 12);
    assert_eq!(token.decimals, 9);
    assert!(token.base_crncy);
    assert!(token.token_2022);
    assert!(!token.pool);
    assert_eq!(token.main_instr_id, None);
    assert_eq!(token.account, pubkey);
    assert_eq!(token.mint[0], 0xA1);
    assert_eq!(token.program_address[0], 0xB2);

    put_u32(&mut data, constants::TOKEN_ACCOUNT_MASK_OFFSET, 5);
    put_u32(&mut data, constants::TOKEN_ACCOUNT_BASE_INSTR_ID_OFFSET, 7);
    let pooled = decode_token_account(&pubkey, &data).unwrap();
    assert_eq!(pooled.decimals, 5);
    assert!(!pooled.base_crncy);
    assert!(!pooled.token_2022);
    assert!(pooled.pool);
    assert_eq!(pooled.main_instr_id, Some(7));

    let short = vec![0u8; constants::TOKEN_ACCOUNT_SIZE - 1];
    assert!(matches!(
        decode_token_account(&pubkey, &short),
        Err(EngineAccountError::TruncatedAccount),
    ));
}

#[test]
fn instrument_account_decoding_with_one_derivative() {
    let len = constants::INSTR_STATIC_ACCOUNT_SIZE + constants::TASK_STATIC_SIZE;
    let mut data = vec![0u8; len];
    put_u32(&mut data, constants::INSTR_STATIC_ACCOUNT_ID_OFFSET, 42);
    put_u32(&mut data, constants::INSTR_STATIC_ACCOUNT_TOKEN_ID_OFFSET, 3);
    put_u32(&mut data, constants::INSTR_STATIC_ACCOUNT_MINT_ID_OFFSET, 1);
    put_u32(&mut data, constants::INSTR_STATIC_ACCOUNT_MASK_OFFSET, 0);
    put_u32(&mut data, constants::INSTR_STATIC_ACCOUNT_POOL_TOKEN_ID_OFFSET, 11);
    put_u32(&mut data, constants::INSTR_STATIC_ACCOUNT_TASKS_COUNT_OFFSET, 1);
    data[constants::INSTR_STATIC_ACCOUNT_DYNAMIC_ADDRESS_OFFSET] = 0xDD;
    data[constants::INSTR_STATIC_ACCOUNT_BIDS_TREE_ADDRESS_OFFSET] = 0xB1;
    let task_off = constants::INSTR_STATIC_ACCOUNT_SIZE;
    data[task_off + constants::TASK_STATIC_BIDS_TREE_ADDRESS_OFFSET] = 0xF1;
    let pubkey = [9u8; 32];
    let instr = decode_instr_account(&pubkey, &data).unwrap();
    assert_eq!(instr.id, 42);
    assert_eq!(instr.asset_token_id, 3);
    assert_eq!(instr.base_crncy_token_id, 1);
    assert!(!instr.pool);
    assert_eq!(instr.pool_token_id, Some(11));
    assert_eq!(instr.derivatives_count, 1);
    assert_eq!(instr.derivatives.len(), 1);
    assert_eq!(instr.static_account, pubkey);
    assert_eq!(instr.dynamic_account[0], 0xDD);
    assert_eq!(instr.spot.bids_tree_account[0], 0xB1);
    assert_eq!(instr.derivatives[0].futures.bids_tree_account[0], 0xF1);

    // The task records must fit: claiming two with room for one is rejected.
    put_u32(&mut data, constants::INSTR_STATIC_ACCOUNT_TASKS_COUNT_OFFSET, 2);
    assert!(matches!(
        decode_instr_account(&pubkey, &data),
        Err(EngineAccountError::TruncatedAccount),
    ));
}

#[test]
fn dynamic_account_decoding_stops_at_the_zero_price() {
    let len = constants::INSTR_DYNAMIC_ACCOUNT_ASKS_OFFSET + constants::MARKET_DEPTH * 16;
    let mut data = vec![0u8; len];
    let bids = constants::INSTR_DYNAMIC_ACCOUNT_BIDS_OFFSET;
    put_i64(&mut data, bids, 5_000_000_000);
    put_i64(&mut data, bids + 8, 100);
    put_i64(&mut data, bids + 16, 4_900_000_000);
    put_i64(&mut data, bids + 24, 50);
    // Price 0 terminates the side; later lines are ignored.
    put_i64(&mut data, bids + 48, 4_000_000_000);
    let asks = constants::INSTR_DYNAMIC_ACCOUNT_ASKS_OFFSET;
    put_i64(&mut data, asks, 5_100_000_000);
    put_i64(&mut data, asks + 8, 70);
    let decoded = decode_instr_dynamic_account(&data);
    assert_eq!(
        decoded.spot_bids,
        vec![LinePx { px: 5_000_000_000, qty: 100 }, LinePx { px: 4_900_000_000, qty: 50 }],
    );
    assert_eq!(decoded.spot_asks, vec![LinePx { px: 5_100_000_000, qty: 70 }]);
}

#[test]
fn line_conversion_scales_into_ticks() {
    // 5.0 units of price (9 fixed-point decimals), 2.5 units of quantity
    // (token with 9 decimals) become 5_000_000 and 2_500_000 ticks.
    let line = LinePx { px: 5_000_000_000, qty: 2_500_000_000 };
    assert_eq!(line.to_ticks(9), Some((5_000_000, 2_500_000)));
    // Fractions below one tick truncate away.
    assert_eq!(LinePx { px: 1_999, qty: 999 }.to_ticks(9), Some((1, 0)));
    // Negative lines and overflowing quantities convert to nothing.
    assert_eq!(LinePx { px: -1, qty: 5 }.to_ticks(9), None);
    assert_eq!(LinePx { px: 5, qty: -1 }.to_ticks(9), None);
    assert_eq!(LinePx { px: 5, qty: i64::MAX }.to_ticks(0), None);
}

#[test]
fn account_state_is_applied_as_a_snapshot() {
    let mut book = OrderBook::new();
    // Asset with 6 decimals: quantities pass through unchanged; prices
    // scale by 1e6 / 1e9 = 1/1000.
    let account = InstrDynamicAccount {
        spot_bids: vec![LinePx { px: 100_000, qty: 5 }, LinePx { px: 99_000, qty: 0 }],
        spot_asks: vec![LinePx { px: 104_000, qty: 7 }],
    };
    assert!(process_orderbook_update(&mut book, &account, 6, 777, 123_456).is_ok());
    assert_eq!(book.sequence, 777);
    assert_eq!(book.last_updated, 123_456);
    assert_eq!(book.get_best_bid(), Some(100));
    assert_eq!(book.bids.get(&99), None);
    assert_eq!(book.get_best_ask(), Some(104));
}

#[test]
fn stale_slots_are_dropped_and_slot_zero_always_refreshes() {
    let mut book = OrderBook::new();
    let account = InstrDynamicAccount {
        spot_bids: vec![LinePx { px: 100_000, qty: 5 }],
        spot_asks: vec![],
    };
    assert!(process_orderbook_update(&mut book, &account, 6, 777, 1_000).is_ok());

    // A lower slot, and the same slot, are stale: silently dropped (still
    // a success, not an error path), the book completely unchanged.
    let newer = InstrDynamicAccount {
        spot_bids: vec![LinePx { px: 90_000, qty: 1 }],
        spot_asks: vec![],
    };
    assert_eq!(process_orderbook_update(&mut book, &newer, 6, 700, 2_000), Ok(()));
    assert_eq!(process_orderbook_update(&mut book, &newer, 6, 777, 2_000), Ok(()));
    assert_eq!(book.sequence, 777);
    assert_eq!(book.last_updated, 1_000);
    assert_eq!(book.get_best_bid(), Some(100));

    // Slot 0 is the out-of-band full refresh: it always replaces.
    assert!(process_orderbook_update(&mut book, &newer, 6, 0, 3_000).is_ok());
    assert_eq!(book.sequence, 0);
    assert_eq!(book.get_best_bid(), Some(90));
    // And a fresh slot applies again afterwards.
    assert!(process_orderbook_update(&mut book, &account, 6, 778, 4_000).is_ok());
    assert_eq!(book.sequence, 778);
    assert_eq!(book.get_best_bid(), Some(100));
}

#[test]
fn engine_tables_hold_the_sol_token_and_every_record() {
    let mut root_data = vec![0u8; constants::ROOT_ACCOUNT_SIZE];
    put_u32(&mut root_data, constants::ROOT_ACCOUNT_VERSION_OFFSET, 1);
    root_data[constants::ROOT_ACCOUNT_SOL_PROGRAM_ADDRESS_OFFSET] = 0x51;
    let root = decode_root_account(&root_data).unwrap();

    let mut token_data = vec![0u8; constants::TOKEN_ACCOUNT_SIZE];
    put_u32(&mut token_data, constants::TOKEN_ACCOUNT_ID_OFFSET, 3);
    put_u32(&mut token_data, constants::TOKEN_ACCOUNT_MASK_OFFSET, 6);
    put_u32(&mut token_data, constants::TOKEN_ACCOUNT_BASE_INSTR_ID_OFFSET, constants::NULL_INSTR);

    let mut instr_data =
        vec![0u8; constants::INSTR_STATIC_ACCOUNT_SIZE];
    put_u32(&mut instr_data, constants::INSTR_STATIC_ACCOUNT_ID_OFFSET, 42);
    put_u32(&mut instr_data, constants::INSTR_STATIC_ACCOUNT_TOKEN_ID_OFFSET, 0);
    put_u32(&mut instr_data, constants::INSTR_STATIC_ACCOUNT_MINT_ID_OFFSET, 3);

    let tables = build_engine_tables(
        &root,
        &vec![([1u8; 32], token_data.clone())],
        &vec![([2u8; 32], instr_data)],
    )
    .unwrap();
    let sol = tables.tokens.get(&0).unwrap();
    assert_eq!(sol.decimals, 9);
    assert_eq!(sol.program_address[0], 0x51);
    assert_eq!(sol.account, [0u8; 32]);
    assert_eq!(tables.tokens.get(&3).unwrap().decimals, 6);
    assert_eq!(tables.instruments.get(&42).unwrap().base_crncy_token_id, 3);

    // Picking the SOL/token-3 instrument finds the record; an unknown pair
    // finds nothing.
    assert_eq!(find_instrument(&tables.instruments, 0, 3), Some(42));
    assert_eq!(find_instrument(&tables.instruments, 1, 3), None);

    // A truncated record rejects the whole assembly.
    let short = vec![0u8; constants::TOKEN_ACCOUNT_SIZE - 1];
    assert!(matches!(
        build_engine_tables(&root, &vec![([1u8; 32], short)], &vec![]),
        Err(EngineAccountError::TruncatedAccount),
    ));
}
