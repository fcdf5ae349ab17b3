//! Decoding the order-book content of a dynamic instrument account: each
//! side holds up to [`MARKET_DEPTH`] 16-byte lines of (price, quantity),
//! terminated early by a zero price. Values stay in the engine's raw
//! integer units.

use super::constants::INSTR_DYNAMIC_ACCOUNT_ASKS_OFFSET;
use super::constants::INSTR_DYNAMIC_ACCOUNT_BIDS_OFFSET;
use super::constants::MARKET_DEPTH;
use super::instr_dynamic_account::InstrDynamicAccount;
use super::line_px::LinePx;
use super::read_int_uint::le_bytes_i64;
use super::read_basic_types::read_i64;
use vstd::prelude::*;

verus! {

/// The lines stored from `start` on: one 16-byte (price, quantity) record
/// per line, at most `depth` of them, stopping at the first zero price.
pub open spec fn read_orders_spec(data: Seq<u8>, start: int, depth: nat) -> Seq<LinePx>
    decreases depth,
{
    if depth == 0 {
        Seq::empty()
    } else {
        let px = le_bytes_i64(data.subrange(start, start + 8));
        if px == 0 {
            Seq::empty()
        } else {
            let qty = le_bytes_i64(data.subrange(start + 8, start + 16));
            seq![LinePx { px: px as i64, qty: qty as i64 }] + read_orders_spec(
                data,
                start + 16,
                (depth - 1) as nat,
            )
        }
    }
}

/// Reads one side's lines.
fn read_orders(data: &Vec<u8>, start_offset: usize) -> (orders: Vec<LinePx>)
    requires
        start_offset + MARKET_DEPTH * 16 <= data@.len(),
    ensures
        orders@ == read_orders_spec(data@, start_offset as int, MARKET_DEPTH as nat),
{
    let mut orders: Vec<LinePx> = Vec::new();
    let mut i: usize = 0;
    proof {
        assert(data@.len() == data.len());
    }
    while i < MARKET_DEPTH
        invariant_except_break
            i <= MARKET_DEPTH,
            data@.len() <= usize::MAX,
            start_offset + MARKET_DEPTH * 16 <= data@.len(),
            read_orders_spec(data@, start_offset as int, MARKET_DEPTH as nat) == orders@
                + read_orders_spec(
                data@,
                start_offset + 16 * i,
                (MARKET_DEPTH - i) as nat,
            ),
        ensures
            orders@ == read_orders_spec(data@, start_offset as int, MARKET_DEPTH as nat),
        decreases MARKET_DEPTH - i,
    {
        let offset = start_offset + i * 16;
        let px = read_i64(data.as_slice(), offset);
        if px == 0 {
            proof {
                assert(read_orders_spec(data@, start_offset + 16 * i, (MARKET_DEPTH - i) as nat)
                    =~= Seq::<LinePx>::empty());
                assert(orders@ + Seq::<LinePx>::empty() =~= orders@);
            }
            break ;
        }
        let qty = read_i64(data.as_slice(), offset + 8);
        let ghost orders0 = orders@;
        orders.push(LinePx { px, qty });
        proof {
            let rest = read_orders_spec(
                data@,
                start_offset + 16 * (i + 1),
                (MARKET_DEPTH - i - 1) as nat,
            );
            assert(read_orders_spec(data@, start_offset + 16 * i, (MARKET_DEPTH - i) as nat)
                == seq![LinePx { px, qty }] + rest);
            assert(orders@ + rest =~= orders0 + (seq![LinePx { px, qty }] + rest));
        }
        i = i + 1;
    }
    proof {
        if i == MARKET_DEPTH {
            assert(read_orders_spec(data@, start_offset + 16 * MARKET_DEPTH, 0nat)
                =~= Seq::<LinePx>::empty());
        }
    }
    orders
}

/// Decodes the two spot order-book sides of a dynamic instrument account.
pub fn decode_instr_dynamic_account(data: &Vec<u8>) -> (r: InstrDynamicAccount)
    requires
        INSTR_DYNAMIC_ACCOUNT_ASKS_OFFSET + MARKET_DEPTH * 16 <= data@.len(),
    ensures
        r.spot_bids@ == read_orders_spec(
            data@,
            INSTR_DYNAMIC_ACCOUNT_BIDS_OFFSET as int,
            MARKET_DEPTH as nat,
        ),
        r.spot_asks@ == read_orders_spec(
            data@,
            INSTR_DYNAMIC_ACCOUNT_ASKS_OFFSET as int,
            MARKET_DEPTH as nat,
        ),
{
    let spot_bids = read_orders(data, INSTR_DYNAMIC_ACCOUNT_BIDS_OFFSET);
    let spot_asks = read_orders(data, INSTR_DYNAMIC_ACCOUNT_ASKS_OFFSET);
    InstrDynamicAccount { spot_bids, spot_asks }
}

} // verus!
