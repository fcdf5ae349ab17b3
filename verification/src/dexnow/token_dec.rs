//! The decimal scale factor of a token.

use vstd::prelude::*;

verus! {

/// Ten to the `e`.
pub open spec fn pow10(e: nat) -> int
    decreases e,
{
    if e == 0 {
        1
    } else {
        10 * pow10((e - 1) as nat)
    }
}

/// The factor that scales a token's raw on-chain quantities into whole
/// tokens: ten to its number of decimals. Token decimals are stored in four
/// bits, so every value fits.
pub fn token_dec(decimals: u8) -> (r: u64)
    requires
        decimals <= 15,
    ensures
        r == pow10(decimals as nat),
        r >= 1,
{
    proof {
        lemma_pow10_positive(decimals as nat);
    }
    let mut r: u64 = 1;
    let mut i: u8 = 0;
    while i < decimals
        invariant
            i <= decimals <= 15,
            r == pow10(i as nat),
        decreases decimals - i,
    {
        proof {
            lemma_pow10_bound((i + 1) as nat);
        }
        r = r * 10;
        i = i + 1;
    }
    r
}

/// Powers of ten are positive.
pub proof fn lemma_pow10_positive(e: nat)
    ensures
        pow10(e) >= 1,
    decreases e,
{
    if e > 0 {
        lemma_pow10_positive((e - 1) as nat);
    }
}

/// Powers of ten are positive and increase with the exponent.
proof fn lemma_pow10_mono(a: nat, b: nat)
    requires
        a <= b,
    ensures
        0 < pow10(a) <= pow10(b),
    decreases b,
{
    if b > 0 {
        if a == b {
            lemma_pow10_mono(0, (b - 1) as nat);
        } else {
            lemma_pow10_mono(a, (b - 1) as nat);
        }
    }
}

/// Ten to anything at most 15 stays within `u64`.
proof fn lemma_pow10_bound(e: nat)
    requires
        e <= 15,
    ensures
        0 < pow10(e) <= 0x3_8D7E_A4C6_8000,
{
    lemma_pow10_mono(e, 15);
    reveal_with_fuel(pow10, 17);
    assert(pow10(15) == 0x3_8D7E_A4C6_8000);
}

} // verus!
