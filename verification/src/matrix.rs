//! Packing the key matrix's debounced state for the air.
//!
//! The scanner debounces a 4-row, 6-column matrix; its 24 bits travel as
//! three bytes, walked row-major with the first key ending up in the most
//! significant position of the packed word.

use vstd::prelude::*;
use vstd::arithmetic::power2::{lemma2_to64, lemma_pow2_strictly_increases, pow2};

verus! {

/// The packed word of the first `n` keys, row-major: each further key
/// shifts the earlier ones up by one bit.
pub open spec fn spec_packed_prefix(keys: [[bool; 6]; 4], n: int) -> int
    decreases n,
{
    if n <= 0 {
        0
    } else {
        2 * spec_packed_prefix(keys, n - 1) + (if keys[(n - 1) / 6][(n - 1) % 6] {
            1int
        } else {
            0int
        })
    }
}

/// The packed word of `n` keys needs no more than `n` bits.
proof fn lemma_packed_prefix_bound(keys: [[bool; 6]; 4], n: int)
    requires
        0 <= n,
    ensures
        0 <= spec_packed_prefix(keys, n) < pow2(n as nat),
    decreases n,
{
    vstd::arithmetic::power2::lemma_pow2_pos(n as nat);
    if n > 0 {
        lemma_packed_prefix_bound(keys, n - 1);
        assert(pow2(n as nat) == 2 * pow2((n - 1) as nat)) by {
            vstd::arithmetic::power2::lemma_pow2_unfold(n as nat);
        }
    }
}

/// Packs the 24 debounced key bits into three little-endian bytes.
pub fn pack_bools(bools: &[[bool; 6]; 4]) -> (r: [u8; 3])
    ensures
        r[0] + 0x100 * r[1] + 0x10000 * r[2] == spec_packed_prefix(*bools, 24),
{
    let mut state: u32 = 0;
    let mut k: usize = 0;
    while k < 24
        invariant
            k <= 24,
            state == spec_packed_prefix(*bools, k as int),
        decreases 24 - k,
    {
        proof {
            lemma_packed_prefix_bound(*bools, k as int);
            lemma_pow2_strictly_increases(k as nat, 24);
            lemma2_to64();
        }
        let row = k / 6;
        let col = k % 6;
        let pressed = bools[row][col];
        state = state * 2 + (if pressed {
            1
        } else {
            0
        });
        k = k + 1;
    }
    proof {
        lemma_packed_prefix_bound(*bools, 24);
        lemma2_to64();
        vstd::arithmetic::div_mod::lemma_mod_breakdown(state as int, 0x100, 0x100);
        vstd::arithmetic::div_mod::lemma_mod_breakdown(state as int, 0x10000, 0x100);
        vstd::arithmetic::div_mod::lemma_small_mod(state as nat, 0x1000000);
    }
    [(state % 0x100) as u8, ((state / 0x100) % 0x100) as u8, ((state / 0x10000) % 0x100) as u8]
}

} // verus!
