//! Frame timing constants and timestamp widening.
//!
//! The monotonic clock counts 64-bit microsecond ticks, but the hardware
//! capture of the radio's address event is only 32 bits wide.  A receiver
//! that wakes shortly after the capture rebuilds the full 64-bit instant by
//! stitching the clock's upper half onto the captured lower half, stepping
//! the upper half back by one turn when the capture happened just before a
//! 32-bit wrap.

use vstd::prelude::*;

verus! {

/// Duration of one protocol slot, in microsecond ticks.
pub const SLOT_SIZE: u64 = 2000;

/// How long before the end of a slot a receiver stops listening, in ticks.
pub const SLOT_GUARD: u64 = 200;

/// One full turn of the 32-bit capture register, in ticks.
pub const CAPTURE_SPAN: u64 = 0x1_0000_0000;

/// The instant a 32-bit capture names on the 64-bit clock: the unique tick
/// with that lower half lying at most one capture turn before `now64`.
pub open spec fn spec_widen_timestamp(now64: u64, ts32: u32) -> int {
    let turn = CAPTURE_SPAN as int;
    let low = (now64 as int) % turn;
    let high_base = now64 - low;
    if ts32 <= low {
        high_base + ts32
    } else {
        high_base - turn + ts32
    }
}

/// Rebuilds the 64-bit instant of a 32-bit capture taken at or before `now64`.
///
/// The result is the only tick that ends in `ts32` and lies within one
/// capture turn (about 71.5 minutes) before `now64` -- which the capture
/// does, because the receiver wakes within one slot of the captured event.
pub fn widen_timestamp(now64: u64, ts32: u32) -> (ts64: u64)
    requires
        ts32 <= now64,
    ensures
        ts64 == spec_widen_timestamp(now64, ts32),
        ts64 % CAPTURE_SPAN == ts32,
        ts64 <= now64,
        now64 - ts64 < CAPTURE_SPAN,
{
    let low = now64 % CAPTURE_SPAN;
    let high_base = now64 - low;
    proof {
        let turn = CAPTURE_SPAN as int;
        vstd::arithmetic::div_mod::lemma_fundamental_div_mod(now64 as int, turn);
        let quot = now64 as int / turn;
        assert(high_base == quot * turn);
        vstd::arithmetic::div_mod::lemma_mod_multiples_vanish(quot, ts32 as int, turn);
        vstd::arithmetic::div_mod::lemma_small_mod(ts32 as nat, CAPTURE_SPAN as nat);
        if ts32 > low {
            assert(high_base > 0);
            assert(quot >= 1) by (nonlinear_arith)
                requires
                    quot * turn > 0,
                    turn > 0,
            ;
            assert(quot * turn >= turn) by (nonlinear_arith)
                requires
                    quot >= 1,
                    turn > 0,
            ;
            vstd::arithmetic::div_mod::lemma_mod_multiples_vanish(
                quot - 1,
                ts32 as int,
                turn,
            );
        }
    }
    if ts32 as u64 <= low {
        high_base + ts32 as u64
    } else {
        high_base - CAPTURE_SPAN + ts32 as u64
    }
}

} // verus!
