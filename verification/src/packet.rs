//! The PHY-layer packet buffer.
//!
//! A packet is one DMA-addressable byte buffer.  Byte 0 is the physical
//! header (PHR): the radio reads it to size the transfer, and it always holds
//! the payload length plus the two CRC bytes that the hardware appends on
//! transmission and validates on reception.  Bytes 1.. are the payload.  The
//! CRC bytes themselves never pass through this buffer.

use vstd::prelude::*;

verus! {

/// Largest usable payload (CRC excluded) a packet can carry, in bytes.
pub const CAPACITY: u8 = 125;

/// Size of the hardware-computed CRC that the PHR accounts for, in bytes.
pub const CRC_LEN: u8 = 2;

/// Whole buffer: one PHR byte plus the largest PSDU (`CAPACITY + CRC_LEN`).
pub const BUFFER_SIZE: usize = 128;

/// An IEEE 802.15.4 PHY packet with its length-prefixed on-air layout.
pub struct Packet {
    /// Byte 0 is the PHR; bytes 1..=125+1 may hold payload.
    pub buffer: [u8; 128],
}

impl Packet {
    /// The payload length the PHR encodes.
    pub open spec fn spec_len(&self) -> int {
        self.buffer[0] - CRC_LEN
    }

    /// The buffer layout invariant: the PHR always holds a payload length
    /// between 0 and `CAPACITY`, offset by the CRC size.
    pub open spec fn wf(&self) -> bool {
        CRC_LEN <= self.buffer[0] <= CAPACITY + CRC_LEN
    }

    /// The payload bytes the PHR makes visible.
    pub open spec fn payload_view(&self) -> Seq<u8> {
        self.buffer@.subrange(1, 1 + self.spec_len())
    }

    /// Returns an empty packet: zero-length payload, all data bytes zero.
    pub fn new() -> (p: Packet)
        ensures
            p.wf(),
            p.spec_len() == 0,
            p.buffer[0] == CRC_LEN,
            forall|i: int| 1 <= i < 128 ==> p.buffer[i] == 0u8,
    {
        let mut p = Packet { buffer: [0u8; 128] };
        p.set_len(0);
        p
    }

    /// Fills the payload with `src` and writes the PHR accordingly.
    /// Data bytes past the new payload keep their previous value.
    pub fn copy_from_slice(&mut self, src: &[u8])
        requires
            src@.len() <= CAPACITY,
        ensures
            final(self).wf(),
            final(self).spec_len() == src@.len(),
            final(self).payload_view() == src@,
            final(self).buffer[0] == src@.len() + CRC_LEN,
            forall|i: int| 1 + src@.len() <= i < 128 ==> final(self).buffer[i] == old(self).buffer[i],
    {
        let n = src.len();
        let mut i: usize = 0;
        while i < n
            invariant
                n == src@.len() <= CAPACITY,
                i <= n,
                self.buffer@.len() == 128,
                forall|j: int| 0 <= j < i ==> self.buffer[j + 1] == src@[j],
                forall|j: int| 1 + n <= j < 128 ==> self.buffer[j] == old(self).buffer[j],
            decreases n - i,
        {
            self.buffer[i + 1] = src[i];
            i = i + 1;
        }
        self.set_len(n as u8);
        proof {
            assert(self.payload_view() =~= src@);
        }
    }

    /// The payload length, as the PHR encodes it.
    pub fn len(&self) -> (n: u8)
        requires
            self.wf(),
        ensures
            n == self.spec_len(),
    {
        self.buffer[0] - CRC_LEN
    }

    /// Rewrites the PHR for a payload of `len` bytes; data bytes are untouched.
    pub fn set_len(&mut self, len: u8)
        requires
            len <= CAPACITY,
        ensures
            final(self).wf(),
            final(self).spec_len() == len,
            final(self).buffer@ == old(self).buffer@.update(0, (len + CRC_LEN) as u8),
    {
        self.buffer[0] = len + CRC_LEN;
    }

    /// The first `len()` data bytes: the usable payload.
    pub fn payload(&self) -> (r: &[u8])
        requires
            self.wf(),
        ensures
            r@ == self.payload_view(),
    {
        let n = self.len();
        &self.buffer[1..1 + n as usize]
    }

    /// The raw PHR byte, as the radio will read it.
    pub fn phr(&self) -> (r: u8)
        ensures
            r == self.buffer[0],
    {
        self.buffer[0]
    }
}

} // verus!
