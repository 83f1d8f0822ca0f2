//! On-air payloads and slot assignment of the TDMA frame protocol.
//!
//! A frame starts with the dongle's beacon in slot 0; every other slot
//! belongs to one keyboard half, which transmits its state there and listens
//! for the dongle's acknowledgement in the same slot.

use vstd::prelude::*;
use crate::packet::Packet;

verus! {

/// The fixed beacon payload the dongle sends in slot 0; receiving it anchors
/// a keyboard half's slot numbering.
pub const SYNC_PAYLOAD: [u8; 10] = [0, 1, 2, 3, 4, 5, 6, 7, 8, 9];

/// The fixed payload the dongle acknowledges a received slot with.
pub const ACK_PAYLOAD: [u8; 10] = [10, 11, 12, 13, 14, 15, 16, 17, 18, 19];

/// Whether a packet carries exactly the given payload.
pub fn payload_matches(p: &Packet, expected: &[u8]) -> (r: bool)
    requires
        p.wf(),
    ensures
        r == (p.payload_view() == expected@),
{
    let n = p.len();
    if n as usize != expected.len() {
        proof {
            assert(p.payload_view().len() == p.spec_len());
        }
        return false;
    }
    let mut i: usize = 0;
    while i < expected.len()
        invariant
            p.wf(),
            expected@.len() == p.spec_len(),
            i <= expected@.len(),
            forall|j: int| 0 <= j < i ==> p.payload_view()[j] == expected@[j],
        decreases expected@.len() - i,
    {
        if p.buffer[i + 1] != expected[i] {
            proof {
                assert(p.payload_view()[i as int] == p.buffer[i + 1]);
            }
            return false;
        }
        proof {
            assert(p.payload_view()[i as int] == p.buffer[i + 1]);
        }
        i = i + 1;
    }
    proof {
        assert(p.payload_view() =~= expected@);
    }
    true
}

/// Who owns a slot of the frame.
#[derive(Clone, Copy, Debug, PartialEq, Eq, Structural)]
pub enum SlotOwner {
    /// Slot 0: the dongle's sync beacon.
    Beacon,
    /// Odd slots: the right keyboard half.
    RightHalf,
    /// Even slots other than 0: the left keyboard half.
    LeftHalf,
}

/// The frame's slot assignment: slot 0 carries the beacon, odd slots belong
/// to the right half, the remaining even slots to the left half.
pub open spec fn spec_slot_owner(slot: int) -> SlotOwner {
    if slot == 0 {
        SlotOwner::Beacon
    } else if slot % 2 == 1 {
        SlotOwner::RightHalf
    } else {
        SlotOwner::LeftHalf
    }
}

/// Which peer slot `slot` belongs to.
pub fn slot_owner(slot: u8) -> (o: SlotOwner)
    ensures
        o == spec_slot_owner(slot as int),
{
    if slot == 0 {
        SlotOwner::Beacon
    } else if slot % 2 == 1 {
        SlotOwner::RightHalf
    } else {
        SlotOwner::LeftHalf
    }
}

} // verus!
