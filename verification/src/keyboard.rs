//! A keyboard half's frame runner.
//!
//! A half starts by listening on the beacon channel with no deadline.  When
//! the beacon arrives it projects the frame's slot timeline from the
//! beacon's hardware timestamp and transmits its state in its own slots --
//! the odd ones for the right half, the even non-zero ones for the left --
//! listening for the dongle's ack after each send.  When the selector wraps
//! without a fresh beacon, it falls back to acquisition.  As with the
//! dongle, only the decisions live here; the caller performs each action
//! and reports what the radio saw.

use vstd::prelude::*;
use crate::hopping::{ChannelHopping, CHANNEL_HOPPING_SEQUENCE, SEQUENCE_LEN};
use crate::packet::Packet;
use crate::protocol::{spec_slot_owner, SlotOwner, SYNC_PAYLOAD};
use crate::timing::{spec_widen_timestamp, widen_timestamp, SLOT_GUARD, SLOT_SIZE};

verus! {

/// Whether a half has a slot timeline to transmit on.
#[derive(Clone, Copy, Debug, PartialEq, Eq, Structural)]
pub enum KeyboardRadioState {
    /// No timeline: listening for a beacon on the beacon channel.
    LookingForSync,
    /// Beacon seen at `sync_time`; the half's next transmission begins at
    /// `next_slot_time`.
    Synchronized { sync_time: u64, next_slot_time: u64 },
}

/// Transmit in the owned slot: send `packet` without CCA at `send_at` on
/// this channel, then listen for the ack until `ack_deadline`.
#[derive(Clone, Copy, Debug, PartialEq, Eq, Structural)]
pub struct SlotTxAction {
    pub channel: u8,
    pub send_at: u64,
    pub ack_deadline: u64,
}

/// A keyboard half's protocol position.
pub struct KeyboardRadio {
    pub state: KeyboardRadioState,
    pub hop: ChannelHopping,
    pub is_right_half: bool,
}

impl KeyboardRadio {
    /// The runner invariant: the selector indexes the hop sequence.
    pub open spec fn wf(&self) -> bool {
        self.hop.wf()
    }

    /// A half that has yet to hear its first beacon.
    pub fn new(is_right_half: bool) -> (k: KeyboardRadio)
        ensures
            k.wf(),
            k.state == KeyboardRadioState::LookingForSync,
            k.hop.state == 0,
            k.is_right_half == is_right_half,
    {
        KeyboardRadio {
            state: KeyboardRadioState::LookingForSync,
            hop: ChannelHopping::new(),
            is_right_half,
        }
    }

    /// Starts (or restarts) acquisition: rewinds the selector to the beacon
    /// slot and names the channel to listen on, without a deadline.
    pub fn begin_acquisition(&mut self) -> (channel: u8)
        requires
            old(self).state == KeyboardRadioState::LookingForSync,
        ensures
            final(self).wf(),
            final(self).hop.state == 0,
            final(self).state == old(self).state,
            final(self).is_right_half == old(self).is_right_half,
            channel == CHANNEL_HOPPING_SEQUENCE[0],
    {
        self.hop.reset();
        self.hop.current_channel()
    }

    /// A receive error while acquiring changes nothing: the half simply
    /// listens again.
    pub fn on_acquisition_error(&mut self)
        requires
            old(self).state == KeyboardRadioState::LookingForSync,
        ensures
            *final(self) == *old(self),
    {
    }

    /// Takes the packet that ended acquisition, stamped `ts32` by hardware
    /// and observed at clock time `now64`.  The beacon payload synchronizes
    /// the half: the beacon instant is widened to the full clock, and the
    /// half stands on its first own slot -- the next slot for the right
    /// half, the one after for the left.  Any other payload changes nothing
    /// and acquisition goes on.
    pub fn on_sync_packet(&mut self, packet: &Packet, now64: u64, ts32: u32)
        requires
            old(self).state == KeyboardRadioState::LookingForSync,
            old(self).hop.state == 0,
            packet.wf(),
            ts32 <= now64,
            now64 + 2 * SLOT_SIZE <= u64::MAX,
        ensures
            final(self).wf(),
            final(self).is_right_half == old(self).is_right_half,
            packet.payload_view() != SYNC_PAYLOAD@ ==> *final(self) == *old(self),
            packet.payload_view() == SYNC_PAYLOAD@ ==> {
                let sync = spec_widen_timestamp(now64, ts32);
                &&& old(self).is_right_half ==> {
                    &&& final(self).hop.state == 1
                    &&& final(self).state == (KeyboardRadioState::Synchronized {
                        sync_time: sync as u64,
                        next_slot_time: (sync + SLOT_SIZE) as u64,
                    })
                }
                &&& !old(self).is_right_half ==> {
                    &&& final(self).hop.state == 2
                    &&& final(self).state == (KeyboardRadioState::Synchronized {
                        sync_time: sync as u64,
                        next_slot_time: (sync + 2 * SLOT_SIZE) as u64,
                    })
                }
            },
    {
        if crate::protocol::payload_matches(packet, SYNC_PAYLOAD.as_slice()) {
            let sync_time = widen_timestamp(now64, ts32);
            if self.is_right_half {
                // the right half owns the odd slots, starting right after
                // the beacon
                self.hop.next_channel();
                self.state = KeyboardRadioState::Synchronized {
                    sync_time,
                    next_slot_time: sync_time + SLOT_SIZE,
                };
            } else {
                // the left half owns the even slots, starting one later
                self.hop.next_channel();
                self.hop.next_channel();
                self.state = KeyboardRadioState::Synchronized {
                    sync_time,
                    next_slot_time: sync_time + 2 * SLOT_SIZE,
                };
            }
        }
    }

    /// Fills `packet` with the state this half reports in its slot: for now
    /// a single byte naming the slot, until the key-matrix snapshot is
    /// carried instead.
    pub fn prepare_data_packet(&self, packet: &mut Packet)
        requires
            self.wf(),
        ensures
            final(packet).wf(),
            final(packet).payload_view() == seq![self.hop.state],
    {
        let data: [u8; 1] = [self.hop.state()];
        packet.copy_from_slice(data.as_slice());
        proof {
            assert(data@ =~= seq![self.hop.state]);
        }
    }

    /// The transmission the current slot asks for: send at the slot start
    /// on the slot's channel, then listen for the ack until one guard
    /// interval before the slot ends.
    pub fn slot_action(&self) -> (action: SlotTxAction)
        requires
            self.wf(),
            self.state is Synchronized,
            self.state->next_slot_time + SLOT_SIZE <= u64::MAX,
        ensures
            action.channel == CHANNEL_HOPPING_SEQUENCE[self.hop.state as int],
            action.send_at == self.state->next_slot_time,
            action.ack_deadline == self.state->next_slot_time + SLOT_SIZE - SLOT_GUARD,
    {
        let next_slot_time = match self.state {
            KeyboardRadioState::Synchronized { next_slot_time, .. } => next_slot_time,
            KeyboardRadioState::LookingForSync => 0,  // unreachable under the requires
        };
        SlotTxAction {
            channel: self.hop.current_channel(),
            send_at: next_slot_time,
            ack_deadline: next_slot_time + SLOT_SIZE - SLOT_GUARD,
        }
    }
}

/// The position after one of a half's slots: the timeline moves two slots
/// forward -- its own and the other half's -- and if the selector wraps on
/// either advance, the half drops back to acquisition.
pub open spec fn spec_advance_after_slot(k: KeyboardRadio) -> KeyboardRadio {
    let len = SEQUENCE_LEN as int;
    let s1 = (k.hop.state + 1) % len;
    if s1 == 0 {
        KeyboardRadio {
            state: KeyboardRadioState::LookingForSync,
            hop: ChannelHopping { state: 0 },
            ..k
        }
    } else {
        let s2 = (s1 + 1) % len;
        if s2 == 0 {
            KeyboardRadio {
                state: KeyboardRadioState::LookingForSync,
                hop: ChannelHopping { state: 0 },
                ..k
            }
        } else {
            KeyboardRadio {
                state: KeyboardRadioState::Synchronized {
                    sync_time: k.state->sync_time,
                    next_slot_time: (k.state->next_slot_time + 2 * SLOT_SIZE) as u64,
                },
                hop: ChannelHopping { state: s2 as u8 },
                ..k
            }
        }
    }
}

impl KeyboardRadio {
    /// Leaves the slot just used: skips over the other half's slot to the
    /// next own one, or falls back to acquisition when the frame is over.
    pub fn advance_after_slot(&mut self)
        requires
            old(self).wf(),
            old(self).state is Synchronized,
            old(self).state->next_slot_time + 2 * SLOT_SIZE <= u64::MAX,
        ensures
            final(self).wf(),
            *final(self) == spec_advance_after_slot(*old(self)),
    {
        let (sync_time, next_slot_time) = match self.state {
            KeyboardRadioState::Synchronized { sync_time, next_slot_time } => (
                sync_time,
                next_slot_time,
            ),
            KeyboardRadioState::LookingForSync => (0u64, 0u64),  // unreachable under the requires
        };
        self.hop.next_channel();
        if self.hop.is_initial_state() {
            self.state = KeyboardRadioState::LookingForSync;
            return;
        }
        self.hop.next_channel();
        if self.hop.is_initial_state() {
            self.state = KeyboardRadioState::LookingForSync;
            return;
        }
        self.state = KeyboardRadioState::Synchronized {
            sync_time,
            next_slot_time: next_slot_time + 2 * SLOT_SIZE,
        };
    }
}

/// Whether a half's timeline agrees with its slot number: a synchronized
/// half transmits in slot `k` exactly `k` slot lengths after the beacon.
pub open spec fn timeline_aligned(k: KeyboardRadio) -> bool {
    k.state is Synchronized ==> k.state->next_slot_time == k.state->sync_time + k.hop.state
        * SLOT_SIZE
}

/// Synchronizing aligns a half's timeline with its slot number, and leaving
/// a slot keeps the two in step: the slot index and the transmission time
/// move together.
pub proof fn lemma_advance_keeps_timeline(k: KeyboardRadio)
    requires
        k.wf(),
        k.state is Synchronized,
        timeline_aligned(k),
        k.state->next_slot_time + 2 * SLOT_SIZE <= u64::MAX,
    ensures
        timeline_aligned(spec_advance_after_slot(k)),
{
    let len = SEQUENCE_LEN as int;
    let s = k.hop.state as int;
    if (s + 1) % len != 0 {
        if s + 1 < len {
            vstd::arithmetic::div_mod::lemma_small_mod((s + 1) as nat, len as nat);
        } else {
            vstd::arithmetic::div_mod::lemma_mod_self_0(len);
        }
        if (s + 2) % len != 0 {
            if s + 2 < len {
                vstd::arithmetic::div_mod::lemma_small_mod((s + 2) as nat, len as nat);
            } else {
                vstd::arithmetic::div_mod::lemma_mod_self_0(len);
            }
            assert((s + 2) % len == s + 2);
        }
    }
}

/// Whether a half stands on a slot it owns: a synchronized right half on an
/// odd slot, a synchronized left half on an even slot past the beacon.
pub open spec fn on_own_slot(k: KeyboardRadio) -> bool {
    k.state is Synchronized ==> spec_slot_owner(k.hop.state as int) == (if k.is_right_half {
        SlotOwner::RightHalf
    } else {
        SlotOwner::LeftHalf
    })
}

/// A synchronized half never trespasses: synchronizing puts it on a slot of
/// its own, and leaving a slot lands it on its next own slot or back in
/// acquisition.
pub proof fn lemma_advance_keeps_own_slot(k: KeyboardRadio)
    requires
        k.wf(),
        k.state is Synchronized,
        on_own_slot(k),
    ensures
        on_own_slot(spec_advance_after_slot(k)),
{
    let len = SEQUENCE_LEN as int;
    let s = k.hop.state as int;
    if (s + 1) % len != 0 {
        if s + 1 < len {
            vstd::arithmetic::div_mod::lemma_small_mod((s + 1) as nat, len as nat);
        } else {
            vstd::arithmetic::div_mod::lemma_mod_self_0(len);
        }
        assert((s + 1) % len == s + 1);
        if (s + 2) % len != 0 {
            if s + 2 < len {
                vstd::arithmetic::div_mod::lemma_small_mod((s + 2) as nat, len as nat);
            } else {
                vstd::arithmetic::div_mod::lemma_mod_self_0(len);
            }
            assert((s + 2) % len == s + 2);
        }
    }
}

} // verus!
