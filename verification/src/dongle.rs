//! The dongle's frame runner.
//!
//! The dongle owns the time structure: each frame it sends the beacon in
//! slot 0, then walks the remaining slots, listening on each slot's channel
//! and acknowledging whatever arrives intact.  The runner here is the
//! decision half of that loop: it hands out one radio action at a time
//! (where to send or listen, and until when) and takes back what the radio
//! observed; performing the actions -- sending, receiving, waiting -- is the
//! caller's part.

use vstd::prelude::*;
use crate::hopping::{ChannelHopping, CHANNEL_HOPPING_SEQUENCE, SEQUENCE_LEN};
use crate::packet::Packet;
use crate::protocol::{ACK_PAYLOAD, SYNC_PAYLOAD};
use crate::timing::{SLOT_GUARD, SLOT_SIZE};

verus! {

/// Send the beacon, without CCA, on this channel as close to `send_at` as
/// the clock allows.
#[derive(Clone, Copy, Debug, PartialEq, Eq, Structural)]
pub struct BeaconAction {
    pub channel: u8,
    pub send_at: u64,
}

/// Listen on this channel until a packet completes or `deadline` passes.
#[derive(Clone, Copy, Debug, PartialEq, Eq, Structural)]
pub struct ListenAction {
    pub channel: u8,
    pub deadline: u64,
}

/// Acknowledge the received slot: send the ack, without CCA, on this channel.
#[derive(Clone, Copy, Debug, PartialEq, Eq, Structural)]
pub struct AckAction {
    pub channel: u8,
}

/// How a receive slot went for the dongle.
#[derive(Clone, Copy, Debug, PartialEq, Eq, Structural)]
pub enum SlotOutcome {
    /// A packet arrived and its hardware CRC check passed.
    Received,
    /// A packet arrived but its CRC check failed.
    CrcError,
    /// The slot's deadline passed with nothing received.
    TimedOut,
}

/// The dongle's position in the frame: the hop selector names the current
/// slot, `slot_start_time` when it begins, and the two tallies feed the
/// per-frame telemetry line.
pub struct DongleRadio {
    pub hop: ChannelHopping,
    pub slot_start_time: u64,
    pub correct_rxes: u32,
    pub missed_rxes: u32,
}

impl DongleRadio {
    /// The runner invariant: the selector indexes the hop sequence.
    pub open spec fn wf(&self) -> bool {
        self.hop.wf()
    }

    /// A runner about to send its first beacon at `start_time`.
    pub fn new(start_time: u64) -> (d: DongleRadio)
        ensures
            d.wf(),
            d.hop.state == 0,
            d.slot_start_time == start_time,
            d.correct_rxes == 0,
            d.missed_rxes == 0,
    {
        DongleRadio {
            hop: ChannelHopping::new(),
            slot_start_time: start_time,
            correct_rxes: 0,
            missed_rxes: 0,
        }
    }

    /// Opens a frame: clears the tallies, fills `packet` with the beacon
    /// payload and says when and on which channel to send it, then stands
    /// advanced to the first receive slot.
    pub fn begin_frame(&mut self, packet: &mut Packet) -> (action: BeaconAction)
        requires
            old(self).wf(),
            old(self).hop.state == 0,
            old(self).slot_start_time + SLOT_SIZE <= u64::MAX,
        ensures
            final(self).wf(),
            action.channel == CHANNEL_HOPPING_SEQUENCE[0],
            action.send_at == old(self).slot_start_time,
            final(packet).wf(),
            final(packet).payload_view() == SYNC_PAYLOAD@,
            final(self).hop.state == 1,
            final(self).slot_start_time == old(self).slot_start_time + SLOT_SIZE,
            final(self).correct_rxes == 0,
            final(self).missed_rxes == 0,
    {
        packet.copy_from_slice(SYNC_PAYLOAD.as_slice());
        let action = BeaconAction { channel: self.hop.current_channel(), send_at: self.slot_start_time };
        self.correct_rxes = 0;
        self.missed_rxes = 0;
        self.hop.next_channel();
        self.slot_start_time = self.slot_start_time + SLOT_SIZE;
        action
    }

    /// The next receive slot of this frame, or `None` once the selector has
    /// wrapped and the frame is over.  The listen window closes one guard
    /// interval before the following slot.
    pub fn next_listen(&self) -> (r: Option<ListenAction>)
        requires
            self.wf(),
            self.slot_start_time + SLOT_SIZE <= u64::MAX,
        ensures
            self.hop.state == 0 ==> r is None,
            self.hop.state != 0 ==> r == Some(
                ListenAction {
                    channel: CHANNEL_HOPPING_SEQUENCE[self.hop.state as int],
                    deadline: (self.slot_start_time + SLOT_SIZE - SLOT_GUARD) as u64,
                },
            ),
    {
        if self.hop.is_initial_state() {
            None
        } else {
            Some(ListenAction {
                channel: self.hop.current_channel(),
                deadline: self.slot_start_time + SLOT_SIZE - SLOT_GUARD,
            })
        }
    }

    /// Books the outcome of the current receive slot and moves to the next
    /// one.  An intact packet is tallied and answered with the ack payload
    /// in `packet`, to go out on the slot's own channel; a CRC failure or a
    /// timeout is tallied as missed and `packet` is left alone.
    pub fn record_slot(&mut self, outcome: SlotOutcome, packet: &mut Packet) -> (ack: Option<
        AckAction,
    >)
        requires
            old(self).wf(),
            old(self).hop.state != 0,
            old(self).slot_start_time + SLOT_SIZE <= u64::MAX,
            old(self).correct_rxes < u32::MAX,
            old(self).missed_rxes < u32::MAX,
        ensures
            final(self).wf(),
            final(self).hop.state == (old(self).hop.state + 1) % (SEQUENCE_LEN as int),
            final(self).slot_start_time == old(self).slot_start_time + SLOT_SIZE,
            // every slot is tallied exactly once, whichever way it went
            final(self).correct_rxes + final(self).missed_rxes == old(self).correct_rxes + old(
                self,
            ).missed_rxes + 1,
            outcome == SlotOutcome::Received ==> {
                &&& final(self).correct_rxes == old(self).correct_rxes + 1
                &&& final(self).missed_rxes == old(self).missed_rxes
                &&& ack == Some(
                    AckAction { channel: CHANNEL_HOPPING_SEQUENCE[old(self).hop.state as int] },
                )
                &&& final(packet).wf()
                &&& final(packet).payload_view() == ACK_PAYLOAD@
            },
            outcome != SlotOutcome::Received ==> {
                &&& final(self).correct_rxes == old(self).correct_rxes
                &&& final(self).missed_rxes == old(self).missed_rxes + 1
                &&& ack is None
                &&& *final(packet) == *old(packet)
            },
    {
        let ack = match outcome {
            SlotOutcome::Received => {
                self.correct_rxes = self.correct_rxes + 1;
                packet.copy_from_slice(ACK_PAYLOAD.as_slice());
                Some(AckAction { channel: self.hop.current_channel() })
            },
            SlotOutcome::CrcError | SlotOutcome::TimedOut => {
                self.missed_rxes = self.missed_rxes + 1;
                None
            },
        };
        self.hop.next_channel();
        self.slot_start_time = self.slot_start_time + SLOT_SIZE;
        ack
    }

    /// The frame's telemetry: how many slots were received intact and how
    /// many were missed.
    pub fn frame_report(&self) -> (r: (u32, u32))
        ensures
            r.0 == self.correct_rxes,
            r.1 == self.missed_rxes,
    {
        (self.correct_rxes, self.missed_rxes)
    }
}

} // verus!
