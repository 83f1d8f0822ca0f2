//! Core logic of a time-slotted, frequency-hopping radio link for a wireless
//! split keyboard: one dongle is the timing master, two keyboard halves answer
//! in their assigned slots.
//!
//! The crate holds the parts of the firmware that compute and decide: the
//! on-air packet layout, the channel-hopping selector, timestamp widening,
//! the radio driver's state-transition tables, and the per-slot state machines
//! of the dongle and of a keyboard half.  Everything that touches the radio
//! peripheral itself (register writes, DMA, interrupts, waiting) lives outside
//! this crate and only feeds plain values in and carries actions out.

pub mod battery;
pub mod dongle;
pub mod hopping;
pub mod keyboard;
pub mod matrix;
pub mod packet;
pub mod protocol;
pub mod radio;
pub mod timing;

pub use hopping::ChannelHopping;
pub use packet::Packet;
