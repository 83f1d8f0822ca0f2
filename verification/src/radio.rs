//! The radio driver's data model and decision tables.
//!
//! The driver proper runs against the PHY: it writes registers, hands a
//! packet buffer to DMA and parks on events.  Everything it decides, though,
//! is a function of plain values -- the hardware state it read, the events
//! that fired, the configuration it keeps -- and those decisions live here,
//! so the loop around the hardware only performs what these tables say.

use vstd::prelude::*;

verus! {

/// Microsecond tick of the monotonic clock at which the address word of a
/// frame crossed the air, as captured by hardware (32-bit, wraps).
#[derive(Clone, Copy, Debug, PartialEq, Eq, Structural)]
pub struct Timestamp(pub u32);

/// Received signal strength in dBm; the radio reports it on successful
/// receive and its semantic range is negative.
#[derive(Clone, Copy, Debug, PartialEq, Eq, Structural)]
pub struct Rssi(pub i8);

/// Why a receive or a slot failed.
#[derive(Clone, Copy, Debug, PartialEq, Eq, Structural)]
pub enum Error {
    /// The hardware CRC check failed; carries the received CRC bits.
    Crc(u16),
    /// The protocol-level deadline passed without a completed receive.
    Timeout,
}

/// Clear Channel Assessment method.
#[derive(Clone, Copy, Debug, PartialEq, Eq, Structural)]
pub enum Cca {
    /// Carrier sense.
    CarrierSense,
    /// Energy detection: the channel counts as busy above this threshold.
    EnergyDetection { ed_threshold: u8 },
}

/// IEEE 802.15.4 channels of the 2.4 GHz band (not WiFi channels).
#[derive(Clone, Copy, Debug, PartialEq, Eq, Structural)]
pub enum Channel {
    /// 2_405 MHz
    _11,
    /// 2_410 MHz
    _12,
    /// 2_415 MHz
    _13,
    /// 2_420 MHz
    _14,
    /// 2_425 MHz
    _15,
    /// 2_430 MHz
    _16,
    /// 2_435 MHz
    _17,
    /// 2_440 MHz
    _18,
    /// 2_445 MHz
    _19,
    /// 2_450 MHz
    _20,
    /// 2_455 MHz
    _21,
    /// 2_460 MHz
    _22,
    /// 2_465 MHz
    _23,
    /// 2_470 MHz
    _24,
    /// 2_475 MHz
    _25,
    /// 2_480 MHz
    _26,
}

/// The frequency offset a channel stands for: the PHY is tuned to
/// 2400 MHz + this value.
pub open spec fn spec_channel_frequency(c: Channel) -> u8 {
    match c {
        Channel::_11 => 5,
        Channel::_12 => 10,
        Channel::_13 => 15,
        Channel::_14 => 20,
        Channel::_15 => 25,
        Channel::_16 => 30,
        Channel::_17 => 35,
        Channel::_18 => 40,
        Channel::_19 => 45,
        Channel::_20 => 50,
        Channel::_21 => 55,
        Channel::_22 => 60,
        Channel::_23 => 65,
        Channel::_24 => 70,
        Channel::_25 => 75,
        Channel::_26 => 80,
    }
}

impl Channel {
    /// The frequency offset to program: 2400 MHz + the returned value.
    pub fn frequency(&self) -> (f: u8)
        ensures
            f == spec_channel_frequency(*self),
            f <= 100,
    {
        match self {
            Channel::_11 => 5,
            Channel::_12 => 10,
            Channel::_13 => 15,
            Channel::_14 => 20,
            Channel::_15 => 25,
            Channel::_16 => 30,
            Channel::_17 => 35,
            Channel::_18 => 40,
            Channel::_19 => 45,
            Channel::_20 => 50,
            Channel::_21 => 55,
            Channel::_22 => 60,
            Channel::_23 => 65,
            Channel::_24 => 70,
            Channel::_25 => 75,
            Channel::_26 => 80,
        }
    }
}

/// Transmission power in dBm.
#[derive(Clone, Copy, Debug, PartialEq, Eq, Structural)]
pub enum TxPower {
    /// +8 dBm
    Pos8dBm,
    /// +7 dBm
    Pos7dBm,
    /// +6 dBm
    Pos6dBm,
    /// +5 dBm
    Pos5dBm,
    /// +4 dBm
    Pos4dBm,
    /// +3 dBm
    Pos3dBm,
    /// +2 dBm
    Pos2dBm,
    /// 0 dBm
    _0dBm,
    /// -4 dBm
    Neg4dBm,
    /// -8 dBm
    Neg8dBm,
    /// -12 dBm
    Neg12dBm,
    /// -16 dBm
    Neg16dBm,
    /// -20 dBm
    Neg20dBm,
    /// -40 dBm
    Neg40dBm,
}

/// The signed dBm value a power setting stands for.
pub open spec fn spec_tx_power_dbm(p: TxPower) -> int {
    match p {
        TxPower::Pos8dBm => 8,
        TxPower::Pos7dBm => 7,
        TxPower::Pos6dBm => 6,
        TxPower::Pos5dBm => 5,
        TxPower::Pos4dBm => 4,
        TxPower::Pos3dBm => 3,
        TxPower::Pos2dBm => 2,
        TxPower::_0dBm => 0,
        TxPower::Neg4dBm => -4,
        TxPower::Neg8dBm => -8,
        TxPower::Neg12dBm => -12,
        TxPower::Neg16dBm => -16,
        TxPower::Neg20dBm => -20,
        TxPower::Neg40dBm => -40,
    }
}

impl TxPower {
    /// The dBm value to program into the transmit-power register.
    pub fn dbm(&self) -> (d: i8)
        ensures
            d == spec_tx_power_dbm(*self),
    {
        match self {
            TxPower::Pos8dBm => 8,
            TxPower::Pos7dBm => 7,
            TxPower::Pos6dBm => 6,
            TxPower::Pos5dBm => 5,
            TxPower::Pos4dBm => 4,
            TxPower::Pos3dBm => 3,
            TxPower::Pos2dBm => 2,
            TxPower::_0dBm => 0,
            TxPower::Neg4dBm => -4,
            TxPower::Neg8dBm => -8,
            TxPower::Neg12dBm => -12,
            TxPower::Neg16dBm => -16,
            TxPower::Neg20dBm => -20,
            TxPower::Neg40dBm => -40,
        }
    }
}

/// First base address programmed at init; with `PREFIX0`'s first byte it
/// forms the address transmissions go out under.
pub const BASE_ADDRESS0: [u8; 4] = [0xE7, 0xE7, 0xE7, 0xE7];

/// Second base address programmed at init.
pub const BASE_ADDRESS1: [u8; 4] = [0xC2, 0xC2, 0xC2, 0xC2];

/// Address prefixes for the first four logical addresses; reception matches
/// every programmed address.
pub const PREFIX0: [u8; 4] = [0xE7, 0xC2, 0xC3, 0xC4];

/// Address prefixes for the last four logical addresses.
pub const PREFIX1: [u8; 4] = [0xC5, 0xC6, 0xC7, 0xC8];

/// The 16-bit CRC the hardware computes over the PSDU:
/// x^16 + x^12 + x^5 + 1, as the IEEE spec asks.
pub const CRC_POLYNOMIAL: u32 = 0x11021;

/// The CRC computation starts from zero.
pub const CRC_INITIAL: u32 = 0;

/// The part of the PHY configuration the driver may change between
/// operations.  Every mutator except the SFD leaves the PHY needing a
/// re-ramp (`needs_enable`) before its new value takes effect.
#[derive(Clone, Copy, Debug, PartialEq, Eq, Structural)]
pub struct RadioConfig {
    /// Frequency offset from 2400 MHz, `0..=100`.
    pub frequency: u8,
    /// Clear Channel Assessment method.
    pub cca: Cca,
    /// Start-of-Frame Delimiter byte.
    pub sfd: u8,
    /// Transmission power.
    pub tx_power: TxPower,
    /// Whether the PHY must ramp anew before the configuration is live.
    pub needs_enable: bool,
}

/// The configuration a channel change leaves behind.
pub open spec fn spec_set_channel(c: RadioConfig, ch: Channel) -> RadioConfig {
    RadioConfig { frequency: spec_channel_frequency(ch), needs_enable: true, ..c }
}

/// The configuration a frequency change leaves behind.
pub open spec fn spec_set_frequency(c: RadioConfig, f: u8) -> RadioConfig {
    RadioConfig { frequency: f, needs_enable: true, ..c }
}

impl RadioConfig {
    /// The configuration invariant: the frequency offset stays in the band
    /// the hardware accepts.
    pub open spec fn wf(&self) -> bool {
        self.frequency <= 100
    }

    /// The configuration the driver programs at init: 2 Mb/s defaults of
    /// channel 11, carrier-sense CCA, the IEEE SFD byte and 0 dBm.
    pub fn init() -> (c: RadioConfig)
        ensures
            c.wf(),
            c.frequency == 5,
            c.cca == Cca::CarrierSense,
            c.sfd == 0xA7u8,
            c.tx_power == TxPower::_0dBm,
            c.needs_enable,
    {
        RadioConfig {
            frequency: 5,
            cca: Cca::CarrierSense,
            sfd: 0xA7,
            tx_power: TxPower::_0dBm,
            needs_enable: true,
        }
    }

    /// Tunes to an IEEE channel and marks the PHY for re-enable.
    pub fn set_channel(&mut self, ch: Channel)
        ensures
            *final(self) == spec_set_channel(*old(self), ch),
            final(self).wf(),
    {
        self.frequency = ch.frequency();
        self.needs_enable = true;
    }

    /// Tunes to 2400 MHz + `f` and marks the PHY for re-enable.  Offsets
    /// above 100 are outside the hardware's range and are not accepted.
    pub fn set_frequency(&mut self, f: u8)
        requires
            f <= 100,
        ensures
            *final(self) == spec_set_frequency(*old(self), f),
            final(self).wf(),
    {
        self.frequency = f;
        self.needs_enable = true;
    }

    /// Changes the CCA method and marks the PHY for re-enable.
    pub fn set_cca(&mut self, cca: Cca)
        ensures
            *final(self) == (RadioConfig { cca, needs_enable: true, ..*old(self) }),
    {
        self.cca = cca;
        self.needs_enable = true;
    }

    /// Changes the Start-of-Frame Delimiter; this one takes effect without
    /// a re-ramp.
    pub fn set_sfd(&mut self, sfd: u8)
        ensures
            *final(self) == (RadioConfig { sfd, ..*old(self) }),
    {
        self.sfd = sfd;
    }

    /// Changes the transmission power and marks the PHY for re-enable.
    pub fn set_txpower(&mut self, power: TxPower)
        ensures
            *final(self) == (RadioConfig { tx_power: power, needs_enable: true, ..*old(self) }),
    {
        self.tx_power = power;
        self.needs_enable = true;
    }
}

/// Setting the same channel twice leaves exactly the configuration the
/// first set left: the second write changes nothing.
pub proof fn lemma_set_channel_idempotent(c: RadioConfig, ch: Channel)
    ensures
        spec_set_channel(spec_set_channel(c, ch), ch) == spec_set_channel(c, ch),
{
}

/// The three states the driver leaves the PHY in between operations.
/// Transient ramp states are always waited out, never surfaced.
#[derive(Clone, Copy, Debug, PartialEq, Eq, Structural)]
pub enum RadioState {
    Disabled,
    RxIdle,
    TxIdle,
}

/// The full hardware state register, transients included.
#[derive(Clone, Copy, Debug, PartialEq, Eq, Structural)]
pub enum HwState {
    Disabled,
    RxRamp,
    RxIdle,
    RxActive,
    RxDisable,
    TxRamp,
    TxIdle,
    TxActive,
    TxDisable,
}

/// The settled state a hardware state will come to rest as, if the driver
/// only waits; `None` for the active states that must first be stopped.
pub open spec fn spec_settled_state(s: HwState) -> Option<RadioState> {
    match s {
        HwState::Disabled => Some(RadioState::Disabled),
        HwState::RxRamp => Some(RadioState::RxIdle),
        HwState::RxIdle => Some(RadioState::RxIdle),
        HwState::TxRamp => Some(RadioState::TxIdle),
        HwState::TxIdle => Some(RadioState::TxIdle),
        HwState::RxDisable => Some(RadioState::Disabled),
        HwState::TxDisable => Some(RadioState::Disabled),
        HwState::RxActive => None,
        HwState::TxActive => None,
    }
}

/// Where a hardware state will settle without intervention, or `None` while
/// a reception, transmission or CCA is still in flight.
pub fn settled_state(s: HwState) -> (r: Option<RadioState>)
    ensures
        r == spec_settled_state(s),
{
    match s {
        HwState::Disabled => Some(RadioState::Disabled),
        HwState::RxRamp => Some(RadioState::RxIdle),
        HwState::RxIdle => Some(RadioState::RxIdle),
        HwState::TxRamp => Some(RadioState::TxIdle),
        HwState::TxIdle => Some(RadioState::TxIdle),
        HwState::RxDisable => Some(RadioState::Disabled),
        HwState::TxDisable => Some(RadioState::Disabled),
        HwState::RxActive => None,
        HwState::TxActive => None,
    }
}

/// One step of driving the PHY from any state to `Disabled`.
#[derive(Clone, Copy, Debug, PartialEq, Eq, Structural)]
pub enum DisableStep {
    /// Already disabled: nothing to do.
    Done,
    /// Trigger the disable task, then wait for `Disabled`.
    TriggerDisable,
    /// Already ramping down: wait for `Disabled`.
    AwaitDisabled,
    /// Reception or CCA in flight: stop CCA and reception, wait for
    /// `RxIdle`, then decide again.
    StopRx,
    /// Transmission in flight: stop it, wait for `TxIdle`, then decide again.
    StopTx,
}

/// What `disable_step` answers for each hardware state, following the
/// nRF52840 state graph.
pub open spec fn spec_disable_step(s: HwState) -> DisableStep {
    match s {
        HwState::Disabled => DisableStep::Done,
        HwState::RxRamp => DisableStep::TriggerDisable,
        HwState::RxIdle => DisableStep::TriggerDisable,
        HwState::TxRamp => DisableStep::TriggerDisable,
        HwState::TxIdle => DisableStep::TriggerDisable,
        HwState::RxDisable => DisableStep::AwaitDisabled,
        HwState::TxDisable => DisableStep::AwaitDisabled,
        HwState::RxActive => DisableStep::StopRx,
        HwState::TxActive => DisableStep::StopTx,
    }
}

/// The next action on the way from hardware state `s` to `Disabled`.
pub fn disable_step(s: HwState) -> (step: DisableStep)
    ensures
        step == spec_disable_step(s),
{
    match s {
        HwState::Disabled => DisableStep::Done,
        HwState::RxRamp => DisableStep::TriggerDisable,
        HwState::RxIdle => DisableStep::TriggerDisable,
        HwState::TxRamp => DisableStep::TriggerDisable,
        HwState::TxIdle => DisableStep::TriggerDisable,
        HwState::RxDisable => DisableStep::AwaitDisabled,
        HwState::TxDisable => DisableStep::AwaitDisabled,
        HwState::RxActive => DisableStep::StopRx,
        HwState::TxActive => DisableStep::StopTx,
    }
}

/// How to reach `RxIdle` from a settled state: whether to first disable the
/// PHY, and whether to then ramp the receiver up.
pub open spec fn spec_rx_entry_plan(s: RadioState, needs_enable: bool) -> (bool, bool) {
    match s {
        RadioState::Disabled => (false, true),
        RadioState::RxIdle => (false, needs_enable),
        // erratum 204: no direct TxIdle -> RxIdle ramp; go through Disabled
        RadioState::TxIdle => (true, true),
    }
}

/// The plan for entering RX mode: `(disable first, then ramp up)`.
/// A pending configuration change (`needs_enable`) forces a re-ramp even
/// from `RxIdle`, and the TX-to-RX path always goes through `Disabled`.
pub fn rx_entry_plan(s: RadioState, needs_enable: bool) -> (plan: (bool, bool))
    ensures
        plan == spec_rx_entry_plan(s, needs_enable),
{
    match s {
        RadioState::Disabled => (false, true),
        RadioState::RxIdle => (false, needs_enable),
        RadioState::TxIdle => (true, true),
    }
}

/// Whether entering TX mode needs a ramp-up: always, unless the PHY already
/// idles in TX with no configuration change pending.
pub fn tx_entry_needs_ramp(s: RadioState, needs_enable: bool) -> (ramp: bool)
    ensures
        ramp == (s != RadioState::TxIdle || needs_enable),
{
    !matches!(s, RadioState::TxIdle) || needs_enable
}

/// What a CCA-guarded send does on waking: finish on the end of transmission,
/// restart CCA on a busy channel, otherwise park again.
#[derive(Clone, Copy, Debug, PartialEq, Eq, Structural)]
pub enum SendPoll {
    /// The frame left the air: read the timestamp and return.
    Complete,
    /// CCA found the channel busy: kick CCA again and park.
    RetryCca,
    /// Nothing of interest yet: park until the next event.
    Park,
}

/// What `send_poll` answers for each pair of observed events.
pub open spec fn spec_send_poll(phyend: bool, ccabusy: bool) -> SendPoll {
    if phyend {
        SendPoll::Complete
    } else if ccabusy {
        SendPoll::RetryCca
    } else {
        SendPoll::Park
    }
}

/// The CCA-guarded send loop's decision after reading which events fired.
pub fn send_poll(phyend: bool, ccabusy: bool) -> (p: SendPoll)
    ensures
        p == spec_send_poll(phyend, ccabusy),
{
    if phyend {
        SendPoll::Complete
    } else if ccabusy {
        SendPoll::RetryCca
    } else {
        SendPoll::Park
    }
}

/// What a completed receive reports, assembled from the hardware's CRC
/// status, received CRC bits, captured timestamp and RSSI sample.  The RSSI
/// register holds the magnitude of a negative dBm value.
pub fn recv_result(crc_ok: bool, rxcrc: u16, ts32: u32, rssi_sample: u8) -> (r: Result<
    (Timestamp, Rssi),
    u16,
>)
    requires
        rssi_sample <= 127,
    ensures
        crc_ok ==> r == Ok::<(Timestamp, Rssi), u16>(
            (Timestamp(ts32), Rssi((-(rssi_sample as int)) as i8)),
        ),
        !crc_ok ==> r == Err::<(Timestamp, Rssi), u16>(rxcrc),
{
    if crc_ok {
        Ok((Timestamp(ts32), Rssi(-(rssi_sample as i8))))
    } else {
        Err(rxcrc)
    }
}

} // verus!
