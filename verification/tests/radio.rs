use corne_firmware::radio::{
    disable_step, recv_result, rx_entry_plan, send_poll, settled_state, tx_entry_needs_ramp, Cca,
    Channel, DisableStep, Error, HwState, RadioConfig, RadioState, Rssi, SendPoll, Timestamp,
    TxPower, BASE_ADDRESS0, BASE_ADDRESS1, CRC_INITIAL, CRC_POLYNOMIAL, PREFIX0, PREFIX1,
};

#[test]
fn channel_frequencies() {
    assert_eq!(Channel::_11.frequency(), 5);
    assert_eq!(Channel::_15.frequency(), 25);
    assert_eq!(Channel::_20.frequency(), 50);
    assert_eq!(Channel::_26.frequency(), 80);
}

#[test]
fn tx_power_values() {
    assert_eq!(TxPower::Pos8dBm.dbm(), 8);
    assert_eq!(TxPower::_0dBm.dbm(), 0);
    assert_eq!(TxPower::Neg40dBm.dbm(), -40);
}

#[test]
fn wire_addresses_and_crc() {
    assert_eq!(BASE_ADDRESS0, [0xE7, 0xE7, 0xE7, 0xE7]);
    assert_eq!(BASE_ADDRESS1, [0xC2, 0xC2, 0xC2, 0xC2]);
    assert_eq!(PREFIX0, [0xE7, 0xC2, 0xC3, 0xC4]);
    assert_eq!(PREFIX1, [0xC5, 0xC6, 0xC7, 0xC8]);
    assert_eq!(CRC_POLYNOMIAL, 0x11021);
    assert_eq!(CRC_INITIAL, 0);
}

#[test]
fn init_configuration_defaults() {
    let c = RadioConfig::init();
    assert_eq!(c.frequency, 5);
    assert_eq!(c.cca, Cca::CarrierSense);
    assert_eq!(c.sfd, 0xA7);
    assert_eq!(c.tx_power, TxPower::_0dBm);
    assert!(c.needs_enable);
}

#[test]
fn config_mutators_mark_reenable() {
    let mut c = RadioConfig::init();
    c.needs_enable = false;
    c.set_channel(Channel::_12);
    assert_eq!(c.frequency, 10);
    assert!(c.needs_enable);

    c.needs_enable = false;
    c.set_frequency(77);
    assert_eq!(c.frequency, 77);
    assert!(c.needs_enable);

    c.needs_enable = false;
    c.set_cca(Cca::EnergyDetection { ed_threshold: 40 });
    assert_eq!(c.cca, Cca::EnergyDetection { ed_threshold: 40 });
    assert!(c.needs_enable);

    c.needs_enable = false;
    c.set_txpower(TxPower::Pos4dBm);
    assert_eq!(c.tx_power, TxPower::Pos4dBm);
    assert!(c.needs_enable);

    // the SFD takes effect without a re-ramp
    c.needs_enable = false;
    c.set_sfd(0xA8);
    assert_eq!(c.sfd, 0xA8);
    assert!(!c.needs_enable);
}

#[test]
fn setting_the_same_channel_twice_is_idempotent() {
    let mut once = RadioConfig::init();
    once.set_channel(Channel::_19);
    let mut twice = once;
    twice.set_channel(Channel::_19);
    assert_eq!(once, twice);
}

#[test]
fn disable_steps_follow_the_state_graph() {
    assert_eq!(disable_step(HwState::Disabled), DisableStep::Done);
    assert_eq!(disable_step(HwState::RxRamp), DisableStep::TriggerDisable);
    assert_eq!(disable_step(HwState::RxIdle), DisableStep::TriggerDisable);
    assert_eq!(disable_step(HwState::TxRamp), DisableStep::TriggerDisable);
    assert_eq!(disable_step(HwState::TxIdle), DisableStep::TriggerDisable);
    assert_eq!(disable_step(HwState::RxDisable), DisableStep::AwaitDisabled);
    assert_eq!(disable_step(HwState::TxDisable), DisableStep::AwaitDisabled);
    assert_eq!(disable_step(HwState::RxActive), DisableStep::StopRx);
    assert_eq!(disable_step(HwState::TxActive), DisableStep::StopTx);
}

#[test]
fn rx_entry_goes_through_disabled_from_tx() {
    // erratum 204: no direct TxIdle -> RxIdle ramp
    assert_eq!(rx_entry_plan(RadioState::TxIdle, false), (true, true));
    assert_eq!(rx_entry_plan(RadioState::Disabled, false), (false, true));
    assert_eq!(rx_entry_plan(RadioState::RxIdle, false), (false, false));
    assert_eq!(rx_entry_plan(RadioState::RxIdle, true), (false, true));
}

#[test]
fn tx_entry_ramps_unless_idle_and_clean() {
    assert!(!tx_entry_needs_ramp(RadioState::TxIdle, false));
    assert!(tx_entry_needs_ramp(RadioState::TxIdle, true));
    assert!(tx_entry_needs_ramp(RadioState::Disabled, false));
    assert!(tx_entry_needs_ramp(RadioState::RxIdle, false));
}

#[test]
fn transients_settle_and_actives_do_not() {
    assert_eq!(settled_state(HwState::RxRamp), Some(RadioState::RxIdle));
    assert_eq!(settled_state(HwState::TxDisable), Some(RadioState::Disabled));
    assert_eq!(settled_state(HwState::RxActive), None);
    assert_eq!(settled_state(HwState::TxActive), None);
}

#[test]
fn send_poll_decisions() {
    assert_eq!(send_poll(true, false), SendPoll::Complete);
    assert_eq!(send_poll(true, true), SendPoll::Complete);
    assert_eq!(send_poll(false, true), SendPoll::RetryCca);
    assert_eq!(send_poll(false, false), SendPoll::Park);
}

#[test]
fn recv_result_reports_crc_status() {
    assert_eq!(
        recv_result(true, 0, 123_456, 40),
        Ok((Timestamp(123_456), Rssi(-40)))
    );
    assert_eq!(recv_result(false, 0x1234, 123_456, 40), Err(0x1234));
}

#[test]
fn error_variants_carry_their_cause() {
    let crc = Error::Crc(0x1234);
    let timeout = Error::Timeout;
    assert!(matches!(crc, Error::Crc(0x1234)));
    assert_ne!(crc, timeout);
}
