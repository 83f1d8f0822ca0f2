use corne_firmware::matrix::pack_bools;
use corne_firmware::battery::{charging_status_from_pin, ChargingStatus};
use corne_firmware::packet::Packet;
use corne_firmware::protocol::{
    payload_matches, slot_owner, SlotOwner, ACK_PAYLOAD, SYNC_PAYLOAD,
};

#[test]
fn wire_payloads() {
    assert_eq!(SYNC_PAYLOAD, [0, 1, 2, 3, 4, 5, 6, 7, 8, 9]);
    assert_eq!(ACK_PAYLOAD, [10, 11, 12, 13, 14, 15, 16, 17, 18, 19]);
}

#[test]
fn payload_matching() {
    let mut p = Packet::new();
    p.copy_from_slice(&SYNC_PAYLOAD);
    assert!(payload_matches(&p, &SYNC_PAYLOAD));
    assert!(!payload_matches(&p, &ACK_PAYLOAD));
    assert!(!payload_matches(&p, &[0, 1, 2]));
    p.copy_from_slice(&[0, 1, 2, 3, 4, 5, 6, 7, 8, 10]);
    assert!(!payload_matches(&p, &SYNC_PAYLOAD));
}

#[test]
fn slot_assignment() {
    assert_eq!(slot_owner(0), SlotOwner::Beacon);
    assert_eq!(slot_owner(1), SlotOwner::RightHalf);
    assert_eq!(slot_owner(2), SlotOwner::LeftHalf);
    assert_eq!(slot_owner(165), SlotOwner::RightHalf);
    assert_eq!(slot_owner(166), SlotOwner::LeftHalf);
}

#[test]
fn packing_no_keys() {
    let keys = [[false; 6]; 4];
    assert_eq!(pack_bools(&keys), [0, 0, 0]);
}

#[test]
fn packing_first_and_last_key() {
    let mut keys = [[false; 6]; 4];
    keys[0][0] = true;
    // the first key ends up in the top bit of the 24-bit word
    assert_eq!(pack_bools(&keys), [0x00, 0x00, 0x80]);

    let mut keys = [[false; 6]; 4];
    keys[3][5] = true;
    assert_eq!(pack_bools(&keys), [0x01, 0x00, 0x00]);
}

#[test]
fn packing_a_mixed_row() {
    let mut keys = [[false; 6]; 4];
    keys[0][0] = true;
    keys[0][2] = true;
    keys[0][4] = true;
    // bits 23, 21 and 19 of the word
    assert_eq!(pack_bools(&keys), [0x00, 0x00, 0xA8]);
}

#[test]
fn charger_pin_meaning() {
    assert_eq!(charging_status_from_pin(true), ChargingStatus::Charging);
    assert_eq!(charging_status_from_pin(false), ChargingStatus::ChargeComplete);
}
