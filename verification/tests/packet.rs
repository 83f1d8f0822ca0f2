use corne_firmware::packet::{Packet, BUFFER_SIZE, CAPACITY, CRC_LEN};

#[test]
fn new_packet_is_empty() {
    let p = Packet::new();
    assert_eq!(p.len(), 0);
    assert_eq!(p.phr(), 2);
    assert_eq!(p.payload(), &[] as &[u8]);
}

#[test]
fn packet_constants_match_the_phy() {
    assert_eq!(CAPACITY, 125);
    assert_eq!(CRC_LEN, 2);
    assert_eq!(BUFFER_SIZE, 128);
}

#[test]
fn copy_from_slice_round_trip() {
    let mut p = Packet::new();
    let data: Vec<u8> = vec![0, 1, 2, 3, 4, 5, 6, 7, 8, 9];
    p.copy_from_slice(&data);
    assert_eq!(p.len(), 10);
    assert_eq!(p.phr(), 12);
    assert_eq!(p.payload(), &data[..]);
}

#[test]
fn phr_always_tracks_payload_length() {
    let mut p = Packet::new();
    assert_eq!(p.phr(), p.len() + 2);
    p.copy_from_slice(&[0x42]);
    assert_eq!(p.phr(), p.len() + 2);
    p.set_len(0);
    assert_eq!(p.phr(), p.len() + 2);
}

#[test]
fn copy_from_slice_largest_payload() {
    let mut p = Packet::new();
    let data: Vec<u8> = (0..125).map(|i| i as u8).collect();
    p.copy_from_slice(&data);
    assert_eq!(p.len(), 125);
    assert_eq!(p.phr(), 127);
    assert_eq!(p.payload(), &data[..]);
}

#[test]
fn copy_from_slice_empty_payload() {
    let mut p = Packet::new();
    p.copy_from_slice(&[1, 2, 3]);
    p.copy_from_slice(&[]);
    assert_eq!(p.len(), 0);
    assert_eq!(p.phr(), 2);
    assert_eq!(p.payload(), &[] as &[u8]);
}

#[test]
fn set_len_rewrites_header_only() {
    let mut p = Packet::new();
    p.copy_from_slice(&[10, 20, 30]);
    p.set_len(2);
    assert_eq!(p.len(), 2);
    assert_eq!(p.phr(), 4);
    assert_eq!(p.payload(), &[10, 20]);
}
