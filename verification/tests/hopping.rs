use corne_firmware::hopping::{ChannelHopping, CHANNEL_HOPPING_SEQUENCE, SEQUENCE_LEN};

#[test]
fn starts_at_the_initial_state() {
    let h = ChannelHopping::new();
    assert!(h.is_initial_state());
    assert_eq!(h.state(), 0);
    assert_eq!(h.current_channel(), CHANNEL_HOPPING_SEQUENCE[0]);
    assert_eq!(h.current_channel(), 5);
}

#[test]
fn current_channel_follows_the_sequence() {
    let mut h = ChannelHopping::new();
    for i in 0..SEQUENCE_LEN as usize {
        assert_eq!(h.state() as usize, i);
        assert_eq!(h.current_channel(), CHANNEL_HOPPING_SEQUENCE[i]);
        h.next_channel();
    }
}

#[test]
fn full_cycle_returns_to_the_start() {
    let mut h = ChannelHopping::new();
    for _ in 0..SEQUENCE_LEN {
        h.next_channel();
    }
    assert!(h.is_initial_state());
    assert_eq!(h.current_channel(), CHANNEL_HOPPING_SEQUENCE[0]);
    assert_eq!(h.current_channel(), 5);
}

#[test]
fn full_cycle_from_any_state_returns_there() {
    let mut h = ChannelHopping::new();
    for _ in 0..42 {
        h.next_channel();
    }
    assert_eq!(h.state(), 42);
    for _ in 0..SEQUENCE_LEN {
        h.next_channel();
    }
    assert_eq!(h.state(), 42);
}

#[test]
fn reset_is_idempotent() {
    let mut h = ChannelHopping::new();
    h.next_channel();
    h.next_channel();
    h.reset();
    assert_eq!(h.state(), 0);
    h.reset();
    assert_eq!(h.state(), 0);
}

#[test]
fn adjacent_hops_are_apart_but_for_one_pair() {
    let len = SEQUENCE_LEN as usize;
    for i in 0..len {
        let a = CHANNEL_HOPPING_SEQUENCE[i] as i32;
        let b = CHANNEL_HOPPING_SEQUENCE[(i + 1) % len] as i32;
        if i == 14 {
            // the one neighbouring pair of the embedded constant that sits
            // on adjacent channels
            assert_eq!((a - b).abs(), 1);
        } else {
            assert!((a - b).abs() > 1, "entries {} and {} too close", i, i + 1);
        }
    }
}

#[test]
fn every_channel_of_the_band_is_used() {
    let mut seen = [false; 84];
    for &c in CHANNEL_HOPPING_SEQUENCE.iter() {
        assert!(c <= 83);
        seen[c as usize] = true;
    }
    assert!(seen.iter().all(|&s| s));
}
