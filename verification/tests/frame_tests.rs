//! Frame buffer behavior: channel bounds, defaults, clearing, and
//! element-wise synchronization.

use open_dmx::errors::DmxError;
use open_dmx::frame::DmxFrame;

#[test]
fn new_frame_is_all_zero() {
    let frame = DmxFrame::new();
    assert_eq!(frame.bytes().len(), 513);
    assert_eq!(frame.bytes()[0], 0);
    for c in 1..=512usize {
        assert_eq!(frame.get(c).unwrap(), 0);
    }
}

#[test]
fn set_then_get_roundtrip() {
    let mut frame = DmxFrame::new();
    for (c, v) in [(1usize, 17u8), (2, 255), (256, 9), (512, 1)] {
        frame.set(c, v).unwrap();
        assert_eq!(frame.get(c).unwrap(), v);
    }
    // No other channel moved.
    assert_eq!(frame.get(3).unwrap(), 0);
    assert_eq!(frame.bytes()[0], 0);
}

#[test]
fn invalid_channel_rejected_and_state_unchanged() {
    let mut frame = DmxFrame::new();
    frame.set(1, 42).unwrap();

    assert_eq!(frame.set(0, 10), Err(DmxError::InvalidChannel));
    assert_eq!(frame.set(513, 10), Err(DmxError::InvalidChannel));
    assert_eq!(frame.set(usize::MAX, 10), Err(DmxError::InvalidChannel));
    assert_eq!(frame.get(0), Err(DmxError::InvalidChannel));
    assert_eq!(frame.get(513), Err(DmxError::InvalidChannel));

    // The rejected operations left every slot as it was.
    assert_eq!(frame.get(1).unwrap(), 42);
    assert_eq!(frame.bytes()[0], 0);
    for c in 2..=512usize {
        assert_eq!(frame.get(c).unwrap(), 0);
    }
}

#[test]
fn clear_then_get_returns_zero() {
    let mut frame = DmxFrame::new();
    frame.set(1, 1).unwrap();
    frame.set(300, 200).unwrap();
    frame.set(512, 7).unwrap();
    frame.clear();
    for c in 1..=512usize {
        assert_eq!(frame.get(c).unwrap(), 0);
    }
    assert_eq!(frame.bytes()[0], 0);
}

#[test]
fn synchronize_short_input_leaves_trailing_slots() {
    let mut frame = DmxFrame::new();
    frame.set(5, 9).unwrap();
    frame.synchronize(&vec![1, 2, 3]);
    // Slots 0..=2 come from the input, the rest are untouched.
    assert_eq!(frame.bytes()[0], 1);
    assert_eq!(frame.get(1).unwrap(), 2);
    assert_eq!(frame.get(2).unwrap(), 3);
    assert_eq!(frame.get(3).unwrap(), 0);
    assert_eq!(frame.get(5).unwrap(), 9);
}

#[test]
fn synchronize_long_input_overwrites_whole_frame() {
    let mut frame = DmxFrame::new();
    frame.set(512, 4).unwrap();
    let raw: Vec<u8> = (0..1024u32).map(|i| (i % 251) as u8).collect();
    frame.synchronize(&raw);
    assert_eq!(frame.bytes()[0], raw[0]);
    for c in 1..=512usize {
        assert_eq!(frame.get(c).unwrap(), raw[c]);
    }
}
