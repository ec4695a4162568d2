use nes_core::pad::{Pad, PadButton};

#[test]
fn strobe_sequence_returns_button_bits_in_order() {
    // Press A, Start and Right: bits 0, 3 and 7.
    let mut pad = Pad::default();
    pad.push_button(PadButton::A);
    pad.push_button(PadButton::Start);
    pad.push_button(PadButton::Right);
    pad.write_strobe(true);
    pad.write_strobe(false);
    let bits: Vec<u8> = (0..8).map(|_| pad.read_out()).collect();
    assert_eq!(bits, vec![1, 0, 0, 1, 0, 0, 0, 1]);
}

#[test]
fn strobe_high_repeats_bit_zero() {
    let mut pad = Pad::default();
    pad.push_button(PadButton::A);
    pad.write_strobe(true);
    assert_eq!(pad.read_out(), 1);
    assert_eq!(pad.read_out(), 1);
    assert_eq!(pad.read_out(), 1);
}

#[test]
fn read_cursor_wraps_after_eight_reads() {
    let mut pad = Pad::default();
    pad.push_button(PadButton::B);
    pad.write_strobe(true);
    pad.write_strobe(false);
    let first: Vec<u8> = (0..8).map(|_| pad.read_out()).collect();
    let second: Vec<u8> = (0..8).map(|_| pad.read_out()).collect();
    assert_eq!(first, second);
}

#[test]
fn push_and_release_set_and_clear_one_bit() {
    let mut pad = Pad::default();
    pad.push_button(PadButton::Up);
    pad.push_button(PadButton::Left);
    assert_eq!(pad.button_reg, 0x50);
    pad.release_button(PadButton::Up);
    assert_eq!(pad.button_reg, 0x40);
    pad.release_button(PadButton::Left);
    assert_eq!(pad.button_reg, 0x00);
}

#[test]
fn reset_clears_everything() {
    let mut pad = Pad::default();
    pad.push_button(PadButton::Down);
    pad.write_strobe(false);
    pad.read_out();
    pad.reset();
    assert_eq!(pad.button_reg, 0);
    assert_eq!(pad.read_shift_index, 0);
    assert!(!pad.strobe_enable);
}
