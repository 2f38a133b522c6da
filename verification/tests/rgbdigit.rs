use solar_monitor::rgbdigit::{
    RenderError, SevenSegmentChar, SevenSegmentDisplayString, encode,
};

#[test]
fn encoder_canonical_patterns() {
    assert_eq!(encode(&SevenSegmentChar::Number(0), false), 0b00111111);
    assert_eq!(encode(&SevenSegmentChar::Number(1), false), 0b00000110);
    assert_eq!(encode(&SevenSegmentChar::Number(2), false), 0b01011011);
    assert_eq!(encode(&SevenSegmentChar::Number(3), false), 0b01001111);
    assert_eq!(encode(&SevenSegmentChar::Number(4), false), 0b01100110);
    assert_eq!(encode(&SevenSegmentChar::Number(5), false), 0b01101101);
    assert_eq!(encode(&SevenSegmentChar::Number(6), false), 0b01111101);
    assert_eq!(encode(&SevenSegmentChar::Number(7), false), 0b00000111);
    assert_eq!(encode(&SevenSegmentChar::Number(8), false), 0b01111111);
    assert_eq!(encode(&SevenSegmentChar::Number(9), false), 0b01101111);
    assert_eq!(encode(&SevenSegmentChar::Minus, false), 0b01000000);
    assert_eq!(encode(&SevenSegmentChar::Blank, false), 0);
}

#[test]
fn encoder_deterministic_and_popcount_bounded() {
    for d in 0..10u8 {
        let first = encode(&SevenSegmentChar::Number(d), false);
        let second = encode(&SevenSegmentChar::Number(d), false);
        assert_eq!(first, second);
        assert!((first & 0x7F).count_ones() <= 7);
        assert_eq!(first & 0x80, 0);
        let dotted = encode(&SevenSegmentChar::Number(d), true);
        assert_eq!(dotted & 0x80, 0x80);
        assert_eq!(dotted & 0x7F, first);
    }
    assert_eq!(encode(&SevenSegmentChar::Blank, false), 0);
    assert_eq!(encode(&SevenSegmentChar::Blank, true) & 0x7F, 0);
}

#[test]
fn write_renders_into_assigned_cells() {
    let mut buffer = SevenSegmentDisplayString::new(2);
    let mut view = buffer.derive_numeric_display(&[0, 1]);
    view.set_color((10, 20, 30));
    view.set_value("42".to_string());
    assert!(view.write(&mut buffer).is_ok());
    let frame = buffer.flush();
    assert_eq!(frame.len(), 2 * 8 * 48);

    let mut expected = SevenSegmentDisplayString::new(2);
    let mut expected_view = expected.derive_numeric_display(&[0, 1]);
    expected_view.set_color((10, 20, 30));
    expected_view.set_value("42".to_string());
    assert!(expected_view.write(&mut expected).is_ok());
    assert_eq!(frame, expected.flush());
}

#[test]
fn write_is_idempotent() {
    let mut buffer = SevenSegmentDisplayString::new(4);
    let mut view = buffer.derive_numeric_display(&[1, 2]);
    view.set_color((90, 10, 60));
    view.set_value("7.3".to_string());
    assert!(view.write(&mut buffer).is_ok());
    let once = buffer.flush();
    assert!(view.write(&mut buffer).is_ok());
    let twice = buffer.flush();
    assert_eq!(once, twice);
}

#[test]
fn write_too_wide_fails_without_partial_write() {
    let mut buffer = SevenSegmentDisplayString::new(2);
    let mut view = buffer.derive_numeric_display(&[0, 1]);
    view.set_color((1, 2, 3));
    view.set_value("12".to_string());
    assert!(view.write(&mut buffer).is_ok());
    let before = buffer.flush();
    view.set_value("345".to_string());
    assert_eq!(view.write(&mut buffer), Err(RenderError::InsufficientDigits));
    assert_eq!(buffer.flush(), before);
}

#[test]
fn write_rejects_unsupported_characters() {
    let mut buffer = SevenSegmentDisplayString::new(2);
    let mut view = buffer.derive_numeric_display(&[0, 1]);
    view.set_value("4x".to_string());
    let before = buffer.flush();
    assert_eq!(view.write(&mut buffer), Err(RenderError::UnsupportedChar));
    assert_eq!(buffer.flush(), before);
    view.set_value(".5".to_string());
    assert_eq!(view.write(&mut buffer), Err(RenderError::UnsupportedChar));
}

#[test]
fn decimal_point_shares_its_cell() {
    let mut buffer = SevenSegmentDisplayString::new(2);
    let mut view = buffer.derive_numeric_display(&[0, 1]);
    view.set_color((5, 5, 5));
    view.set_value("1.2".to_string());
    assert!(view.write(&mut buffer).is_ok());
    // The same characters with the dot rendered through set_cell directly.
    let mut expected = SevenSegmentDisplayString::new(2);
    expected.set_cell(0, &SevenSegmentChar::Number(1), (5, 5, 5), true);
    expected.set_cell(1, &SevenSegmentChar::Number(2), (5, 5, 5), false);
    assert_eq!(buffer.flush(), expected.flush());
}

#[test]
fn minus_and_space_render() {
    let mut buffer = SevenSegmentDisplayString::new(2);
    let mut view = buffer.derive_numeric_display(&[0, 1]);
    view.set_color((9, 9, 9));
    view.set_value("- ".to_string());
    assert!(view.write(&mut buffer).is_ok());
    let mut expected = SevenSegmentDisplayString::new(2);
    expected.set_cell(0, &SevenSegmentChar::Minus, (9, 9, 9), false);
    expected.set_cell(1, &SevenSegmentChar::Blank, (9, 9, 9), false);
    assert_eq!(buffer.flush(), expected.flush());
}

#[test]
fn cleared_view_blanks_its_cells() {
    let mut buffer = SevenSegmentDisplayString::new(2);
    let mut view = buffer.derive_numeric_display(&[0, 1]);
    view.set_color((40, 40, 40));
    view.set_value("88".to_string());
    assert!(view.write(&mut buffer).is_ok());
    view.clear();
    assert!(view.write(&mut buffer).is_ok());
    assert_eq!(buffer.flush(), SevenSegmentDisplayString::new(2).flush());
}

#[test]
fn spi_frame_encodes_dark_cells_as_zero_bits() {
    let buffer = SevenSegmentDisplayString::new(1);
    let frame = buffer.flush();
    assert_eq!(frame.len(), 8 * 48);
    for pair in frame.chunks(2) {
        assert_eq!(pair[0], 0b1111_1000);
        assert_eq!(pair[1], 0b0000_0000);
    }
}

#[test]
fn spi_frame_carries_lit_segments() {
    let mut buffer = SevenSegmentDisplayString::new(1);
    let mut view = buffer.derive_numeric_display(&[0]);
    view.set_color((255, 0, 0));
    view.set_value("1".to_string());
    assert!(view.write(&mut buffer).is_ok());
    let frame = buffer.flush();
    // Digit 1 lights segments 1 and 2. Segment 1 is the second LED triple:
    // its 48 wire bytes start at offset 48; the red channel's eight bits
    // occupy wire bytes 16..32 of that triple and are all ones.
    for k in 0..8 {
        assert_eq!(frame[48 + 16 + 2 * k], 0b1111_1111);
        assert_eq!(frame[48 + 16 + 2 * k + 1], 0b1000_0000);
    }
    // Its green channel stays dark.
    assert_eq!(frame[48], 0b1111_1000);
    // Segment 0 is unlit: all zero bits.
    assert_eq!(frame[16], 0b1111_1000);
    assert_eq!(frame[17], 0b0000_0000);
}
