use uartmatrix::crc::crc8_ccitt;
use uartmatrix::enums::{Animation, Direction, DisplayMode, FontType};
use uartmatrix::frame::{decode_frame, serialize_umx_frame, EncodeError, MAX_FRAME_SIZE, MAX_PAYLOAD_SIZE};
use uartmatrix::{
    serialize_clear, serialize_disable_output, serialize_draw_circle, serialize_draw_line,
    serialize_draw_pixel, serialize_draw_rectangle, serialize_draw_row, serialize_draw_triangle,
    serialize_enable_output, serialize_param_request, serialize_ping, serialize_set_animation,
    serialize_set_color, serialize_set_font, serialize_switch_mode, serialize_write_line,
    serialize_write_line_bytes, Frame, Point, RgbColor, MAX_TEXT_LENGTH,
};

fn payload_of(frame: &Frame) -> Vec<u8> {
    decode_frame(frame).expect("frame decodes")
}

fn expected_frame(payload: &[u8]) -> Vec<u8> {
    let mut v = vec![85, 77, 88, (payload.len() / 256) as u8, (payload.len() % 256) as u8];
    v.extend_from_slice(payload);
    v.push(crc8_ccitt(payload));
    v.resize(MAX_FRAME_SIZE, 0);
    v
}

#[test]
fn crc8_reference_values() {
    assert_eq!(crc8_ccitt(&[]), 0);
    assert_eq!(crc8_ccitt(&[27]), 0x41);
    assert_eq!(crc8_ccitt(b"123456789"), 0xF4);
    assert_eq!(crc8_ccitt(&[0]), 0);
}

#[test]
fn single_byte_payload_frame() {
    let frame = serialize_umx_frame(&[27]).unwrap();
    assert_eq!(&frame[0..7], &[85, 77, 88, 0, 1, 27, 0x41]);
    assert!(frame[7..].iter().all(|b| *b == 0));
}

#[test]
fn largest_payload_fits() {
    let payload: Vec<u8> = (0..MAX_PAYLOAD_SIZE).map(|i| (i % 251) as u8).collect();
    let frame = serialize_umx_frame(&payload).unwrap();
    assert_eq!(MAX_PAYLOAD_SIZE, 506);
    assert_eq!(frame[3], 1);
    assert_eq!(frame[4], 250);
    assert_eq!(&frame[5..511], payload.as_slice());
    assert_eq!(frame[511], crc8_ccitt(&payload));
    assert_eq!(payload_of(&frame), payload);
}

#[test]
fn oversized_payload_is_refused() {
    let payload = vec![1u8; MAX_PAYLOAD_SIZE + 1];
    assert_eq!(serialize_umx_frame(&payload), Err(EncodeError::FrameTooLarge));
    let payload = vec![1u8; MAX_FRAME_SIZE];
    assert_eq!(serialize_umx_frame(&payload), Err(EncodeError::FrameTooLarge));
}

#[test]
fn empty_payload_frame() {
    let frame = serialize_umx_frame(&[]).unwrap();
    assert_eq!(&frame[0..6], &[85, 77, 88, 0, 0, 0]);
    assert_eq!(payload_of(&frame), Vec::<u8>::new());
}

#[test]
fn write_line_this_is_a_test() {
    let frame = serialize_write_line(3, "THISISATEST").unwrap();
    assert_eq!(&frame[0..5], &[85, 77, 88, 0, 13]);
    assert_eq!(frame[5], 2);
    assert_eq!(frame[6], 3);
    assert_eq!(std::str::from_utf8(&frame[7..18]).unwrap(), "THISISATEST");
    let mut payload = vec![2u8, 3];
    payload.extend_from_slice(b"THISISATEST");
    assert_eq!(payload_of(&frame), payload);
    assert_eq!(frame[18], 214);
}

#[test]
fn write_line_length_limit() {
    let at_limit = "a".repeat(MAX_TEXT_LENGTH);
    let frame = serialize_write_line(0, &at_limit).unwrap();
    assert_eq!(frame[3], 1);
    assert_eq!(frame[4], 1);
    let over = "a".repeat(MAX_TEXT_LENGTH + 1);
    assert_eq!(serialize_write_line(0, &over), Err(EncodeError::TextTooLong));
}

#[test]
fn write_line_counts_bytes_not_chars() {
    let text = "é".repeat(128);
    assert_eq!(text.len(), 256);
    assert_eq!(serialize_write_line(1, &text), Err(EncodeError::TextTooLong));
    let frame = serialize_write_line(1, "é").unwrap();
    assert_eq!(payload_of(&frame), vec![2, 1, 0xC3, 0xA9]);
}

#[test]
fn write_line_bytes_checks_utf8() {
    assert_eq!(serialize_write_line_bytes(0, &[0xFF, 0x41]), Err(EncodeError::InvalidText));
    assert_eq!(serialize_write_line_bytes(0, &[0xC3]), Err(EncodeError::InvalidText));
    assert_eq!(serialize_write_line_bytes(0, &[0xED, 0xA0, 0x80]), Err(EncodeError::InvalidText));
    let frame = serialize_write_line_bytes(2, &[0xC3, 0xA9, b'x']).unwrap();
    assert_eq!(payload_of(&frame), vec![2, 2, 0xC3, 0xA9, b'x']);
    assert_eq!(serialize_write_line_bytes(0, &[0xFF; 256]), Err(EncodeError::TextTooLong));
    assert_eq!(serialize_write_line_bytes(0, &[b'a'; 256]), Err(EncodeError::TextTooLong));
}

#[test]
fn slide_animation_bytes() {
    assert_eq!(Animation::SlideAnimation(10, Direction::Right).to_bytes(), vec![2, 10, 1]);
    assert_eq!(Animation::SlideAnimation(7, Direction::Left).to_bytes(), vec![2, 7, 0]);
    assert_eq!(Animation::BlinkAnimation(9).to_bytes(), vec![1, 9]);
    assert_eq!(Animation::NoAnimation.to_bytes(), vec![0]);
}

#[test]
fn enum_codes_are_stable() {
    for _ in 0..2 {
        assert_eq!(DisplayMode::Direct.to_byte(), 1);
        assert_eq!(FontType::Ibm.to_byte(), 2);
        let _ = serialize_switch_mode(DisplayMode::Text);
        let _ = serialize_set_font(0, FontType::Pro.to_byte());
    }
    assert_eq!(DisplayMode::Text.to_byte(), 0);
    assert_eq!(FontType::Default.to_byte(), 0);
    assert_eq!(FontType::Pro.to_byte(), 1);
    let m: u8 = DisplayMode::Direct.into();
    assert_eq!(m, 1);
    let f: u8 = FontType::Ibm.into();
    assert_eq!(f, 2);
    assert_eq!(Direction::Left.to_byte(), 0);
    assert_eq!(Direction::Right.to_byte(), 1);
}

#[test]
fn fixed_commands() {
    assert_eq!(payload_of(&serialize_param_request().unwrap()), vec![0]);
    assert_eq!(payload_of(&serialize_clear().unwrap()), vec![12]);
    assert_eq!(payload_of(&serialize_enable_output().unwrap()), vec![9]);
    assert_eq!(payload_of(&serialize_disable_output().unwrap()), vec![10]);
    assert_eq!(payload_of(&serialize_ping().unwrap()), vec![11]);
    assert_eq!(serialize_clear().unwrap().to_vec(), expected_frame(&[12]));
}

#[test]
fn argument_commands() {
    let color = RgbColor { r: 10, g: 20, b: 30 };
    let first = Point { x: 1, y: 2 };
    let second = Point { x: 3, y: 4 };
    let third = Point { x: 5, y: 6 };
    assert_eq!(payload_of(&serialize_switch_mode(DisplayMode::Direct).unwrap()), vec![1, 1]);
    assert_eq!(payload_of(&serialize_set_font(2, 1).unwrap()), vec![3, 2, 1]);
    assert_eq!(payload_of(&serialize_set_color(1, color).unwrap()), vec![4, 1, 10, 20, 30]);
    assert_eq!(
        payload_of(&serialize_set_animation(3, Animation::SlideAnimation(10, Direction::Right)).unwrap()),
        vec![5, 3, 2, 10, 1]
    );
    assert_eq!(
        payload_of(&serialize_set_animation(0, Animation::BlinkAnimation(4)).unwrap()),
        vec![5, 0, 1, 4]
    );
    assert_eq!(payload_of(&serialize_draw_pixel(first, color).unwrap()), vec![6, 1, 2, 10, 20, 30]);
    assert_eq!(
        payload_of(&serialize_draw_line(first, second, 2, color).unwrap()),
        vec![8, 1, 2, 3, 4, 2, 10, 20, 30]
    );
    assert_eq!(
        payload_of(&serialize_draw_rectangle(first, second, 1, color, true).unwrap()),
        vec![9, 1, 2, 3, 4, 1, 10, 20, 30, 1]
    );
    assert_eq!(
        payload_of(&serialize_draw_rectangle(first, second, 1, color, false).unwrap()),
        vec![9, 1, 2, 3, 4, 1, 10, 20, 30, 0]
    );
    assert_eq!(
        payload_of(&serialize_draw_triangle(first, second, third, 3, color, true).unwrap()),
        vec![10, 1, 2, 3, 4, 5, 6, 3, 10, 20, 30, 1]
    );
    assert_eq!(
        payload_of(&serialize_draw_circle(third, 7, 1, color, false).unwrap()),
        vec![11, 5, 6, 7, 1, 10, 20, 30, 0]
    );
    let frame = serialize_draw_circle(third, 7, 1, color, false).unwrap();
    assert_eq!(frame.to_vec(), expected_frame(&[11, 5, 6, 7, 1, 10, 20, 30, 0]));
}

#[test]
fn draw_row_layout_and_limit() {
    let frame = serialize_draw_row(4, vec![(1, 2, 3), (4, 5, 6)]).unwrap();
    assert_eq!(payload_of(&frame), vec![7, 4, 1, 2, 3, 4, 5, 6]);
    let empty = serialize_draw_row(0, vec![]).unwrap();
    assert_eq!(payload_of(&empty), vec![7, 0]);
    let full = serialize_draw_row(0, vec![(9, 9, 9); 168]).unwrap();
    assert_eq!(full[3] as usize * 256 + full[4] as usize, 2 + 3 * 168);
    assert_eq!(serialize_draw_row(0, vec![(9, 9, 9); 169]), Err(EncodeError::FrameTooLarge));
}

#[test]
fn decode_rejects_damaged_frames() {
    let mut frame = serialize_set_font(1, 2).unwrap();
    frame[8] ^= 0x01;
    assert_eq!(decode_frame(&frame), None);
    let mut frame = serialize_set_font(1, 2).unwrap();
    frame[0] = b'V';
    assert_eq!(decode_frame(&frame), None);
    let frame = serialize_set_font(1, 2).unwrap();
    assert_eq!(decode_frame(&frame[0..8]), None);
    assert_eq!(decode_frame(&frame[0..9]), Some(vec![3, 1, 2]));
}

#[test]
fn default_color_is_mid_gray() {
    assert_eq!(RgbColor::new(), RgbColor { r: 128, g: 128, b: 128 });
    assert_eq!(RgbColor::default(), RgbColor { r: 128, g: 128, b: 128 });
}
