use uartmatrix::enums::{Animation, Direction, DisplayMode, FontType};
use uartmatrix::frame::{EncodeError, MAX_FRAME_SIZE};
use uartmatrix::interop::{
    animation_from_codes, copy_frame_out, direction_from_code, display_mode_from_code,
    flag_from_code,
};
use uartmatrix::selection::{self, byte_from_field, point_from_fields, row_animation, Font};
use uartmatrix::{serialize_ping, Point};

#[test]
fn codes_map_to_variants() {
    assert_eq!(display_mode_from_code(0), DisplayMode::Text);
    assert_eq!(display_mode_from_code(1), DisplayMode::Direct);
    assert_eq!(display_mode_from_code(-7), DisplayMode::Direct);
    assert_eq!(direction_from_code(0), Direction::Left);
    assert_eq!(direction_from_code(200), Direction::Right);
    assert_eq!(animation_from_codes(0, 5, 1), Animation::NoAnimation);
    assert_eq!(animation_from_codes(1, 5, 1), Animation::BlinkAnimation(5));
    assert_eq!(animation_from_codes(2, 5, 0), Animation::SlideAnimation(5, Direction::Left));
    assert_eq!(animation_from_codes(2, 5, 3), Animation::SlideAnimation(5, Direction::Right));
    assert_eq!(animation_from_codes(9, 5, 1), Animation::NoAnimation);
    assert!(!flag_from_code(0));
    assert!(flag_from_code(2));
}

#[test]
fn copy_out_writes_whole_frame_or_nothing() {
    let mut out = vec![0xAAu8; MAX_FRAME_SIZE + 4];
    let frame = serialize_ping();
    assert_eq!(copy_frame_out(&frame, &mut out), MAX_FRAME_SIZE as i32);
    assert_eq!(&out[0..MAX_FRAME_SIZE], &frame.unwrap()[..]);
    assert_eq!(&out[MAX_FRAME_SIZE..], &[0xAA; 4]);

    let mut out = vec![0x55u8; MAX_FRAME_SIZE];
    assert_eq!(copy_frame_out(&Err(EncodeError::TextTooLong), &mut out), -1);
    assert!(out.iter().all(|b| *b == 0x55));
}

#[test]
fn byte_fields() {
    assert_eq!(byte_from_field("42"), Some(42));
    assert_eq!(byte_from_field("+7"), Some(7));
    assert_eq!(byte_from_field("007"), Some(7));
    assert_eq!(byte_from_field("255"), Some(255));
    assert_eq!(byte_from_field("256"), None);
    assert_eq!(byte_from_field(""), None);
    assert_eq!(byte_from_field("+"), None);
    assert_eq!(byte_from_field("-1"), None);
    assert_eq!(byte_from_field(" 1"), None);
    assert_eq!(byte_from_field("1a"), None);
    assert_eq!(point_from_fields("3", "4"), Some(Point { x: 3, y: 4 }));
    assert_eq!(point_from_fields("3", "x"), None);
}

#[test]
fn row_animations_from_form() {
    assert_eq!(row_animation(selection::Animation::NoAnimation, "", None), Some(Animation::NoAnimation));
    assert_eq!(row_animation(selection::Animation::Blink, "10", None), Some(Animation::BlinkAnimation(6)));
    assert_eq!(row_animation(selection::Animation::Blink, "7", None), Some(Animation::BlinkAnimation(8)));
    assert_eq!(row_animation(selection::Animation::Blink, "100", None), Some(Animation::BlinkAnimation(0)));
    assert_eq!(row_animation(selection::Animation::Blink, "0", None), None);
    assert_eq!(row_animation(selection::Animation::Blink, "fast", None), None);
    assert_eq!(
        row_animation(selection::Animation::Slide, "20", Some(Direction::Right)),
        Some(Animation::SlideAnimation(3, Direction::Right))
    );
    assert_eq!(row_animation(selection::Animation::Slide, "20", None), None);
    assert_eq!(row_animation(selection::Animation::Slide, "0", Some(Direction::Left)), None);
}

#[test]
fn fonts_from_form() {
    assert_eq!(Font::Default.font_type(), FontType::Default);
    assert_eq!(Font::Pro.font_type(), FontType::Pro);
    assert_eq!(Font::Ibm.font_type(), FontType::Ibm);
}
