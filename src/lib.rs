//! Encoder for the serial protocol of an LED-matrix display controller.
//!
//! Each `serialize_*` function builds the payload of one command (its id
//! byte, then its arguments) and wraps it in a frame (see `frame`), which the
//! caller writes to the serial link as it is.
use vstd::prelude::*;

pub mod crc;
pub mod enums;
pub mod frame;
pub mod interop;
pub mod selection;

use crate::enums::{Animation, DisplayMode};
use crate::frame::{frames, serialize_umx_frame, EncodeError, MAX_FRAME_SIZE, MAX_PAYLOAD_SIZE};
use vstd::string::StringSliceAdditionalSpecFns;
use vstd::utf8::valid_utf8;

verus! {

/// The longest row text, in bytes.
pub const MAX_TEXT_LENGTH: usize = 255;

/// A frame buffer, as the encoders hand it out.
pub type Frame = [u8; MAX_FRAME_SIZE];

pub const CMD_PARAM_REQUEST: u8 = 0;
pub const CMD_SWITCH_MODE: u8 = 1;
pub const CMD_WRITE_LINE: u8 = 2;
pub const CMD_SET_FONT: u8 = 3;
pub const CMD_SET_COLOR: u8 = 4;
pub const CMD_SET_ANIMATION: u8 = 5;
pub const CMD_DRAW_PIXEL: u8 = 6;
pub const CMD_DRAW_ROW: u8 = 7;
pub const CMD_DRAW_LINE: u8 = 8;
pub const CMD_DRAW_RECTANGLE: u8 = 9;
pub const CMD_DRAW_TRIANGLE: u8 = 10;
pub const CMD_DRAW_CIRCLE: u8 = 11;
pub const CMD_CLEAR: u8 = 12;

/// The output commands and the ping have no id of their own in the protocol
/// as documented; these are the ids the existing firmware pairing used. They
/// coincide with the drawing commands above, so confirm them against the
/// target firmware before relying on them.
pub const CMD_ENABLE_OUTPUT: u8 = 9;
pub const CMD_DISABLE_OUTPUT: u8 = 10;
pub const CMD_PING: u8 = 11;

/// A position on the matrix.
#[derive(Clone, Copy, Debug, PartialEq, Eq, Structural)]
pub struct Point {
    pub x: u8,
    pub y: u8,
}

/// A colour, one byte per channel.
#[derive(Clone, Copy, Debug, PartialEq, Eq, Structural)]
pub struct RgbColor {
    pub r: u8,
    pub g: u8,
    pub b: u8,
}

impl RgbColor {
    /// Mid-gray, the colour rows start with.
    pub fn new() -> (c: RgbColor)
        ensures
            c == (RgbColor { r: 128, g: 128, b: 128 }),
    {
        RgbColor { r: 128, g: 128, b: 128 }
    }
}

impl Default for RgbColor {
    fn default() -> (c: RgbColor)
        ensures
            c == (RgbColor { r: 128, g: 128, b: 128 }),
    {
        RgbColor::new()
    }
}

/// The byte that stands for a fill flag.
pub open spec fn flag_byte(filled: bool) -> u8 {
    if filled {
        1
    } else {
        0
    }
}

fn filled_byte(filled: bool) -> (r: u8)
    ensures
        r == flag_byte(filled),
{
    if filled {
        1
    } else {
        0
    }
}

/// The pixels of a row, three bytes each, in order.
pub open spec fn pixel_bytes(pixels: Seq<(u8, u8, u8)>) -> Seq<u8>
    decreases pixels.len(),
{
    if pixels.len() == 0 {
        Seq::empty()
    } else {
        let p = pixels.last();
        pixel_bytes(pixels.drop_last()) + seq![p.0, p.1, p.2]
    }
}

/// Each pixel takes three bytes.
pub proof fn lemma_pixel_bytes_len(pixels: Seq<(u8, u8, u8)>)
    ensures
        pixel_bytes(pixels).len() == 3 * pixels.len(),
    decreases pixels.len(),
{
    if pixels.len() > 0 {
        lemma_pixel_bytes_len(pixels.drop_last());
    }
}

/// The frame of a command that takes no arguments.
fn serialize_command_only(id: u8) -> (r: Result<Frame, EncodeError>)
    ensures
        r is Ok && frames(r, seq![id]),
{
    let data = [id];
    proof {
        assert(data@ =~= seq![id]);
    }
    serialize_umx_frame(&data)
}

/// Asks the display for its parameters.
pub fn serialize_param_request() -> (r: Result<Frame, EncodeError>)
    ensures
        r is Ok && frames(r, seq![CMD_PARAM_REQUEST]),
{
    serialize_command_only(CMD_PARAM_REQUEST)
}

/// Switches the display between text and direct drawing.
pub fn serialize_switch_mode(mode: DisplayMode) -> (r: Result<Frame, EncodeError>)
    ensures
        r is Ok && frames(r, seq![CMD_SWITCH_MODE, mode.spec_byte()]),
{
    serialize_umx_frame(&[CMD_SWITCH_MODE, mode.to_byte()])
}

/// The payload of a text row, from text bytes of at most `MAX_TEXT_LENGTH`.
fn serialize_text_bytes(row: u8, text: &[u8]) -> (r: Result<Frame, EncodeError>)
    requires
        text@.len() <= MAX_TEXT_LENGTH,
    ensures
        frames(r, seq![CMD_WRITE_LINE, row] + text@),
{
    let mut data: Vec<u8> = vec![CMD_WRITE_LINE, row];
    let mut i: usize = 0;
    while i < text.len()
        invariant
            i <= text@.len(),
            data@ == seq![CMD_WRITE_LINE, row] + text@.subrange(0, i as int),
        decreases text@.len() - i,
    {
        data.push(text[i]);
        proof {
            assert(data@ =~= seq![CMD_WRITE_LINE, row] + text@.subrange(0, i + 1));
        }
        i = i + 1;
    }
    proof {
        assert(text@.subrange(0, text@.len() as int) =~= text@);
    }
    serialize_umx_frame(data.as_slice())
}

/// Sets the text of a row: the row, then the text's UTF-8 bytes.
///
/// Fails with `TextTooLong` where the text has more than `MAX_TEXT_LENGTH`
/// bytes; any shorter text fits in a frame.
pub fn serialize_write_line(row: u8, text: &str) -> (r: Result<Frame, EncodeError>)
    ensures
        text.spec_bytes().len() > MAX_TEXT_LENGTH ==> r == Err::<Frame, EncodeError>(
            EncodeError::TextTooLong,
        ),
        text.spec_bytes().len() <= MAX_TEXT_LENGTH ==> r is Ok && frames(
            r,
            seq![CMD_WRITE_LINE, row] + text.spec_bytes(),
        ),
{
    let bytes = text.as_bytes();
    if bytes.len() > MAX_TEXT_LENGTH {
        return Err(EncodeError::TextTooLong);
    }
    serialize_text_bytes(row, bytes)
}

/// Relies on `std::str::from_utf8`: it accepts a byte slice exactly when the
/// bytes are well-formed UTF-8.
#[verifier::external_body]
fn is_utf8(bytes: &[u8]) -> (r: bool)
    ensures
        r == valid_utf8(bytes@),
{
    std::str::from_utf8(bytes).is_ok()
}

/// Sets the text of a row from raw bytes, as they come from a caller that
/// does not hold a `str`.
///
/// Fails with `TextTooLong` where there are more than `MAX_TEXT_LENGTH` bytes,
/// else with `InvalidText` where they are not UTF-8.
pub fn serialize_write_line_bytes(row: u8, text: &[u8]) -> (r: Result<Frame, EncodeError>)
    ensures
        text@.len() > MAX_TEXT_LENGTH ==> r == Err::<Frame, EncodeError>(
            EncodeError::TextTooLong,
        ),
        text@.len() <= MAX_TEXT_LENGTH && !valid_utf8(text@) ==> r == Err::<Frame, EncodeError>(
            EncodeError::InvalidText,
        ),
        text@.len() <= MAX_TEXT_LENGTH && valid_utf8(text@) ==> r is Ok && frames(
            r,
            seq![CMD_WRITE_LINE, row] + text@,
        ),
{
    if text.len() > MAX_TEXT_LENGTH {
        return Err(EncodeError::TextTooLong);
    }
    if !is_utf8(text) {
        return Err(EncodeError::InvalidText);
    }
    serialize_text_bytes(row, text)
}

/// Sets the font of a row.
pub fn serialize_set_font(row: u8, font: u8) -> (r: Result<Frame, EncodeError>)
    ensures
        r is Ok && frames(r, seq![CMD_SET_FONT, row, font]),
{
    serialize_umx_frame(&[CMD_SET_FONT, row, font])
}

/// Sets the colour of a row.
pub fn serialize_set_color(row: u8, color: RgbColor) -> (r: Result<Frame, EncodeError>)
    ensures
        r is Ok && frames(r, seq![CMD_SET_COLOR, row, color.r, color.g, color.b]),
{
    let RgbColor { r, g, b } = color;
    serialize_umx_frame(&[CMD_SET_COLOR, row, r, g, b])
}

/// Sets the animation of a row: the row, then the animation's bytes.
pub fn serialize_set_animation(row: u8, animation: Animation) -> (r: Result<Frame, EncodeError>)
    ensures
        r is Ok && frames(r, seq![CMD_SET_ANIMATION, row] + animation.spec_bytes()),
{
    let mut anim_data = animation.to_bytes();
    let mut data: Vec<u8> = vec![CMD_SET_ANIMATION, row];
    data.append(&mut anim_data);
    serialize_umx_frame(data.as_slice())
}

/// Draws one pixel.
pub fn serialize_draw_pixel(position: Point, color: RgbColor) -> (r: Result<Frame, EncodeError>)
    ensures
        r is Ok && frames(r, seq![CMD_DRAW_PIXEL, position.x, position.y, color.r, color.g, color.b]),
{
    let Point { x, y } = position;
    let RgbColor { r, g, b } = color;
    serialize_umx_frame(&[CMD_DRAW_PIXEL, x, y, r, g, b])
}

/// Draws a line between two points.
pub fn serialize_draw_line(point_1: Point, point_2: Point, thickness: u8, color: RgbColor) -> (r:
    Result<Frame, EncodeError>)
    ensures
        r is Ok && frames(
            r,
            seq![
                CMD_DRAW_LINE,
                point_1.x,
                point_1.y,
                point_2.x,
                point_2.y,
                thickness,
                color.r,
                color.g,
                color.b,
            ],
        ),
{
    let Point { x: x_1, y: y_1 } = point_1;
    let Point { x: x_2, y: y_2 } = point_2;
    let RgbColor { r, g, b } = color;
    serialize_umx_frame(&[CMD_DRAW_LINE, x_1, y_1, x_2, y_2, thickness, r, g, b])
}

/// Draws a rectangle between two opposite corners, outlined or filled.
pub fn serialize_draw_rectangle(
    point_1: Point,
    point_2: Point,
    thickness: u8,
    color: RgbColor,
    filled: bool,
) -> (r: Result<Frame, EncodeError>)
    ensures
        r is Ok && frames(
            r,
            seq![
                CMD_DRAW_RECTANGLE,
                point_1.x,
                point_1.y,
                point_2.x,
                point_2.y,
                thickness,
                color.r,
                color.g,
                color.b,
                flag_byte(filled),
            ],
        ),
{
    let Point { x: x_1, y: y_1 } = point_1;
    let Point { x: x_2, y: y_2 } = point_2;
    let RgbColor { r, g, b } = color;
    let filled = filled_byte(filled);
    serialize_umx_frame(&[CMD_DRAW_RECTANGLE, x_1, y_1, x_2, y_2, thickness, r, g, b, filled])
}

/// Draws a triangle through three points, outlined or filled.
pub fn serialize_draw_triangle(
    point_1: Point,
    point_2: Point,
    point_3: Point,
    thickness: u8,
    color: RgbColor,
    filled: bool,
) -> (r: Result<Frame, EncodeError>)
    ensures
        r is Ok && frames(
            r,
            seq![
                CMD_DRAW_TRIANGLE,
                point_1.x,
                point_1.y,
                point_2.x,
                point_2.y,
                point_3.x,
                point_3.y,
                thickness,
                color.r,
                color.g,
                color.b,
                flag_byte(filled),
            ],
        ),
{
    let Point { x: x_1, y: y_1 } = point_1;
    let Point { x: x_2, y: y_2 } = point_2;
    let Point { x: x_3, y: y_3 } = point_3;
    let RgbColor { r, g, b } = color;
    let filled = filled_byte(filled);
    serialize_umx_frame(
        &[CMD_DRAW_TRIANGLE, x_1, y_1, x_2, y_2, x_3, y_3, thickness, r, g, b, filled],
    )
}

/// Draws a circle around a centre, outlined or filled.
pub fn serialize_draw_circle(
    center: Point,
    radius: u8,
    thickness: u8,
    color: RgbColor,
    filled: bool,
) -> (r: Result<Frame, EncodeError>)
    ensures
        r is Ok && frames(
            r,
            seq![
                CMD_DRAW_CIRCLE,
                center.x,
                center.y,
                radius,
                thickness,
                color.r,
                color.g,
                color.b,
                flag_byte(filled),
            ],
        ),
{
    let Point { x, y } = center;
    let RgbColor { r, g, b } = color;
    let filled = filled_byte(filled);
    serialize_umx_frame(&[CMD_DRAW_CIRCLE, x, y, radius, thickness, r, g, b, filled])
}

/// Draws a row of pixels, three bytes each, from the left edge.
///
/// Fails with `FrameTooLarge` where the pixels do not fit in one frame.
pub fn serialize_draw_row(row: u8, pixels: Vec<(u8, u8, u8)>) -> (r: Result<Frame, EncodeError>)
    ensures
        frames(r, seq![CMD_DRAW_ROW, row] + pixel_bytes(pixels@)),
        r is Ok <==> 2 + 3 * pixels@.len() <= MAX_PAYLOAD_SIZE,
{
    proof {
        lemma_pixel_bytes_len(pixels@);
    }
    let mut data: Vec<u8> = vec![CMD_DRAW_ROW, row];
    let mut i: usize = 0;
    while i < pixels.len()
        invariant
            i <= pixels@.len(),
            data@ == seq![CMD_DRAW_ROW, row] + pixel_bytes(pixels@.subrange(0, i as int)),
        decreases pixels@.len() - i,
    {
        let pixel = pixels[i];
        data.push(pixel.0);
        data.push(pixel.1);
        data.push(pixel.2);
        proof {
            let next = pixels@.subrange(0, i + 1);
            assert(next.drop_last() =~= pixels@.subrange(0, i as int));
            assert(data@ =~= seq![CMD_DRAW_ROW, row] + pixel_bytes(next));
        }
        i = i + 1;
    }
    proof {
        assert(pixels@.subrange(0, pixels@.len() as int) =~= pixels@);
    }
    serialize_umx_frame(data.as_slice())
}

/// Clears the screen.
pub fn serialize_clear() -> (r: Result<Frame, EncodeError>)
    ensures
        r is Ok && frames(r, seq![CMD_CLEAR]),
{
    serialize_command_only(CMD_CLEAR)
}

/// Switches the matrix output on.
pub fn serialize_enable_output() -> (r: Result<Frame, EncodeError>)
    ensures
        r is Ok && frames(r, seq![CMD_ENABLE_OUTPUT]),
{
    serialize_command_only(CMD_ENABLE_OUTPUT)
}

/// Switches the matrix output off.
pub fn serialize_disable_output() -> (r: Result<Frame, EncodeError>)
    ensures
        r is Ok && frames(r, seq![CMD_DISABLE_OUTPUT]),
{
    serialize_command_only(CMD_DISABLE_OUTPUT)
}

/// Checks that the display answers.
pub fn serialize_ping() -> (r: Result<Frame, EncodeError>)
    ensures
        r is Ok && frames(r, seq![CMD_PING]),
{
    serialize_command_only(CMD_PING)
}

} // verus!
