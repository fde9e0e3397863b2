//! What an operator picks or types into a form, turned into command
//! arguments. A field that does not hold a valid value gives no command.
use vstd::prelude::*;

use crate::enums;
use crate::enums::{Direction, FontType};
use crate::Point;

verus! {

/// The animation picked for a text row.
#[derive(Clone, Copy, Debug, PartialEq, Eq, Structural)]
pub enum Animation {
    NoAnimation,
    Slide,
    Blink,
}

/// The font picked for a text row.
#[derive(Clone, Copy, Debug, PartialEq, Eq, Structural)]
pub enum Font {
    Default,
    Pro,
    Ibm,
}

impl Font {
    pub open spec fn spec_font_type(self) -> FontType {
        match self {
            Font::Default => FontType::Default,
            Font::Pro => FontType::Pro,
            Font::Ibm => FontType::Ibm,
        }
    }

    /// The font that the display knows under this choice.
    pub fn font_type(self) -> (f: FontType)
        ensures
            f == self.spec_font_type(),
    {
        match self {
            Font::Default => FontType::Default,
            Font::Pro => FontType::Pro,
            Font::Ibm => FontType::Ibm,
        }
    }
}

pub open spec fn is_decimal_digit(c: char) -> bool {
    '0' <= c && c <= '9'
}

/// The number that a string of decimal digits spells.
pub open spec fn digits_value(s: Seq<char>) -> nat
    decreases s.len(),
{
    if s.len() == 0 {
        0
    } else {
        digits_value(s.drop_last()) * 10 + (s.last() as nat - '0' as nat) as nat
    }
}

/// A byte written in decimal: an optional `+`, then one or more digits whose
/// value is at most 255. Leading zeros are allowed; nothing else is.
pub open spec fn decimal_byte(s: Seq<char>) -> Option<u8> {
    let digits = if s.len() > 0 && s[0] == '+' {
        s.drop_first()
    } else {
        s
    };
    if digits.len() > 0 && (forall|i: int| 0 <= i < digits.len() ==> is_decimal_digit(digits[i]))
        && digits_value(digits) <= 255 {
        Some(digits_value(digits) as u8)
    } else {
        None
    }
}

/// Relies on `u8`'s `FromStr`: it accepts an optional `+` followed by decimal
/// digits only, and fails where the value does not fit in a byte.
#[verifier::external_body]
fn parse_u8(s: &str) -> (r: Option<u8>)
    ensures
        r == decimal_byte(s@),
{
    s.parse::<u8>().ok()
}

/// The byte typed into a form field, if the field holds one.
pub fn byte_from_field(text: &str) -> (r: Option<u8>)
    ensures
        r == decimal_byte(text@),
{
    parse_u8(text)
}

/// The point typed into two form fields, if both hold a byte.
pub fn point_from_fields(x: &str, y: &str) -> (r: Option<Point>)
    ensures
        r == (if decimal_byte(x@) is Some && decimal_byte(y@) is Some {
            Some(Point { x: decimal_byte(x@)->Some_0, y: decimal_byte(y@)->Some_0 })
        } else {
            None::<Point>
        }),
{
    match (parse_u8(x), parse_u8(y)) {
        (Some(x), Some(y)) => Some(Point { x, y }),
        _ => None,
    }
}

/// The form asks for a speed; the display takes a period, the time of one
/// step in sixtieths: `60 / speed`. A speed of zero has no period.
pub open spec fn speed_period(speed: u8) -> Option<u8> {
    if speed == 0 {
        None
    } else {
        Some(60u8 / speed)
    }
}

/// The animation to send for a row: none, or a blink or slide at the period
/// of the typed speed. A blink or slide whose speed field does not hold a
/// non-zero byte, or a slide without a direction, gives nothing to send.
pub fn row_animation(kind: Animation, speed: &str, direction: Option<Direction>) -> (r: Option<
    enums::Animation,
>)
    ensures
        r == (match kind {
            Animation::NoAnimation => Some(enums::Animation::NoAnimation),
            Animation::Blink => match decimal_byte(speed@) {
                Some(s) => match speed_period(s) {
                    Some(p) => Some(enums::Animation::BlinkAnimation(p)),
                    None => None,
                },
                None => None,
            },
            Animation::Slide => match (decimal_byte(speed@), direction) {
                (Some(s), Some(d)) => match speed_period(s) {
                    Some(p) => Some(enums::Animation::SlideAnimation(p, d)),
                    None => None,
                },
                _ => None,
            },
        }),
{
    match kind {
        Animation::NoAnimation => Some(enums::Animation::NoAnimation),
        Animation::Blink => match parse_u8(speed) {
            Some(s) if s != 0 => Some(enums::Animation::BlinkAnimation(60 / s)),
            _ => None,
        },
        Animation::Slide => match (parse_u8(speed), direction) {
            (Some(s), Some(d)) if s != 0 => Some(enums::Animation::SlideAnimation(60 / s, d)),
            _ => None,
        },
    }
}

} // verus!
