//! What a C caller hands over, as plain integers, turned into the encoders'
//! argument types, and an encoder's result copied out into the caller's
//! buffer. An unknown code never fails: it falls back to a fixed variant.
use vstd::prelude::*;

use crate::enums::{Animation, Direction, DisplayMode};
use crate::frame::{EncodeError, MAX_FRAME_SIZE};

verus! {

/// `0` is text mode; any other code is direct mode.
pub fn display_mode_from_code(code: i32) -> (m: DisplayMode)
    ensures
        m == (if code == 0 {
            DisplayMode::Text
        } else {
            DisplayMode::Direct
        }),
{
    if code == 0 {
        DisplayMode::Text
    } else {
        DisplayMode::Direct
    }
}

/// `0` is left; any other code is right.
pub fn direction_from_code(code: u8) -> (d: Direction)
    ensures
        d == (if code == 0 {
            Direction::Left
        } else {
            Direction::Right
        }),
{
    if code == 0 {
        Direction::Left
    } else {
        Direction::Right
    }
}

/// Tag `1` blinks and tag `2` slides, with the given speed; any other tag is
/// no animation. The direction code counts for a slide only.
pub fn animation_from_codes(tag: u8, speed: u8, direction: u8) -> (a: Animation)
    ensures
        a == (if tag == 1 {
            Animation::BlinkAnimation(speed)
        } else if tag == 2 {
            Animation::SlideAnimation(
                speed,
                if direction == 0 {
                    Direction::Left
                } else {
                    Direction::Right
                },
            )
        } else {
            Animation::NoAnimation
        }),
{
    if tag == 1 {
        Animation::BlinkAnimation(speed)
    } else if tag == 2 {
        Animation::SlideAnimation(speed, direction_from_code(direction))
    } else {
        Animation::NoAnimation
    }
}

/// `0` is false; any other code is true.
pub fn flag_from_code(code: i32) -> (b: bool)
    ensures
        b == (code != 0),
{
    code != 0
}

/// Copies a frame buffer into the front of `out` and returns how many bytes
/// were written; on an error returns `-1` and leaves `out` as it was.
pub fn copy_frame_out(result: &Result<[u8; MAX_FRAME_SIZE], EncodeError>, out: &mut [u8]) -> (n:
    i32)
    requires
        old(out)@.len() >= MAX_FRAME_SIZE,
    ensures
        final(out)@.len() == old(out)@.len(),
        result is Err ==> n == -1 && final(out)@ == old(out)@,
        result is Ok ==> n == MAX_FRAME_SIZE && final(out)@.subrange(0, MAX_FRAME_SIZE as int)
            == result->Ok_0@ && final(out)@.subrange(MAX_FRAME_SIZE as int, old(out)@.len() as int)
            == old(out)@.subrange(MAX_FRAME_SIZE as int, old(out)@.len() as int),
{
    match result {
        Ok(frame) => {
            let mut i: usize = 0;
            while i < MAX_FRAME_SIZE
                invariant
                    i <= MAX_FRAME_SIZE,
                    out@.len() == old(out)@.len(),
                    old(out)@.len() >= MAX_FRAME_SIZE,
                    frame@.len() == MAX_FRAME_SIZE,
                    forall|j: int| 0 <= j < i ==> out@[j] == frame@[j],
                    forall|j: int| i <= j < out@.len() ==> out@[j] == old(out)@[j],
                decreases MAX_FRAME_SIZE - i,
            {
                out[i] = frame[i];
                i = i + 1;
            }
            proof {
                assert(out@.subrange(0, MAX_FRAME_SIZE as int) =~= frame@);
                assert(out@.subrange(MAX_FRAME_SIZE as int, out@.len() as int) =~= old(
                    out,
                )@.subrange(MAX_FRAME_SIZE as int, old(out)@.len() as int));
            }
            MAX_FRAME_SIZE as i32
        },
        Err(_) => -1,
    }
}

} // verus!
