//! The wire frame: `"UMX"`, the payload length as a big-endian `u16`, the
//! payload, and the CRC-8 of the payload. Frames are handed out in a buffer of
//! `MAX_FRAME_SIZE` bytes whose unused tail is zero.
use vstd::prelude::*;

use crate::crc::{crc8, crc8_ccitt};

verus! {

/// The capacity of a frame buffer.
pub const MAX_FRAME_SIZE: usize = 512;

/// The magic marker `"UMX"` that opens every frame, one byte at a time.
pub const MAGIC_U: u8 = 85;
pub const MAGIC_M: u8 = 77;
pub const MAGIC_X: u8 = 88;

/// Magic marker, then two length bytes.
pub const HEADER_SIZE: usize = 5;

/// The largest payload whose frame fits in `MAX_FRAME_SIZE`: header and
/// checksum take six bytes. A payload of up to `MAX_FRAME_SIZE` bytes would
/// run past the buffer, so the bound is the tight one.
pub const MAX_PAYLOAD_SIZE: usize = MAX_FRAME_SIZE - HEADER_SIZE - 1;

/// Why no frame was produced.
#[derive(Clone, Copy, Debug, PartialEq, Eq, Structural)]
pub enum EncodeError {
    /// The payload does not fit in a frame buffer.
    FrameTooLarge,
    /// The text of a row is longer than `MAX_TEXT_LENGTH` bytes.
    TextTooLong,
    /// The text of a row is not valid UTF-8.
    InvalidText,
}

/// The magic marker and the big-endian payload length.
pub open spec fn frame_header(len: nat) -> Seq<u8> {
    seq![MAGIC_U, MAGIC_M, MAGIC_X, (len / 256) as u8, (len % 256) as u8]
}

/// The frame of a payload, without the zero tail.
pub open spec fn frame_bytes(payload: Seq<u8>) -> Seq<u8> {
    frame_header(payload.len()) + payload + seq![crc8(payload)]
}

/// The whole frame buffer of a payload: its frame, then zeros up to
/// `MAX_FRAME_SIZE`.
pub open spec fn frame_buffer(payload: Seq<u8>) -> Seq<u8> {
    frame_bytes(payload) + Seq::new(
        (MAX_FRAME_SIZE - payload.len() - HEADER_SIZE - 1) as nat,
        |i: int| 0u8,
    )
}

/// `r` is what framing `payload` must give: its frame buffer where the payload
/// fits, `FrameTooLarge` where it does not.
pub open spec fn frames(r: Result<[u8; MAX_FRAME_SIZE], EncodeError>, payload: Seq<u8>) -> bool {
    if payload.len() <= MAX_PAYLOAD_SIZE {
        r is Ok && r->Ok_0@ == frame_buffer(payload)
    } else {
        r == Err::<[u8; MAX_FRAME_SIZE], EncodeError>(EncodeError::FrameTooLarge)
    }
}

/// What a receiver reads out of a buffer: it checks the magic marker, takes
/// the length field, and rechecks the checksum that follows the payload.
pub open spec fn parse_frame(b: Seq<u8>) -> Option<Seq<u8>> {
    if b.len() >= HEADER_SIZE + 1 && b[0] == MAGIC_U && b[1] == MAGIC_M && b[2] == MAGIC_X {
        let n = b[3] as int * 256 + b[4] as int;
        if HEADER_SIZE + n + 1 <= b.len() && b[HEADER_SIZE + n] == crc8(
            b.subrange(HEADER_SIZE as int, HEADER_SIZE + n),
        ) {
            Some(b.subrange(HEADER_SIZE as int, HEADER_SIZE + n))
        } else {
            None
        }
    } else {
        None
    }
}

/// Wraps `content` in a frame.
///
/// Fails with `FrameTooLarge`, and hands out no buffer, where the frame would
/// not fit in `MAX_FRAME_SIZE` bytes.
pub fn serialize_umx_frame(content: &[u8]) -> (r: Result<[u8; MAX_FRAME_SIZE], EncodeError>)
    ensures
        frames(r, content@),
{
    let len = content.len();
    if len > MAX_PAYLOAD_SIZE {
        return Err(EncodeError::FrameTooLarge);
    }
    let mut buffer = [0u8; MAX_FRAME_SIZE];
    buffer[0] = MAGIC_U;
    buffer[1] = MAGIC_M;
    buffer[2] = MAGIC_X;
    buffer[3] = (len / 256) as u8;
    buffer[4] = (len % 256) as u8;
    let mut i: usize = 0;
    while i < len
        invariant
            len == content@.len(),
            len <= MAX_PAYLOAD_SIZE,
            i <= len,
            buffer@.len() == MAX_FRAME_SIZE,
            buffer@.subrange(0, HEADER_SIZE as int) == frame_header(len as nat),
            forall|j: int| 0 <= j < i ==> buffer@[HEADER_SIZE + j] == content@[j],
            forall|j: int| HEADER_SIZE + i <= j < MAX_FRAME_SIZE ==> buffer@[j] == 0u8,
        decreases len - i,
    {
        buffer[HEADER_SIZE + i] = content[i];
        proof {
            assert(buffer@.subrange(0, HEADER_SIZE as int) =~= frame_header(len as nat));
        }
        i = i + 1;
    }
    buffer[HEADER_SIZE + len] = crc8_ccitt(content);
    proof {
        assert(buffer@ =~= frame_buffer(content@)) by {
            assert(buffer@.subrange(0, HEADER_SIZE as int) =~= frame_header(len as nat));
        }
    }
    Ok(buffer)
}

/// Reads a frame back out of `buffer`, as a receiver does.
pub fn decode_frame(buffer: &[u8]) -> (r: Option<Vec<u8>>)
    ensures
        r is Some <==> parse_frame(buffer@) is Some,
        r is Some ==> r->Some_0@ == parse_frame(buffer@)->Some_0,
{
    if buffer.len() < HEADER_SIZE + 1 || buffer[0] != MAGIC_U || buffer[1] != MAGIC_M || buffer[2] != MAGIC_X {
        return None;
    }
    let n: usize = buffer[3] as usize * 256 + buffer[4] as usize;
    if buffer.len() - HEADER_SIZE - 1 < n {
        return None;
    }
    let mut payload: Vec<u8> = Vec::new();
    let mut i: usize = 0;
    while i < n
        invariant
            i <= n,
            n <= 65535,
            HEADER_SIZE + n + 1 <= buffer@.len(),
            payload@ == buffer@.subrange(HEADER_SIZE as int, HEADER_SIZE + i),
        decreases n - i,
    {
        payload.push(buffer[HEADER_SIZE + i]);
        proof {
            assert(payload@ =~= buffer@.subrange(HEADER_SIZE as int, HEADER_SIZE + i + 1));
        }
        i = i + 1;
    }
    if crc8_ccitt(payload.as_slice()) != buffer[HEADER_SIZE + n] {
        return None;
    }
    Some(payload)
}

/// Where a payload fits, its frame buffer holds the magic marker, the
/// big-endian length, the payload itself, and the CRC-8 of the payload right
/// after it, with zeros to the end.
pub proof fn lemma_frame_layout(payload: Seq<u8>)
    requires
        payload.len() <= MAX_PAYLOAD_SIZE,
    ensures
        frame_buffer(payload).len() == MAX_FRAME_SIZE,
        frame_buffer(payload)[0] == MAGIC_U,
        frame_buffer(payload)[1] == MAGIC_M,
        frame_buffer(payload)[2] == MAGIC_X,
        frame_buffer(payload)[3] as int * 256 + frame_buffer(payload)[4] as int == payload.len(),
        frame_buffer(payload).subrange(HEADER_SIZE as int, HEADER_SIZE + payload.len()) == payload,
        forall|j: int|
            0 <= j < payload.len() ==> #[trigger] frame_buffer(payload)[HEADER_SIZE + j]
                == payload[j],
        frame_buffer(payload)[HEADER_SIZE + payload.len()] == crc8(payload),
        forall|j: int|
            HEADER_SIZE + payload.len() + 1 <= j < MAX_FRAME_SIZE ==> frame_buffer(payload)[j]
                == 0u8,
{
    let b = frame_buffer(payload);
    assert(b.subrange(HEADER_SIZE as int, HEADER_SIZE + payload.len()) =~= payload);
}

/// Framing never loses or reorders a byte: a receiver reads back out of a
/// frame buffer exactly the payload that went in.
pub proof fn lemma_frame_round_trip(payload: Seq<u8>)
    requires
        payload.len() <= MAX_PAYLOAD_SIZE,
    ensures
        parse_frame(frame_buffer(payload)) == Some(payload),
{
    lemma_frame_layout(payload);
}

} // verus!
