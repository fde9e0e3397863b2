//! CRC-8 with the CCITT polynomial `x^8 + x^2 + x + 1` (0x07), initial value
//! zero, no reflection and no final xor.
use vstd::prelude::*;

verus! {

/// The generator polynomial, without its leading `x^8` term.
pub const CRC8_POLY: u8 = 0x07;

/// One shift of the register: move out the top bit and, where it was set,
/// fold the polynomial back in.
pub open spec fn crc8_shift(c: u8) -> u8 {
    if c & 0x80 != 0 {
        ((c << 1u8) ^ CRC8_POLY) as u8
    } else {
        (c << 1u8) as u8
    }
}

/// Eight shifts of the register.
pub open spec fn crc8_shifts(c: u8, n: nat) -> u8
    decreases n,
{
    if n == 0 {
        c
    } else {
        crc8_shifts(crc8_shift(c), (n - 1) as nat)
    }
}

/// The register after one more byte has been fed in.
pub open spec fn crc8_step(crc: u8, byte: u8) -> u8 {
    crc8_shifts(crc ^ byte, 8)
}

/// CRC-8/CCITT of a byte sequence, fed in from first to last byte.
pub open spec fn crc8(data: Seq<u8>) -> u8
    decreases data.len(),
{
    if data.len() == 0 {
        0
    } else {
        crc8_step(crc8(data.drop_last()), data.last())
    }
}

fn shift(c: u8) -> (r: u8)
    ensures
        r == crc8_shift(c),
{
    if c & 0x80 != 0 {
        (c << 1u8) ^ CRC8_POLY
    } else {
        c << 1u8
    }
}

/// Computes `crc8` of `data`, one byte and one bit at a time.
pub fn crc8_ccitt(data: &[u8]) -> (r: u8)
    ensures
        r == crc8(data@),
{
    let mut crc: u8 = 0;
    let mut i: usize = 0;
    while i < data.len()
        invariant
            i <= data@.len(),
            crc == crc8(data@.subrange(0, i as int)),
        decreases data@.len() - i,
    {
        let mut c: u8 = crc ^ data[i];
        let mut k: usize = 0;
        while k < 8
            invariant
                k <= 8,
                crc8_shifts(c, (8 - k) as nat) == crc8_step(crc, data@[i as int]),
            decreases 8 - k,
        {
            c = shift(c);
            k = k + 1;
        }
        proof {
            let next = data@.subrange(0, i + 1);
            assert(next.drop_last() =~= data@.subrange(0, i as int));
        }
        crc = c;
        i = i + 1;
    }
    proof {
        assert(data@.subrange(0, data@.len() as int) =~= data@);
    }
    crc
}

} // verus!
