//! CRC-16 of the Dynamixel 2.0 wire protocol: polynomial 0x8005,
//! initial value 0x0000, no reflection, no final XOR, MSB-first.
//! The checksum covers every byte of a frame before the two trailing
//! CRC bytes and is appended to the wire little-endian.
use vstd::prelude::*;

verus! {

/// One shift step of the MSB-first CRC: shift left and, when the top
/// bit falls out, fold the polynomial back in.
pub open spec fn crc_shift(c: u16) -> u16 {
    if c & 0x8000 != 0 {
        (c << 1) ^ 0x8005
    } else {
        c << 1
    }
}

/// `n` successive shift steps.
pub open spec fn crc_rounds(c: u16, n: nat) -> u16
    decreases n,
{
    if n == 0 {
        c
    } else {
        crc_rounds(crc_shift(c), (n - 1) as nat)
    }
}

/// Accumulator after absorbing one input byte.
pub open spec fn crc_byte(c: u16, b: u8) -> u16 {
    crc_rounds(c ^ ((b as u16) << 8), 8)
}

/// Accumulator after absorbing a whole byte sequence.
pub open spec fn crc_accum(c: u16, s: Seq<u8>) -> u16
    decreases s.len(),
{
    if s.len() == 0 {
        c
    } else {
        crc_accum(crc_byte(c, s[0]), s.skip(1))
    }
}

/// The protocol checksum of a byte sequence.
pub open spec fn crc16(s: Seq<u8>) -> u16 {
    crc_accum(0, s)
}

/// Absorb one byte into the running checksum.
fn crc_update(c: u16, b: u8) -> (r: u16)
    ensures
        r == crc_byte(c, b),
{
    let mut x: u16 = c ^ ((b as u16) << 8);
    let mut k: usize = 0;
    while k < 8
        invariant
            k <= 8,
            crc_byte(c, b) == crc_rounds(x, (8 - k) as nat),
        decreases 8 - k,
    {
        x = if x & 0x8000 != 0 {
            (x << 1) ^ 0x8005
        } else {
            x << 1
        };
        k = k + 1;
    }
    x
}

/// The protocol checksum of `data`.
pub fn calc_crc(data: &[u8]) -> (r: u16)
    ensures
        r == crc16(data@),
{
    let mut c: u16 = 0;
    let mut j: usize = 0;
    proof {
        assert(data@.skip(0) =~= data@);
    }
    while j < data.len()
        invariant
            j <= data@.len(),
            crc16(data@) == crc_accum(c, data@.skip(j as int)),
        decreases data@.len() - j,
    {
        proof {
            assert(data@.skip(j as int).skip(1) =~= data@.skip(j as int + 1));
        }
        c = crc_update(c, data[j]);
        j = j + 1;
    }
    c
}

} // verus!
