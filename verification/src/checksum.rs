//! The checksum engine: an 8-bit CRC with polynomial 0xD5 (the DVB-S2
//! variant), seed 0, processed most-significant bit first.

use vstd::prelude::*;

verus! {

/// One shift step of the CRC: shift left by one, folding in the polynomial
/// when the high bit was set before the shift.
pub open spec fn crc8_shift(x: u8) -> u8 {
    if x & 0x80 != 0 {
        (x << 1) ^ 0xD5
    } else {
        x << 1
    }
}

/// `crc8_shift` applied `n` times to `x`.
pub open spec fn crc8_shift_n(x: u8, n: nat) -> u8
    decreases n,
{
    if n == 0 {
        x
    } else {
        crc8_shift(crc8_shift_n(x, (n - 1) as nat))
    }
}

/// Folding one byte into the running value: XOR it in, then shift eight
/// times.
pub open spec fn crc8_step(acc: u8, byte: u8) -> u8 {
    crc8_shift_n(acc ^ byte, 8)
}

/// The running value after processing all of `bytes`, starting from `acc`.
pub open spec fn crc8_from(acc: u8, bytes: Seq<u8>) -> u8
    decreases bytes.len(),
{
    if bytes.len() == 0 {
        acc
    } else {
        crc8_from(crc8_step(acc, bytes[0]), bytes.subrange(1, bytes.len() as int))
    }
}

/// The checksum of a byte sequence: seed 0, every byte folded in from the
/// front.
pub open spec fn crc8(bytes: Seq<u8>) -> u8 {
    crc8_from(0, bytes)
}

/// Computes the 8-bit CRC of `data`. Pure and total: every byte sequence has
/// exactly one checksum, so the function is deterministic by construction.
pub fn checksum(data: &[u8]) -> (r: u8)
    ensures
        r == crc8(data@),
{
    let mut crc: u8 = 0;
    let mut i: usize = 0;
    proof {
        assert(data@.subrange(0, data@.len() as int) =~= data@);
    }
    while i < data.len()
        invariant
            i <= data@.len(),
            crc8_from(crc, data@.subrange(i as int, data@.len() as int)) == crc8(data@),
        decreases data@.len() - i,
    {
        let mut cur: u8 = crc ^ data[i];
        let mut j: usize = 0;
        while j < 8
            invariant
                j <= 8,
                cur == crc8_shift_n(crc ^ data@[i as int], j as nat),
        decreases 8 - j,
        {
            if cur & 0x80 != 0 {
                cur = (cur << 1) ^ 0xD5;
            } else {
                cur = cur << 1;
            }
            j = j + 1;
        }
        proof {
            assert(cur == crc8_step(crc, data@[i as int]));
            assert(data@.subrange(i as int, data@.len() as int)[0] == data@[i as int]);
            assert(data@.subrange(i as int, data@.len() as int).subrange(
                1,
                data@.subrange(i as int, data@.len() as int).len() as int,
            ) =~= data@.subrange(i as int + 1, data@.len() as int));
        }
        crc = cur;
        i = i + 1;
    }
    proof {
        assert(data@.subrange(data@.len() as int, data@.len() as int) =~= Seq::<u8>::empty());
    }
    crc
}

} // verus!
