//! Frame layout and the frame validator.
//!
//! A frame on the wire is `[sync][length][type][payload...][checksum]`.
//! The length byte counts every byte after itself up to and including the
//! checksum, so a whole frame occupies `length + 2` bytes. The checksum is
//! the 8-bit CRC of the type byte and the payload.

use vstd::prelude::*;
use crate::checksum::{checksum, crc8};

verus! {

/// Leading byte that marks a plausible frame start.
pub const SYNC_BYTE: u8 = 0xC8;

/// Smallest whole frame: sync, length, type, checksum.
pub const MIN_FRAME_LEN: usize = 4;

/// Largest whole frame the protocol allows.
pub const MAX_FRAME_LEN: usize = 64;

/// Whole-frame size declared by a frame's length byte.
pub open spec fn declared_len(length_field: u8) -> int {
    length_field + 2
}

/// Whether a declared whole-frame size is plausible.
pub open spec fn len_in_range(expected: int) -> bool {
    MIN_FRAME_LEN <= expected <= MAX_FRAME_LEN
}

/// A frame's checksum byte matches the CRC of its type byte and payload.
/// The sync and length bytes, and the checksum byte itself, are not covered.
pub open spec fn frame_valid(f: Seq<u8>) -> bool {
    &&& f.len() >= MIN_FRAME_LEN
    &&& crc8(f.subrange(2, f.len() - 1)) == f[f.len() - 1]
}

/// The frame validator: true exactly when the checksum byte matches the CRC
/// of the type byte and payload.
pub fn validate(frame: &[u8]) -> (r: bool)
    ensures
        r == frame_valid(frame@),
{
    if frame.len() < MIN_FRAME_LEN {
        return false;
    }
    let end = frame.len() - 1;
    let body = copy_range(frame, 2, end);
    let crc_val = checksum(body.as_slice());
    let last = *vstd::slice::slice_index_get(frame, end);
    crc_val == last
}

/// Copies `slice[from..to]` into a fresh vector.
pub fn copy_range(slice: &[u8], from: usize, to: usize) -> (r: Vec<u8>)
    requires
        from <= to <= slice@.len(),
    ensures
        r@ == slice@.subrange(from as int, to as int),
{
    let mut out: Vec<u8> = Vec::new();
    let mut i: usize = from;
    while i < to
        invariant
            from <= i <= to <= slice@.len(),
            out@ =~= slice@.subrange(from as int, i as int),
        decreases to - i,
    {
        out.push(*vstd::slice::slice_index_get(slice, i));
        proof {
            assert(out@ =~= slice@.subrange(from as int, i + 1 as int));
        }
        i = i + 1;
    }
    proof {
        assert(out@ =~= slice@.subrange(from as int, to as int));
    }
    out
}

/// The frame that carries `payload` under type tag `tag`: sync and length
/// bytes, the tag, the payload, and the CRC of tag plus payload.
pub open spec fn encode_spec(tag: u8, payload: Seq<u8>) -> Seq<u8> {
    seq![SYNC_BYTE, (payload.len() + 2) as u8, tag] + payload + seq![
        crc8(seq![tag] + payload),
    ]
}

/// Builds a whole frame around `payload` with a correct checksum.
pub fn encode_frame(tag: u8, payload: &[u8]) -> (r: Vec<u8>)
    requires
        payload@.len() <= MAX_FRAME_LEN - MIN_FRAME_LEN,
    ensures
        r@ == encode_spec(tag, payload@),
        r@.len() == payload@.len() + 4,
{
    let mut body: Vec<u8> = Vec::new();
    body.push(tag);
    let mut i: usize = 0;
    while i < payload.len()
        invariant
            i <= payload@.len(),
            body@ =~= seq![tag] + payload@.subrange(0, i as int),
        decreases payload@.len() - i,
    {
        body.push(*vstd::slice::slice_index_get(payload, i));
        proof {
            assert(body@ =~= seq![tag] + payload@.subrange(0, i + 1 as int));
        }
        i = i + 1;
    }
    proof {
        assert(payload@.subrange(0, payload@.len() as int) =~= payload@);
    }
    let crc = checksum(body.as_slice());
    let mut out: Vec<u8> = Vec::new();
    out.push(SYNC_BYTE);
    out.push((payload.len() + 2) as u8);
    out.append(&mut body);
    out.push(crc);
    proof {
        assert(out@ =~= encode_spec(tag, payload@));
    }
    out
}

/// An encoded frame always passes the validator: its checksum byte is the
/// CRC of exactly the bytes the validator re-checksums.
pub proof fn lemma_encode_valid(tag: u8, payload: Seq<u8>)
    requires
        payload.len() <= MAX_FRAME_LEN - MIN_FRAME_LEN,
    ensures
        frame_valid(encode_spec(tag, payload)),
        encode_spec(tag, payload).len() == payload.len() + 4,
        declared_len(encode_spec(tag, payload)[1]) == payload.len() + 4,
        len_in_range(declared_len(encode_spec(tag, payload)[1])),
        encode_spec(tag, payload)[2] == tag,
{
    let f = encode_spec(tag, payload);
    assert(f.subrange(2, f.len() - 1) =~= seq![tag] + payload);
    assert(f[f.len() - 1] == crc8(seq![tag] + payload));
}

} // verus!
