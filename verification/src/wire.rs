//! Little-endian byte-level encoding helpers shared by the instruction codec
//! and the persisted record codec.

use vstd::prelude::*;

verus! {

/// The value of eight bytes read as a little-endian 64-bit integer.
pub open spec fn le64_of_bytes(
    b0: u8,
    b1: u8,
    b2: u8,
    b3: u8,
    b4: u8,
    b5: u8,
    b6: u8,
    b7: u8,
) -> u64 {
    (b0 as u64) | ((b1 as u64) << 8) | ((b2 as u64) << 16) | ((b3 as u64) << 24)
        | ((b4 as u64) << 32) | ((b5 as u64) << 40) | ((b6 as u64) << 48) | ((b7 as u64) << 56)
}

/// The little-endian value of the eight bytes of `b` starting at `k`.
pub open spec fn le64_at(b: Seq<u8>, k: int) -> u64 {
    le64_of_bytes(b[k], b[k + 1], b[k + 2], b[k + 3], b[k + 4], b[k + 5], b[k + 6], b[k + 7])
}

/// The eight little-endian bytes of `x`.
pub open spec fn le64_bytes(x: u64) -> Seq<u8> {
    seq![
        (x & 0xff) as u8,
        ((x >> 8) & 0xff) as u8,
        ((x >> 16) & 0xff) as u8,
        ((x >> 24) & 0xff) as u8,
        ((x >> 32) & 0xff) as u8,
        ((x >> 40) & 0xff) as u8,
        ((x >> 48) & 0xff) as u8,
        ((x >> 56) & 0xff) as u8,
    ]
}

/// Reading back the eight little-endian bytes of `x` yields `x`.
pub proof fn lemma_le64_round_trip(x: u64)
    ensures
        le64_of_bytes(
            (x & 0xff) as u8,
            ((x >> 8) & 0xff) as u8,
            ((x >> 16) & 0xff) as u8,
            ((x >> 24) & 0xff) as u8,
            ((x >> 32) & 0xff) as u8,
            ((x >> 40) & 0xff) as u8,
            ((x >> 48) & 0xff) as u8,
            ((x >> 56) & 0xff) as u8,
        ) == x,
{
    assert((((x & 0xff) as u8) as u64) | ((((x >> 8) & 0xff) as u8) as u64) << 8 | ((((x >> 16)
        & 0xff) as u8) as u64) << 16 | ((((x >> 24) & 0xff) as u8) as u64) << 24 | ((((x >> 32)
        & 0xff) as u8) as u64) << 32 | ((((x >> 40) & 0xff) as u8) as u64) << 40 | ((((x >> 48)
        & 0xff) as u8) as u64) << 48 | ((((x >> 56) & 0xff) as u8) as u64) << 56 == x)
        by (bit_vector);
}

/// Taking the little-endian bytes of a value read from eight bytes yields
/// those eight bytes back.
pub proof fn lemma_le64_bytes_round_trip(
    b0: u8,
    b1: u8,
    b2: u8,
    b3: u8,
    b4: u8,
    b5: u8,
    b6: u8,
    b7: u8,
)
    ensures
        le64_bytes(le64_of_bytes(b0, b1, b2, b3, b4, b5, b6, b7)) == seq![
            b0,
            b1,
            b2,
            b3,
            b4,
            b5,
            b6,
            b7,
        ],
{
    let x = le64_of_bytes(b0, b1, b2, b3, b4, b5, b6, b7);
    assert((le64_of_bytes(b0, b1, b2, b3, b4, b5, b6, b7) & 0xff) as u8 == b0) by (bit_vector);
    assert(((le64_of_bytes(b0, b1, b2, b3, b4, b5, b6, b7) >> 8) & 0xff) as u8 == b1)
        by (bit_vector);
    assert(((le64_of_bytes(b0, b1, b2, b3, b4, b5, b6, b7) >> 16) & 0xff) as u8 == b2)
        by (bit_vector);
    assert(((le64_of_bytes(b0, b1, b2, b3, b4, b5, b6, b7) >> 24) & 0xff) as u8 == b3)
        by (bit_vector);
    assert(((le64_of_bytes(b0, b1, b2, b3, b4, b5, b6, b7) >> 32) & 0xff) as u8 == b4)
        by (bit_vector);
    assert(((le64_of_bytes(b0, b1, b2, b3, b4, b5, b6, b7) >> 40) & 0xff) as u8 == b5)
        by (bit_vector);
    assert(((le64_of_bytes(b0, b1, b2, b3, b4, b5, b6, b7) >> 48) & 0xff) as u8 == b6)
        by (bit_vector);
    assert(((le64_of_bytes(b0, b1, b2, b3, b4, b5, b6, b7) >> 56) & 0xff) as u8 == b7)
        by (bit_vector);
    assert(le64_bytes(x) =~= seq![b0, b1, b2, b3, b4, b5, b6, b7]);
}

/// Appends the eight little-endian bytes of `x` to `v`.
pub fn push_u64_le(v: &mut Vec<u8>, x: u64)
    ensures
        final(v)@ == old(v)@ + le64_bytes(x),
{
    v.push((x & 0xff) as u8);
    v.push(((x >> 8) & 0xff) as u8);
    v.push(((x >> 16) & 0xff) as u8);
    v.push(((x >> 24) & 0xff) as u8);
    v.push(((x >> 32) & 0xff) as u8);
    v.push(((x >> 40) & 0xff) as u8);
    v.push(((x >> 48) & 0xff) as u8);
    v.push(((x >> 56) & 0xff) as u8);
    proof {
        assert(v@ =~= old(v)@ + le64_bytes(x));
    }
}

/// Reads the eight bytes of `v` starting at `offset` as a little-endian
/// 64-bit integer.
pub fn read_u64_le(v: &Vec<u8>, offset: usize) -> (r: u64)
    requires
        offset + 8 <= v@.len(),
    ensures
        r == le64_at(v@, offset as int),
{
    let n: usize = v.len();
    assert(offset + 8 <= n);
    (v[offset] as u64) | ((v[offset + 1] as u64) << 8) | ((v[offset + 2] as u64) << 16) | ((v[offset
        + 3] as u64) << 24) | ((v[offset + 4] as u64) << 32) | ((v[offset + 5] as u64) << 40) | ((
    v[offset + 6] as u64) << 48) | ((v[offset + 7] as u64) << 56)
}

} // verus!
