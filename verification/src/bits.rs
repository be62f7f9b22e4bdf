//! Bit-level vocabulary shared by the register models: single bits of 8-,
//! 16- and 32-bit words, and the bit-vector facts the proofs rest on.
use vstd::prelude::*;

verus! {

/// Bit `i` of a 32-bit word.
pub open spec fn bit32(v: u32, i: u32) -> bool {
    (v >> i) & 1u32 == 1u32
}

/// Bit `i` of a 16-bit word.
pub open spec fn bit16(v: u16, i: u16) -> bool {
    (v >> i) & 1u16 == 1u16
}

/// `v` with bit `i` set to `b`.
pub open spec fn with_bit32(v: u32, i: u32, b: bool) -> u32 {
    if b {
        v | (1u32 << i)
    } else {
        v & !(1u32 << i)
    }
}

/// `v` with bit `i` set to `b`.
pub open spec fn with_bit16(v: u16, i: u16, b: bool) -> u16 {
    if b {
        v | (1u16 << i)
    } else {
        v & !(1u16 << i)
    }
}

/// Reads bit `i` of a 32-bit word.
pub fn get_bit32(v: u32, i: u32) -> (r: bool)
    requires
        i < 32,
    ensures
        r == bit32(v, i),
{
    (v >> i) & 1 == 1
}

/// Returns `v` with bit `i` set to `b`.
pub fn put_bit32(v: u32, i: u32, b: bool) -> (r: u32)
    requires
        i < 32,
    ensures
        r == with_bit32(v, i, b),
        bit32(r, i) == b,
        forall|j: u32| j < 32 && j != i ==> bit32(r, j) == bit32(v, j),
{
    proof {
        lemma_with_bit32(v, i, b);
    }
    if b {
        v | (1u32 << i)
    } else {
        v & !(1u32 << i)
    }
}

/// Setting a bit changes that bit and no other.
pub proof fn lemma_with_bit32(v: u32, i: u32, b: bool)
    by (bit_vector)
    requires
        i < 32,
    ensures
        bit32(with_bit32(v, i, b), i) == b,
        forall|j: u32| j < 32 && j != i ==> bit32(#[trigger] with_bit32(v, i, b), j) == bit32(v, j),
{
}

/// A mask bounds what it keeps.
pub proof fn lemma_and_le_u32(v: u32, m: u32)
    by (bit_vector)
    ensures
        v & m <= m,
        v & m <= v,
{
}

/// A mask bounds what it keeps.
pub proof fn lemma_and_le_u16(v: u16, m: u16)
    by (bit_vector)
    ensures
        v & m <= m,
        v & m <= v,
{
}

/// A mask bounds what it keeps.
pub proof fn lemma_and_le_u64(v: u64, m: u64)
    by (bit_vector)
    ensures
        v & m <= m,
        v & m <= v,
{
}

/// The fields at the top of a word, a half-word and a byte.
pub proof fn lemma_top_bits(w: u32, h: u16, b: u8)
    by (bit_vector)
    ensures
        w >> 28 < 16,
        h >> 14 <= 3,
        h >> 12 <= 15,
        h >> 8 <= 255,
        b >> 4 <= 15,
        b & 0xf <= 15,
{
}

/// Single-bit tests written with masks.
pub proof fn lemma_bit_tests(x: u32)
    by (bit_vector)
    ensures
        ((x & 0x8000_0000) != 0) == bit32(x, 31),
        ((x & 1) != 0) == bit32(x, 0),
        (0x1 & x) == (x & 1),
        !x == 0xffff_ffff - x,
{
}

} // verus!
