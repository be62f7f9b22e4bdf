//! The arithmetic and logic unit: additions and subtractions with their
//! carry and overflow flags, and the barrel shifter.
use vstd::prelude::*;

use crate::bits::bit32;
use crate::arm7tdmi::EShiftType;

verus! {

/// `a` read as a two's complement 32-bit number.
pub open spec fn signed32(a: u32) -> int {
    if a >= 0x8000_0000 {
        a - 0x1_0000_0000
    } else {
        a as int
    }
}

/// Whether `x` lies outside the range of `i32`.
pub open spec fn out_of_i32(x: int) -> bool {
    x < -0x8000_0000 || x > 0x7fff_ffff
}

/// Signed overflow of `a + b`.
pub open spec fn add_overflows(a: u32, b: u32) -> bool {
    out_of_i32(signed32(a) + signed32(b))
}

/// Signed overflow of `a - b`.
pub open spec fn sub_overflows(a: u32, b: u32) -> bool {
    out_of_i32(signed32(a) - signed32(b))
}

/// `x` reduced modulo 2^32.
pub open spec fn wrap32(x: int) -> u32 {
    (x % 0x1_0000_0000) as u32
}

/// Result, carry and overflow of `a + b + cin` as the ALU computes them:
/// the carry is the carry out of bit 31, the overflow is the signed
/// overflow of `a + b` or of adding the carry-in to that sum.
pub open spec fn add_with_carry(a: u32, b: u32, cin: bool) -> (u32, bool, bool) {
    let c: u32 = if cin { 1 } else { 0 };
    let first = wrap32(a + b);
    (wrap32(a + b + c), a + b + c > 0xffff_ffff, add_overflows(a, b) || add_overflows(first, c))
}

/// Result, carry and overflow of `a - b - borrow`: the carry flag is set
/// when no borrow occurs, the overflow is the signed overflow of `a - b`
/// or of subtracting the borrow from that difference.
pub open spec fn sub_with_borrow(a: u32, b: u32, borrow: bool) -> (u32, bool, bool) {
    let c: u32 = if borrow { 1 } else { 0 };
    let first = wrap32(a - b);
    (wrap32(a - b - c), a - b - c >= 0, sub_overflows(a, b) || sub_overflows(first, c))
}

fn overflowing_signed_add(a: u32, b: u32) -> (r: bool)
    ensures
        r == add_overflows(a, b),
{
    let sa: i64 = if a >= 0x8000_0000 { a as i64 - 0x1_0000_0000 } else { a as i64 };
    let sb: i64 = if b >= 0x8000_0000 { b as i64 - 0x1_0000_0000 } else { b as i64 };
    let s = sa + sb;
    s < -0x8000_0000 || s > 0x7fff_ffff
}

fn overflowing_signed_sub(a: u32, b: u32) -> (r: bool)
    ensures
        r == sub_overflows(a, b),
{
    let sa: i64 = if a >= 0x8000_0000 { a as i64 - 0x1_0000_0000 } else { a as i64 };
    let sb: i64 = if b >= 0x8000_0000 { b as i64 - 0x1_0000_0000 } else { b as i64 };
    let s = sa - sb;
    s < -0x8000_0000 || s > 0x7fff_ffff
}

/// Adds with carry-in, returning result, carry out and overflow.
pub fn add_carry(a: u32, b: u32, cin: bool) -> (r: (u32, bool, bool))
    ensures
        r == add_with_carry(a, b, cin),
{
    let c: u64 = if cin { 1 } else { 0 };
    let first: u64 = a as u64 + b as u64;
    let first32: u32 = (first % 0x1_0000_0000) as u32;
    let total: u64 = first + c;
    let v = overflowing_signed_add(a, b) || overflowing_signed_add(first32, c as u32);
    ((total % 0x1_0000_0000) as u32, total > 0xffff_ffff, v)
}

/// Subtracts with borrow-in, returning result, carry (no borrow) and
/// overflow.
pub fn sub_borrow(a: u32, b: u32, borrow: bool) -> (r: (u32, bool, bool))
    ensures
        r == sub_with_borrow(a, b, borrow),
{
    let c: i64 = if borrow { 1 } else { 0 };
    let first: i64 = a as i64 - b as i64;
    let first32: u32 = if first < 0 { (first + 0x1_0000_0000) as u32 } else { first as u32 };
    let total: i64 = first - c;
    let v = overflowing_signed_sub(a, b) || overflowing_signed_sub(first32, c as u32);
    let res: u32 = if total < 0 { (total + 0x1_0000_0000) as u32 } else { total as u32 };
    proof {
        assert(wrap32(a - b) == first32);
        assert(wrap32(a - b - c) == res);
    }
    (res, total >= 0, v)
}

/// The carry out of an addition is the carry out of the full sum: the two
/// partial carries of `a + b` and of adding the carry-in never both occur.
pub proof fn lemma_add_carry_is_full_carry(a: u32, b: u32, cin: bool)
    ensures
        add_with_carry(a, b, cin).1 == (wrap32(a + b) as int + (if cin { 1int } else { 0int })
            > 0xffff_ffff || a + b > 0xffff_ffff),
        add_with_carry(a, b, cin).0 as int + (if add_with_carry(a, b, cin).1 { 0x1_0000_0000int } else { 0int })
            == a + b + (if cin { 1int } else { 0int }),
{
}

/// Subtraction is addition of the complement: `a - b - borrow` has the
/// result and carry of `a + !b + !borrow`.
pub proof fn lemma_sub_is_add_complement(a: u32, b: u32, borrow: bool)
    ensures
        sub_with_borrow(a, b, borrow).0 == add_with_carry(a, !b, !borrow).0,
        sub_with_borrow(a, b, borrow).1 == add_with_carry(a, !b, !borrow).1,
{
    crate::bits::lemma_bit_tests(b);
}

/// Rotation of `x` right by `n` places.
pub open spec fn rotr(x: u32, n: u32) -> u32 {
    if n % 32 == 0 {
        x
    } else {
        (x >> (n % 32)) | (x << ((32 - n % 32) as u32))
    }
}

/// Rotates `x` right by `n` places.
pub fn rotate_right(x: u32, n: u32) -> (r: u32)
    ensures
        r == rotr(x, n),
{
    let k = n % 32;
    if k == 0 {
        x
    } else {
        (x >> k) | (x << (32 - k))
    }
}

/// Arithmetic shift right of `x` by `n < 32` places.
pub open spec fn asr(x: u32, n: u32) -> u32 {
    if x >= 0x8000_0000 {
        (x >> n) | !(0xffff_ffffu32 >> n)
    } else {
        x >> n
    }
}

/// Arithmetic shift right.
pub fn signed_shr(x: u32, n: u32) -> (r: u32)
    requires
        n < 32,
    ensures
        r == asr(x, n),
{
    if x >= 0x8000_0000 {
        (x >> n) | !(0xffff_ffffu32 >> n)
    } else {
        x >> n
    }
}

/// The barrel shifter with an immediate amount (0..31), as used by data
/// processing instructions: returns the shifted operand and the carry out.
/// An amount of zero means LSL #0 (no shift), LSR #32, ASR #32 and RRX.
pub open spec fn shift_imm(st: EShiftType, rm: u32, amount: u32, c: bool) -> (u32, bool) {
    match st {
        EShiftType::LSL => if amount == 0 {
            (rm, c)
        } else {
            (rm << amount, bit32(rm, (32 - amount) as u32))
        },
        EShiftType::LSR => if amount == 0 {
            (0, bit32(rm, 31))
        } else {
            (rm >> amount, bit32(rm, (amount - 1) as u32))
        },
        EShiftType::ASR => if amount == 0 {
            (if bit32(rm, 31) { 0xffff_ffff } else { 0 }, bit32(rm, 31))
        } else {
            (asr(rm, amount), bit32(rm, (amount - 1) as u32))
        },
        EShiftType::ROR => if amount == 0 {
            ((if c { 0x8000_0000u32 } else { 0 }) | (rm >> 1), bit32(rm, 0))
        } else {
            (rotr(rm, amount), bit32(rm, (amount - 1) as u32))
        },
    }
}

/// The barrel shifter with an amount taken from the low byte of a register.
pub open spec fn shift_reg(st: EShiftType, rm: u32, rs: u32, c: bool) -> (u32, bool) {
    match st {
        EShiftType::LSL => if rs == 0 {
            (rm, c)
        } else if rs < 32 {
            (rm << rs, bit32(rm, (32 - rs) as u32))
        } else if rs == 32 {
            (0, bit32(rm, 0))
        } else {
            (0, false)
        },
        EShiftType::LSR => if rs == 0 {
            (rm, c)
        } else if rs < 32 {
            (rm >> rs, bit32(rm, (rs - 1) as u32))
        } else if rs == 32 {
            (0, bit32(rm, 31))
        } else {
            (0, false)
        },
        EShiftType::ASR => if rs == 0 {
            (rm, c)
        } else if rs < 32 {
            (asr(rm, rs), bit32(rm, (rs - 1) as u32))
        } else {
            (if bit32(rm, 31) { 0xffff_ffff } else { 0 }, bit32(rm, 31))
        },
        EShiftType::ROR => if rs == 0 {
            (rm, c)
        } else if rs & 0x1f == 0 {
            (rm, bit32(rm, 31))
        } else {
            (rotr(rm, rs & 0x1f), bit32(rm, ((rs & 0x1f) - 1) as u32))
        },
    }
}

fn bit(x: u32, i: u32) -> (r: bool)
    requires
        i < 32,
    ensures
        r == bit32(x, i),
{
    (x >> i) & 1 == 1
}

/// The barrel shifter with an immediate amount.
pub fn shift_by_immediate(st: EShiftType, rm: u32, amount: u32, c: bool) -> (r: (u32, bool))
    requires
        amount < 32,
    ensures
        r == shift_imm(st, rm, amount, c),
{
    match st {
        EShiftType::LSL => if amount == 0 {
            (rm, c)
        } else {
            (rm << amount, bit(rm, 32 - amount))
        },
        EShiftType::LSR => if amount == 0 {
            (0, bit(rm, 31))
        } else {
            (rm >> amount, bit(rm, amount - 1))
        },
        EShiftType::ASR => if amount == 0 {
            (if bit(rm, 31) { 0xffff_ffff } else { 0 }, bit(rm, 31))
        } else {
            (signed_shr(rm, amount), bit(rm, amount - 1))
        },
        EShiftType::ROR => if amount == 0 {
            ((if c { 0x8000_0000u32 } else { 0 }) | (rm >> 1), bit(rm, 0))
        } else {
            (rotate_right(rm, amount), bit(rm, amount - 1))
        },
    }
}

/// The barrel shifter with a register-specified amount (`rs` < 256).
pub fn shift_by_register(st: EShiftType, rm: u32, rs: u32, c: bool) -> (r: (u32, bool))
    requires
        rs < 256,
    ensures
        r == shift_reg(st, rm, rs, c),
{
    match st {
        EShiftType::LSL => if rs == 0 {
            (rm, c)
        } else if rs < 32 {
            (rm << rs, bit(rm, 32 - rs))
        } else if rs == 32 {
            (0, bit(rm, 0))
        } else {
            (0, false)
        },
        EShiftType::LSR => if rs == 0 {
            (rm, c)
        } else if rs < 32 {
            (rm >> rs, bit(rm, rs - 1))
        } else if rs == 32 {
            (0, bit(rm, 31))
        } else {
            (0, false)
        },
        EShiftType::ASR => if rs == 0 {
            (rm, c)
        } else if rs < 32 {
            (signed_shr(rm, rs), bit(rm, rs - 1))
        } else {
            (if bit(rm, 31) { 0xffff_ffff } else { 0 }, bit(rm, 31))
        },
        EShiftType::ROR => {
            let rs_shift = rs & 0x1f;
            if rs == 0 {
                (rm, c)
            } else if rs_shift == 0 {
                (rm, bit(rm, 31))
            } else {
                proof {
                    crate::bits::lemma_and_le_u32(rs, 0x1f);
                }
                (rotate_right(rm, rs_shift), bit(rm, rs_shift - 1))
            }
        },
    }
}

/// An arithmetic shift by 1..31 places keeps the sign bit.
pub proof fn lemma_asr_keeps_sign(x: u32, n: u32)
    by (bit_vector)
    requires
        0 < n < 32,
    ensures
        bit32(asr(x, n), 31) == bit32(x, 31),
{
}

/// Rotating by the full width, or by a multiple of it, changes nothing;
/// rotating right by `n` and then by `32 - n` restores the value.
pub proof fn lemma_rotr_inverse(x: u32, n: u32)
    requires
        0 < n < 32,
    ensures
        rotr(rotr(x, n), (32 - n) as u32) == x,
        rotr(x, 32) == x,
{
    assert(((((x >> n) | (x << ((32 - n) as u32))) >> ((32 - n) as u32)) | (((x >> n) | (x << ((
    32 - n) as u32))) << n)) == x) by (bit_vector)
        requires
            0 < n < 32,
    ;
}

} // verus!
