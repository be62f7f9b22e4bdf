//! Program status registers: condition flags, interrupt masks, the THUMB
//! state bit and the mode bits, all in one 32-bit word.
use vstd::prelude::*;

use crate::bits::{bit32, with_bit32, get_bit32, put_bit32, lemma_with_bit32};
use crate::arm7tdmi::{mode_bits, EOperatingMode};

verus! {

/// A program status register (CPSR or SPSR).
#[derive(Debug, Clone, Copy)]
pub struct PSR {
    data: u32,
}

impl View for PSR {
    type V = u32;

    closed spec fn view(&self) -> u32 {
        self.data
    }
}

/// Bit positions of the flags in a PSR.
pub open spec fn n_bit() -> u32 { 31 }
pub open spec fn z_bit() -> u32 { 30 }
pub open spec fn c_bit() -> u32 { 29 }
pub open spec fn v_bit() -> u32 { 28 }
pub open spec fn i_bit() -> u32 { 7 }
pub open spec fn f_bit() -> u32 { 6 }
pub open spec fn t_bit() -> u32 { 5 }

/// The mode field (bits 4..0) of a PSR word.
pub open spec fn psr_mode(v: u32) -> u32 {
    v & 0x1f
}

/// `v` with its mode field replaced by the low five bits of `m`.
pub open spec fn with_mode(v: u32, m: u32) -> u32 {
    (v & !0x1fu32) | (m & 0x1f)
}

/// Setting a flag above the mode field leaves the mode field alone.
pub proof fn lemma_with_bit_keeps_mode(v: u32, i: u32, b: bool)
    by (bit_vector)
    requires
        5 <= i < 32,
    ensures
        psr_mode(with_bit32(v, i, b)) == psr_mode(v),
{
}

/// Replacing the mode field sets it and keeps the flags and the other bits.
pub proof fn lemma_with_mode(v: u32, m: u32)
    by (bit_vector)
    ensures
        psr_mode(with_mode(v, m)) == m & 0x1f,
        forall|j: u32| 5 <= j < 32 ==> bit32(#[trigger] with_mode(v, m), j) == bit32(v, j),
        with_mode(v, psr_mode(v)) == v,
        m == 0x10 || m == 0x11 || m == 0x12 || m == 0x13 || m == 0x17 || m == 0x1b || m == 0x1f ==> m
            & 0x1f == m,
        psr_mode(0x1f) == 0x1f,
        (0u32 & !0x1fu32) | (0x1fu32 & 0x1f) == 0x1fu32,
{
}

impl PSR {
    /// A PSR with every flag clear, in System mode.
    pub fn new() -> (r: Self)
        ensures
            r@ == 0x1fu32,
    {
        let mut result = Self { data: 0 };
        result.set_mode_bits(EOperatingMode::SystemMode.to_u8());
        proof {
            lemma_with_mode(0, 0x1f);
        }
        result
    }

    /// A PSR holding the word `value`.
    pub fn from_value(value: u32) -> (r: Self)
        ensures
            r@ == value,
    {
        Self { data: value }
    }

    /// The whole register as a word.
    pub fn get_value(&self) -> (r: u32)
        ensures
            r == self@,
    {
        self.data
    }

    /// Overwrites the whole register.
    pub fn set_value(&mut self, value: u32)
        ensures
            final(self)@ == value,
    {
        self.data = value;
    }

    /// N - Sign Flag       (0=Not Signed, 1=Signed)
    pub fn get_n(&self) -> (r: bool)
        ensures
            r == bit32(self@, n_bit()),
    {
        get_bit32(self.data, 31)
    }

    pub fn set_n(&mut self, value: bool)
        ensures
            final(self)@ == with_bit32(old(self)@, n_bit(), value),
    {
        self.data = put_bit32(self.data, 31, value);
    }

    /// Z - Zero Flag       (0=Not Zero, 1=Zero)
    pub fn get_z(&self) -> (r: bool)
        ensures
            r == bit32(self@, z_bit()),
    {
        get_bit32(self.data, 30)
    }

    pub fn set_z(&mut self, value: bool)
        ensures
            final(self)@ == with_bit32(old(self)@, z_bit(), value),
    {
        self.data = put_bit32(self.data, 30, value);
    }

    /// C - Carry Flag      (0=Borrow/No Carry, 1=Carry/No Borrow)
    pub fn get_c(&self) -> (r: bool)
        ensures
            r == bit32(self@, c_bit()),
    {
        get_bit32(self.data, 29)
    }

    pub fn set_c(&mut self, value: bool)
        ensures
            final(self)@ == with_bit32(old(self)@, c_bit(), value),
    {
        self.data = put_bit32(self.data, 29, value);
    }

    /// V - Overflow Flag   (0=No Overflow, 1=Overflow)
    pub fn get_v(&self) -> (r: bool)
        ensures
            r == bit32(self@, v_bit()),
    {
        get_bit32(self.data, 28)
    }

    pub fn set_v(&mut self, value: bool)
        ensures
            final(self)@ == with_bit32(old(self)@, v_bit(), value),
    {
        self.data = put_bit32(self.data, 28, value);
    }

    /// I - IRQ disable     (0=Enable, 1=Disable)
    pub fn get_i(&self) -> (r: bool)
        ensures
            r == bit32(self@, i_bit()),
    {
        get_bit32(self.data, 7)
    }

    pub fn set_i(&mut self, value: bool)
        ensures
            final(self)@ == with_bit32(old(self)@, i_bit(), value),
    {
        self.data = put_bit32(self.data, 7, value);
    }

    /// F - FIQ disable     (0=Enable, 1=Disable)
    pub fn get_f(&self) -> (r: bool)
        ensures
            r == bit32(self@, f_bit()),
    {
        get_bit32(self.data, 6)
    }

    pub fn set_f(&mut self, value: bool)
        ensures
            final(self)@ == with_bit32(old(self)@, f_bit(), value),
    {
        self.data = put_bit32(self.data, 6, value);
    }

    /// T - State Bit       (0=ARM, 1=THUMB)
    pub fn get_t(&self) -> (r: bool)
        ensures
            r == bit32(self@, t_bit()),
    {
        get_bit32(self.data, 5)
    }

    pub fn set_t(&mut self, value: bool)
        ensures
            final(self)@ == with_bit32(old(self)@, t_bit(), value),
    {
        self.data = put_bit32(self.data, 5, value);
    }

    ///  M4-M0 - Mode Bits
    pub fn get_mode_bits(&self) -> (r: u32)
        ensures
            r == psr_mode(self@),
    {
        self.data & 0x1f
    }

    /// Stores the low five bits of `value` in the mode field.
    pub fn set_mode_bits(&mut self, value: u8)
        ensures
            final(self)@ == with_mode(old(self)@, value as u32),
    {
        self.data = (self.data & !0x1fu32) | (value as u32 & 0x1f);
    }
}

/// A flag written to a PSR reads back, and the other flags and the mode are
/// untouched.
pub proof fn lemma_psr_flag_read_after_write(v: u32, i: u32, b: bool, j: u32)
    requires
        5 <= i < 32,
        j < 32,
    ensures
        bit32(with_bit32(v, i, b), i) == b,
        j != i ==> bit32(with_bit32(v, i, b), j) == bit32(v, j),
        psr_mode(with_bit32(v, i, b)) == psr_mode(v),
{
    lemma_with_bit32(v, i, b);
    lemma_with_bit_keeps_mode(v, i, b);
}

} // verus!
