//! The ARM (32-bit) instruction set.
use vstd::prelude::*;

use crate::bits::bit32;
use crate::arm7tdmi::alu::{
    rotr, rotate_right, shift_imm, shift_reg, shift_by_immediate, shift_by_register,
    add_with_carry, sub_with_borrow, add_carry, sub_borrow, sub_overflows,
};
use crate::arm7tdmi::cpu::{
    CPU, CpuView, restore_ok, restore_spsr, take_exception, LINK_REGISTER_REGISTER,
    PROGRAM_COUNTER_REGISTER,
};
use crate::arm7tdmi::{
    cond_holds, cond_passed, load32, load_32_from_memory, sign_extend, sign_extended,
    valid_mode, mode_bits, CpuResult, EExceptionType, EOperatingMode, EShiftType,
};
use crate::arm7tdmi::psr::psr_mode;
use crate::system::{BusView, SystemBus};

verus! {

/// Register fields of an ARM instruction.
pub open spec fn rd_of(raw: u32) -> int {
    ((raw >> 12) & 0xf) as int
}

pub open spec fn rn_of(raw: u32) -> int {
    ((raw >> 16) & 0xf) as int
}

pub open spec fn rm_of(raw: u32) -> int {
    (raw & 0xf) as int
}

pub open spec fn rs_of(raw: u32) -> int {
    ((raw >> 8) & 0xf) as int
}

pub open spec fn flush_if(b: bool) -> CpuResult {
    if b {
        CpuResult::FlushPipeline
    } else {
        CpuResult::Continue
    }
}

/// Exposes common information about an encoded ARM instruction
#[derive(Debug, Clone, Copy)]
pub struct ArmInstruction(pub u32);

proof fn lemma_nibble(x: u32)
    ensures
        x & 0xf < 16,
        x & 0xff < 256,
        x & 0xfff < 4096,
        x & 0x1f < 32,
        x & 3 < 4,
{
    crate::bits::lemma_and_le_u32(x, 0xf);
    crate::bits::lemma_and_le_u32(x, 0xff);
    crate::bits::lemma_and_le_u32(x, 0xfff);
    crate::bits::lemma_and_le_u32(x, 0x1f);
    crate::bits::lemma_and_le_u32(x, 3);
}

impl ArmInstruction {
    pub fn get_cond(&self) -> (r: u8)
        ensures
            r == self.0 >> 28,
    {
        proof {
            crate::bits::lemma_top_bits(self.0, 0, 0);
        }
        (self.0 >> 28) as u8
    }

    pub fn get_rd_index(&self) -> (r: u8)
        ensures
            r == rd_of(self.0),
            r < 16,
    {
        proof {
            lemma_nibble(self.0 >> 12);
        }
        ((self.0 >> 12) & 0xf) as u8
    }

    pub fn get_rn_index(&self) -> (r: u8)
        ensures
            r == rn_of(self.0),
            r < 16,
    {
        proof {
            lemma_nibble(self.0 >> 16);
        }
        ((self.0 >> 16) & 0xf) as u8
    }

    pub fn get_rm_index(&self) -> (r: u8)
        ensures
            r == rm_of(self.0),
            r < 16,
    {
        proof {
            lemma_nibble(self.0);
        }
        (self.0 & 0xf) as u8
    }

    pub fn get_rs_index(&self) -> (r: u8)
        ensures
            r == rs_of(self.0),
            r < 16,
    {
        proof {
            lemma_nibble(self.0 >> 8);
        }
        ((self.0 >> 8) & 0xf) as u8
    }

    /// Bit `i` of the instruction.
    pub fn bit(&self, i: u32) -> (r: bool)
        requires
            i < 32,
        ensures
            r == bit32(self.0, i),
    {
        (self.0 >> i) & 1 == 1
    }

    pub fn get_offset_12(&self) -> (r: u32)
        ensures
            r == self.0 & 0xfff,
    {
        self.0 & 0xfff
    }

    pub fn get_imm_8(&self) -> (r: u32)
        ensures
            r == self.0 & 0xff,
    {
        self.0 & 0xff
    }

    pub fn get_rot_imm_8(&self) -> (r: u32)
        ensures
            r == (self.0 >> 8) & 0xf,
            r < 16,
    {
        proof {
            lemma_nibble(self.0 >> 8);
        }
        (self.0 >> 8) & 0xf
    }

    pub fn get_shift(&self) -> (r: u32)
        ensures
            r == (self.0 >> 7) & 0x1f,
            r < 32,
    {
        proof {
            lemma_nibble(self.0 >> 7);
        }
        (self.0 >> 7) & 0x1f
    }

    pub fn get_shift_type(&self) -> (r: EShiftType)
        ensures
            r == EShiftType::spec_from_bits(self.0 >> 5),
    {
        EShiftType::from_bits(self.0 >> 5)
    }

    pub fn get_register_list(&self) -> (r: u16)
        ensures
            r == self.0 & 0xffff,
    {
        proof {
            crate::bits::lemma_and_le_u32(self.0, 0xffff);
        }
        (self.0 & 0xffff) as u16
    }
}

/// BX: branch to the address in Rm, entering THUMB state when its bit 0 is
/// set.
pub open spec fn arm_bx(c: CpuView, raw: u32) -> CpuView {
    let rm = c.operand(rm_of(raw));
    c.set_t(rm & 1 != 0).set_reg(15, rm & !1u32)
}

/// B/BL: branch by the sign-extended 24-bit word offset, relative to the
/// instruction address plus 8; BL first saves the next instruction address
/// in the link register.
pub open spec fn arm_branch(c: CpuView, raw: u32) -> CpuView {
    let c1 = if bit32(raw, 24) { c.set_reg(14, c.pc().wrapping_add(4)) } else { c };
    let offset = sign_extended(raw & 0xff_ffff, 24);
    c1.set_reg(15, c1.operand(15).wrapping_add(((offset * 4) as i32) as u32))
}

/// SWP/SWPB: swaps a register with memory.
pub open spec fn arm_swap(c: CpuView, b: BusView, raw: u32) -> (CpuView, BusView, CpuResult) {
    let rn = c.operand(rn_of(raw));
    let rm = c.operand(rm_of(raw));
    let rd = rd_of(raw);
    if bit32(raw, 22) {
        let temp = b.read_8(rn);
        (c.set_reg(rd, temp as u32), b.write_8(rn, rm as u8), CpuResult::Continue)
    } else {
        let temp = load32(b, rn);
        (c.set_reg(rd, temp), b.write_32(rn & !3u32, rm), flush_if(rd == 15))
    }
}

/// A 32-bit value sign-extended to 64 bits.
pub open spec fn sext64(x: u32) -> u64 {
    if x >= 0x8000_0000 {
        (x as u64) | 0xffff_ffff_0000_0000
    } else {
        x as u64
    }
}

/// The multiply opcodes that exist (MUL, MLA, UMULL, UMLAL, SMULL, SMLAL).
pub open spec fn multiply_defined(raw: u32) -> bool {
    let op = (raw >> 21) & 7;
    op != 2 && op != 3
}

/// The flags a long multiply sets: N from bit 63, Z when all 64 bits are
/// zero, C and V cleared.
pub open spec fn long_flags(c: CpuView, negative: bool, zero: bool) -> CpuView {
    c.set_n(negative).set_z(zero).set_c(false).set_v(false)
}

/// MUL/MLA/UMULL/UMLAL/SMULL/SMLAL. The destination is in bits 19..16,
/// the accumulator (or low half of a long result) in bits 15..12.
pub open spec fn arm_multiply(c: CpuView, raw: u32) -> CpuView {
    let s = bit32(raw, 20);
    let rn_index = rd_of(raw);
    let rn = c.operand(rn_index);
    let rs = c.operand(rs_of(raw));
    let rm = c.operand(rm_of(raw));
    let rd_index = rn_of(raw);
    let op = (raw >> 21) & 7;
    if op == 0 || op == 1 {
        let alu_out = if op == 0 { rm.wrapping_mul(rs) } else { rm.wrapping_mul(rs).wrapping_add(rn) };
        let c1 = c.set_reg(rd_index, alu_out);
        if s { c1.set_n(bit32(alu_out, 31)).set_z(alu_out == 0).set_c(false) } else { c1 }
    } else if op == 4 || op == 6 {
        let alu_out: u64 = if op == 4 {
            (rm as u64).wrapping_mul(rs as u64)
        } else {
            sext64(rm).wrapping_mul(sext64(rs))
        };
        let c1 = c.set_reg(rd_index, (alu_out >> 32) as u32).set_reg(rn_index, alu_out as u32);
        if s { long_flags(c1, alu_out & 0x8000_0000_0000_0000 != 0, alu_out == 0) } else { c1 }
    } else {
        let alu_out: u64 = if op == 5 {
            (rm as u64).wrapping_mul(rs as u64)
        } else {
            sext64(rm).wrapping_mul(sext64(rs))
        };
        let lo_sum = (alu_out as u32) as int + rn as int;
        let lo = (lo_sum % 0x1_0000_0000) as u32;
        let carry: u32 = if lo_sum > 0xffff_ffff { 1 } else { 0 };
        let c1 = c.set_reg(rn_index, lo);
        let rd = c1.operand(rd_index);
        let hi = ((alu_out >> 32) as u32).wrapping_add(rd).wrapping_add(carry);
        let c2 = c1.set_reg(rd_index, hi);
        if s { long_flags(c2, hi & 0x8000_0000 != 0, hi == 0 && lo == 0) } else { c2 }
    }
}

/// MRS: copies the CPSR (or the current mode's SPSR) to a register.
pub open spec fn arm_mrs(c: CpuView, raw: u32) -> CpuView {
    c.set_reg(rd_of(raw), if bit32(raw, 22) { c.spsr_of(c.mode()) } else { c.cpsr })
}

/// The MSR source operand: a rotated immediate or register Rm.
pub open spec fn msr_operand(c: CpuView, raw: u32) -> u32 {
    if bit32(raw, 25) {
        rotr(raw & 0xff, (((raw >> 8) & 0xf) * 2) as u32)
    } else {
        c.operand(rm_of(raw))
    }
}

/// The bytes of the PSR selected by the field mask (bits 19..16).
pub open spec fn msr_byte_mask(raw: u32) -> u32 {
    (if bit32(raw, 19) { 0xff00_0000u32 } else { 0 }) | (if bit32(raw, 18) { 0x00ff_0000u32 } else { 0 })
        | (if bit32(raw, 17) { 0x0000_ff00u32 } else { 0 }) | (if bit32(raw, 16) { 0x0000_00ffu32 } else { 0 })
}

/// The bits an MSR to the CPSR may change: flags only in User mode; flags,
/// interrupt masks and mode in the privileged modes.
pub open spec fn msr_cpsr_mask(c: CpuView, raw: u32) -> u32 {
    if c.mode() != 0x10 {
        msr_byte_mask(raw) & (0xf000_0000u32 | 0x0000_00dfu32)
    } else {
        msr_byte_mask(raw) & 0xf000_0000u32
    }
}

/// MSR: writes the selected fields of the CPSR or of the current mode's SPSR.
pub open spec fn arm_msr(c: CpuView, raw: u32) -> CpuView {
    let operand = msr_operand(c, raw);
    if !bit32(raw, 22) {
        let mask = msr_cpsr_mask(c, raw);
        c.with_cpsr((c.cpsr & !mask) | (operand & mask))
    } else {
        let mask = msr_byte_mask(raw) & 0xf000_00ffu32;
        let spsr = c.spsr_of(c.mode());
        c.with_spsr(c.mode(), (spsr & !mask) | (operand & mask))
    }
}

/// The MSR forms the emulator defines: a privileged write to the CPSR may
/// not set the THUMB bit and must leave a valid mode; the SPSR can only be
/// written in a mode that has one.
pub open spec fn msr_defined(c: CpuView, raw: u32) -> bool {
    let operand = msr_operand(c, raw);
    if !bit32(raw, 22) {
        let mask = msr_cpsr_mask(c, raw);
        &&& (c.mode() != 0x10 ==> operand & 0x20 == 0)
        &&& valid_mode(psr_mode((c.cpsr & !mask) | (operand & mask)))
    } else {
        c.mode() != 0x10 && c.mode() != 0x1f
    }
}

} // verus!

verus! {

fn execute_bx(cpu: &mut CPU, instruction: ArmInstruction)
    requires
        old(cpu)@.wf(),
    ensures
        final(cpu)@ == arm_bx(old(cpu)@, instruction.0),
        final(cpu)@.wf(),
{
    let rm = cpu.get_register_value(instruction.get_rm_index());
    cpu.set_flag_t((rm & 0x0000_0001) != 0);
    cpu.set_register_value(PROGRAM_COUNTER_REGISTER, rm & !0x1u32);
}

fn execute_branch(cpu: &mut CPU, instruction: ArmInstruction)
    requires
        old(cpu)@.wf(),
    ensures
        final(cpu)@ == arm_branch(old(cpu)@, instruction.0),
        final(cpu)@.wf(),
{
    if instruction.bit(24) {
        // Branch with Link
        let link = cpu.get_current_pc().wrapping_add(4);
        cpu.set_register_value(LINK_REGISTER_REGISTER, link);
    }
    proof {
        crate::arm7tdmi::lemma_shl_pow2(24);
        crate::arm7tdmi::lemma_shl_pow2(23);
        crate::bits::lemma_and_le_u32(instruction.0, 0xff_ffff);
        vstd::arithmetic::power2::lemma2_to64();
    }
    let offset = sign_extend(instruction.0 & 0xff_ffff, 24);
    let target = cpu.get_register_value(PROGRAM_COUNTER_REGISTER).wrapping_add((offset * 4) as u32);
    cpu.set_register_value(PROGRAM_COUNTER_REGISTER, target);
}

fn execute_swap(cpu: &mut CPU, bus: &mut SystemBus, instruction: ArmInstruction) -> (r: CpuResult)
    requires
        old(cpu)@.wf(),
        old(bus)@.wf(),
    ensures
        (final(cpu)@, final(bus)@, r) == arm_swap(old(cpu)@, old(bus)@, instruction.0),
        final(cpu)@.wf(),
        final(bus)@.wf(),
{
    let rn = cpu.get_register_value(instruction.get_rn_index());
    let rm = cpu.get_register_value(instruction.get_rm_index());
    let rd_index = instruction.get_rd_index();
    if instruction.bit(22) {
        let temp = bus.read_8(rn);
        bus.write_8(rn, rm as u8);
        cpu.set_register_value(rd_index, temp as u32);
        CpuResult::Continue
    } else {
        // Unaligned addresses read the rotated aligned word and write the
        // aligned word.
        let temp = load_32_from_memory(bus, rn);
        bus.write_32(rn & !0x3u32, rm);
        cpu.set_register_value(rd_index, temp);
        if rd_index == PROGRAM_COUNTER_REGISTER {
            CpuResult::FlushPipeline
        } else {
            CpuResult::Continue
        }
    }
}

fn sign_extend_64(x: u32) -> (r: u64)
    ensures
        r == sext64(x),
{
    if x >= 0x8000_0000 {
        (x as u64) | 0xffff_ffff_0000_0000
    } else {
        x as u64
    }
}

fn long_multiply_flags(cpu: &mut CPU, negative: bool, zero: bool)
    requires
        old(cpu)@.wf(),
    ensures
        final(cpu)@ == long_flags(old(cpu)@, negative, zero),
        final(cpu)@.wf(),
{
    cpu.set_flag_n(negative);
    cpu.set_flag_z(zero);
    cpu.set_flag_c(false);
    cpu.set_flag_v(false);
}

fn execute_multiply(cpu: &mut CPU, instruction: ArmInstruction)
    requires
        old(cpu)@.wf(),
        multiply_defined(instruction.0),
    ensures
        final(cpu)@ == arm_multiply(old(cpu)@, instruction.0),
        final(cpu)@.wf(),
{
    let s = instruction.bit(20);
    // The destination of a multiply is in the Rn field and the accumulator
    // in the Rd field.
    let rn_index = instruction.get_rd_index();
    let rn = cpu.get_register_value(rn_index);
    let rs = cpu.get_register_value(instruction.get_rs_index());
    let rm = cpu.get_register_value(instruction.get_rm_index());
    let rd_index = instruction.get_rn_index();
    let op = (instruction.0 >> 21) & 7;
    if op == 0 || op == 1 {
        // MUL / MLA
        let alu_out = if op == 0 { rm.wrapping_mul(rs) } else { rm.wrapping_mul(rs).wrapping_add(rn) };
        cpu.set_register_value(rd_index, alu_out);
        if s {
            cpu.set_flag_n((alu_out >> 31) & 1 == 1);
            cpu.set_flag_z(alu_out == 0);
            cpu.set_flag_c(false);
        }
    } else if op == 4 || op == 6 {
        // UMULL / SMULL
        let alu_out: u64 = if op == 4 {
            (rm as u64).wrapping_mul(rs as u64)
        } else {
            sign_extend_64(rm).wrapping_mul(sign_extend_64(rs))
        };
        cpu.set_register_value(rd_index, (alu_out >> 32) as u32);
        cpu.set_register_value(rn_index, alu_out as u32);
        if s {
            long_multiply_flags(cpu, alu_out & 0x8000_0000_0000_0000 != 0, alu_out == 0);
        }
    } else {
        // UMLAL / SMLAL
        let alu_out: u64 = if op == 5 {
            (rm as u64).wrapping_mul(rs as u64)
        } else {
            sign_extend_64(rm).wrapping_mul(sign_extend_64(rs))
        };
        let lo_sum: u64 = (alu_out as u32) as u64 + rn as u64;
        let lo = (lo_sum % 0x1_0000_0000) as u32;
        let carry: u32 = if lo_sum > 0xffff_ffff { 1 } else { 0 };
        cpu.set_register_value(rn_index, lo);
        let rd = cpu.get_register_value(rd_index);
        let hi = ((alu_out >> 32) as u32).wrapping_add(rd).wrapping_add(carry);
        cpu.set_register_value(rd_index, hi);
        if s {
            long_multiply_flags(cpu, hi & 0x8000_0000 != 0, hi == 0 && lo == 0);
        }
    }
}

fn execute_mrs(cpu: &mut CPU, instruction: ArmInstruction)
    requires
        old(cpu)@.wf(),
    ensures
        final(cpu)@ == arm_mrs(old(cpu)@, instruction.0),
        final(cpu)@.wf(),
{
    let rd_index = instruction.get_rd_index();
    // SPSR vs CPSR
    let value = if instruction.bit(22) {
        cpu.get_spsr(cpu.get_operating_mode()).get_value()
    } else {
        cpu.get_cpsr().get_value()
    };
    cpu.set_register_value(rd_index, value);
}

fn execute_msr(cpu: &mut CPU, instruction: ArmInstruction)
    requires
        old(cpu)@.wf(),
        msr_defined(old(cpu)@, instruction.0),
    ensures
        final(cpu)@ == arm_msr(old(cpu)@, instruction.0),
        final(cpu)@.wf(),
{
    let f_mask = if instruction.bit(19) { 0xff00_0000u32 } else { 0x0000_0000 };
    let s_mask = if instruction.bit(18) { 0x00ff_0000u32 } else { 0x0000_0000 };
    let x_mask = if instruction.bit(17) { 0x0000_ff00u32 } else { 0x0000_0000 };
    let c_mask = if instruction.bit(16) { 0x0000_00ffu32 } else { 0x0000_0000 };
    let operand = if instruction.bit(25) {
        let rot = instruction.get_rot_imm_8();
        rotate_right(instruction.get_imm_8(), rot * 2)
    } else {
        cpu.get_register_value(instruction.get_rm_index())
    };
    let byte_mask = f_mask | s_mask | x_mask | c_mask;

    let user_mask: u32 = 0xf000_0000;
    let priv_mask: u32 = 0x0000_00df;

    let old_mode = cpu.get_operating_mode();
    if !instruction.bit(22) {
        let mask = if old_mode != EOperatingMode::UserMode {
            byte_mask & (user_mask | priv_mask)
        } else {
            byte_mask & user_mask
        };
        let value = (cpu.get_cpsr().get_value() & !mask) | (operand & mask);
        cpu.get_mut_cpsr().set_value(value);
        let new_mode = cpu.get_operating_mode();
        cpu.change_operating_mode(new_mode, old_mode);
        proof {
            crate::arm7tdmi::cpu::lemma_with_own_mode(value);
        }
    } else {
        // Flags, interrupt masks, state bit and mode.
        let mask = byte_mask & 0xf000_00ffu32;
        let spsr = cpu.get_spsr(old_mode).get_value();
        cpu.set_spsr_value(old_mode, (spsr & !mask) | (operand & mask));
    }
}

} // verus!

verus! {

/// `rn` moved up or down by `offset`.
pub open spec fn indexed(rn: u32, offset: u32, up: bool) -> u32 {
    if up {
        rn.wrapping_add(offset)
    } else {
        rn.wrapping_sub(offset)
    }
}

/// The offset of LDR/STR: a 12-bit immediate, or Rm through the barrel
/// shifter with an immediate amount.
pub open spec fn single_offset(c: CpuView, raw: u32) -> u32 {
    if bit32(raw, 25) {
        shift_imm(
            EShiftType::spec_from_bits(raw >> 5),
            c.operand(rm_of(raw)),
            (raw >> 7) & 0x1f,
            c.flag_c(),
        ).0
    } else {
        raw & 0xfff
    }
}

/// The base register write-back of a transfer, if any: pre-indexed with
/// write-back stores the address, post-indexed stores the moved base.
pub open spec fn writeback(c: CpuView, rn_index: int, p: bool, w: bool, address: u32, moved: u32) -> CpuView {
    if p && w {
        c.set_reg(rn_index, address)
    } else if !p {
        c.set_reg(rn_index, moved)
    } else {
        c
    }
}

/// The value a store takes from register `rd`: the program counter is
/// stored as the instruction address plus 12.
pub open spec fn store_value(c: CpuView, rd: int) -> u32 {
    if rd == 15 {
        c.operand(15).wrapping_add(4)
    } else {
        c.operand(rd)
    }
}

/// A loaded value as it enters register `rd`: word-aligned for the
/// program counter.
pub open spec fn load_value(rd: int, data: u32) -> u32 {
    if rd == 15 {
        data & !3u32
    } else {
        data
    }
}

/// LDR/STR/LDRB/STRB (and the T variants, which force User-mode register
/// access for the transfer when post-indexed with write-back).
pub open spec fn arm_single_transfer(c: CpuView, b: BusView, raw: u32) -> (CpuView, BusView, CpuResult) {
    let p = bit32(raw, 24);
    let u = bit32(raw, 23);
    let byte = bit32(raw, 22);
    let w = bit32(raw, 21);
    let l = bit32(raw, 20);
    let rn_index = rn_of(raw);
    let rn = c.operand(rn_index);
    let rd = rd_of(raw);
    let offset = single_offset(c, raw);
    let moved = indexed(rn, offset, u);
    let address = if p { moved } else { rn };
    let forced = !p && w;
    let c1 = if forced { c.set_mode(0x10) } else { c };
    let c2 = if l { writeback(c1, rn_index, p, w, address, moved) } else { c1 };
    let c3 = if l {
        let data = if byte { b.read_8(address) as u32 } else { load32(b, address) };
        c2.set_reg(rd, load_value(rd, data))
    } else {
        c2
    };
    let b1 = if l {
        b
    } else if byte {
        b.write_8(address, store_value(c2, rd) as u8)
    } else {
        b.write_32(address & !3u32, store_value(c2, rd))
    };
    let c4 = if !l { writeback(c3, rn_index, p, w, address, moved) } else { c3 };
    let c5 = if forced { c4.set_mode(c.mode()) } else { c4 };
    (c5, b1, flush_if((l && rd == 15) || ((p && w || !p) && rn_index == 15)))
}

/// A byte sign-extended to 32 bits.
pub open spec fn sext8(x: u8) -> u32 {
    if x >= 0x80 { (x as u32) | 0xffff_ff00 } else { x as u32 }
}

/// A half-word sign-extended to 32 bits.
pub open spec fn sext16(x: u16) -> u32 {
    if x >= 0x8000 { (x as u32) | 0xffff_0000 } else { x as u32 }
}

/// The value an LDRH/LDRSH/LDRSB reads. An unaligned LDRSH reads a signed
/// byte; an unaligned LDRH reads the aligned half-word rotated by a byte.
pub open spec fn halfword_data(b: BusView, address: u32, h: bool, s: bool) -> u32 {
    if h {
        if s {
            if address & 1 == 0 { sext16(b.read_16(address)) } else { sext8(b.read_8(address)) }
        } else if address & 1 == 0 {
            b.read_16(address) as u32
        } else {
            rotr(b.read_16(address & !1u32) as u32, 8)
        }
    } else {
        sext8(b.read_8(address))
    }
}

/// STRH/LDRH/LDRSB/LDRSH.
pub open spec fn arm_halfword_transfer(c: CpuView, b: BusView, raw: u32) -> (CpuView, BusView, CpuResult) {
    let p = bit32(raw, 24);
    let u = bit32(raw, 23);
    let w = bit32(raw, 21);
    let l = bit32(raw, 20);
    let h = bit32(raw, 5);
    let s = bit32(raw, 6);
    let rn_index = rn_of(raw);
    let rn = c.operand(rn_index);
    let rd = rd_of(raw);
    let offset = if bit32(raw, 22) { (((raw >> 8) & 0xf) << 4) | (raw & 0xf) } else { c.operand(rm_of(raw)) };
    let moved = indexed(rn, offset, u);
    let address = if p { moved } else { rn };
    if l {
        let c1 = writeback(c, rn_index, p, w, address, moved);
        let c2 = c1.set_reg(rd, load_value(rd, halfword_data(b, address, h, s)));
        (c2, b, flush_if(rd == 15 || ((p && w || !p) && rn_index == 15)))
    } else {
        let b1 = b.write_16(address & !1u32, store_value(c, rd) as u16);
        let c1 = writeback(c, rn_index, p, w, address, moved);
        (c1, b1, flush_if((p && w || !p) && rn_index == 15))
    }
}

/// Number of set bits among bits `0 .. n` of `x`.
pub open spec fn popcount(x: u32, n: int) -> nat
    decreases n,
{
    if n <= 0 {
        0
    } else {
        popcount(x, n - 1) + if bit32(x, (n - 1) as u32) { 1nat } else { 0nat }
    }
}

/// Loads the listed registers among `i ..= 14` from consecutive words
/// starting at `address`; returns the state and the next address.
pub open spec fn ldm_regs(c: CpuView, b: BusView, list: u32, i: int, address: u32) -> (CpuView, u32)
    decreases 15 - i,
{
    if i >= 15 {
        (c, address)
    } else if bit32(list, i as u32) {
        ldm_regs(c.set_reg(i, load32(b, address)), b, list, i + 1, address.wrapping_add(4))
    } else {
        ldm_regs(c, b, list, i + 1, address)
    }
}

/// The value STM stores for register `i`: the first listed register, when
/// it is the base, is stored as the base value before write-back; the
/// program counter as the instruction address plus 12.
pub open spec fn stm_value(c: CpuView, i: int, first: bool, rn_index: int, rn: u32) -> u32 {
    if first && i == rn_index {
        rn
    } else {
        store_value(c, i)
    }
}

/// Stores the listed registers among `i ..= 15` to consecutive words
/// starting at `address`.
pub open spec fn stm_regs(
    c: CpuView,
    b: BusView,
    list: u32,
    i: int,
    address: u32,
    first: bool,
    rn_index: int,
    rn: u32,
) -> BusView
    decreases 16 - i,
{
    if i >= 16 {
        b
    } else if bit32(list, i as u32) {
        stm_regs(
            c,
            b.write_32(address, stm_value(c, i, first, rn_index, rn)),
            list,
            i + 1,
            address.wrapping_add(4),
            false,
            rn_index,
            rn,
        )
    } else {
        stm_regs(c, b, list, i + 1, address, first, rn_index, rn)
    }
}

/// LDM/STM. With an empty register list the program counter alone is
/// transferred and the base moves by 0x40. With the S bit, registers are
/// transferred from the User bank unless LDM loads the program counter, in
/// which case the CPSR is restored from the SPSR.
pub open spec fn arm_block_transfer(c: CpuView, b: BusView, raw: u32) -> (CpuView, BusView, CpuResult) {
    let p = bit32(raw, 24);
    let u = bit32(raw, 23);
    let s = bit32(raw, 22);
    let w = bit32(raw, 21);
    let l = bit32(raw, 20);
    let rn_index = rn_of(raw);
    let rn = c.operand(rn_index);
    let list = raw & 0xffff;
    let aligned = rn & !3u32;
    if list == 0 {
        let address = if u {
            if p { aligned.wrapping_add(4) } else { aligned }
        } else if p {
            aligned.wrapping_sub(0x40)
        } else {
            aligned.wrapping_sub(0x40).wrapping_add(4)
        };
        let c1 = if w { c.set_reg(rn_index, indexed(rn, 0x40, u)) } else { c };
        if l {
            (c1.set_reg(15, load32(b, address) & !3u32), b, CpuResult::FlushPipeline)
        } else {
            (c1, b.write_32(address, c1.operand(15).wrapping_add(4)), flush_if(w && rn_index == 15))
        }
    } else {
        let n = (4 * popcount(list, 16)) as u32;
        let start = if u {
            if p { aligned.wrapping_add(4) } else { aligned }
        } else if p {
            aligned.wrapping_sub(n)
        } else {
            aligned.wrapping_sub(n).wrapping_add(4)
        };
        let store_rn = bit32(list, rn_index as u32);
        let user_bank = s && (!l || !bit32(list, 15));
        let c1 = if user_bank { c.set_mode(0x10) } else { c };
        let c2 = if w && !(l && store_rn) { c1.set_reg(rn_index, indexed(rn, n, u)) } else { c1 };
        let c3 = if l {
            let (ca, next) = ldm_regs(c2, b, list, 0, start);
            if bit32(list, 15) {
                let cr = if s { restore_spsr(ca) } else { ca };
                cr.set_reg(15, load32(b, next) & !3u32)
            } else {
                ca
            }
        } else {
            c2
        };
        let b1 = if l { b } else { stm_regs(c2, b, list, 0, start, true, rn_index, rn) };
        let c4 = if user_bank { c3.set_mode(c.mode()) } else { c3 };
        (c4, b1, flush_if((l && bit32(list, 15)) || (w && !(l && store_rn) && rn_index == 15)))
    }
}

/// The block transfers the emulator defines: restoring the CPSR must lead
/// to a valid mode.
pub open spec fn block_defined(c: CpuView, raw: u32) -> bool {
    let list = raw & 0xffff;
    list == 0 || !(bit32(raw, 20) && bit32(list, 15) && bit32(raw, 22)) || restore_ok(c)
}

} // verus!

verus! {

fn apply_writeback(cpu: &mut CPU, rn_index: u8, p: bool, w: bool, address: u32, moved: u32)
    requires
        old(cpu)@.wf(),
        rn_index < 16,
    ensures
        final(cpu)@ == writeback(old(cpu)@, rn_index as int, p, w, address, moved),
        final(cpu)@.wf(),
{
    if p && w {
        // Pre Indexed
        cpu.set_register_value(rn_index, address);
    } else if !p {
        // Post Indexed
        cpu.set_register_value(rn_index, moved);
    }
}

fn stored_register(cpu: &CPU, rd_index: u8) -> (r: u32)
    requires
        cpu@.wf(),
        rd_index < 16,
    ensures
        r == store_value(cpu@, rd_index as int),
{
    if rd_index == PROGRAM_COUNTER_REGISTER {
        cpu.get_register_value(PROGRAM_COUNTER_REGISTER).wrapping_add(4)
    } else {
        cpu.get_register_value(rd_index)
    }
}

fn load_into(cpu: &mut CPU, rd_index: u8, data: u32)
    requires
        old(cpu)@.wf(),
        rd_index < 16,
    ensures
        final(cpu)@ == old(cpu)@.set_reg(rd_index as int, load_value(rd_index as int, data)),
        final(cpu)@.wf(),
{
    if rd_index == PROGRAM_COUNTER_REGISTER {
        cpu.set_register_value(rd_index, data & !0x3u32);
    } else {
        cpu.set_register_value(rd_index, data);
    }
}

fn execute_single_transfer(cpu: &mut CPU, bus: &mut SystemBus, instruction: ArmInstruction) -> (r: CpuResult)
    requires
        old(cpu)@.wf(),
        old(bus)@.wf(),
    ensures
        (final(cpu)@, final(bus)@, r) == arm_single_transfer(old(cpu)@, old(bus)@, instruction.0),
        final(cpu)@.wf(),
        final(bus)@.wf(),
{
    let i = instruction.bit(25);
    let p = instruction.bit(24);
    let u = instruction.bit(23);
    let b = instruction.bit(22);
    let w = instruction.bit(21);
    let l = instruction.bit(20);

    let rn_index = instruction.get_rn_index();
    let rn = cpu.get_register_value(rn_index);
    let rd_index = instruction.get_rd_index();
    let offset = if i {
        let rm = cpu.get_register_value(instruction.get_rm_index());
        let shift_type = instruction.get_shift_type();
        let shift = instruction.get_shift();
        shift_by_immediate(shift_type, rm, shift, cpu.get_cpsr().get_c()).0
    } else {
        // Immediate
        instruction.get_offset_12()
    };
    let moved = if u { rn.wrapping_add(offset) } else { rn.wrapping_sub(offset) };
    let address = if p { moved } else { rn };

    // Forced User Mode
    let old_mode = cpu.get_operating_mode();
    if !p && w {
        cpu.change_operating_mode(EOperatingMode::UserMode, old_mode);
    }
    if l {
        apply_writeback(cpu, rn_index, p, w, address, moved);
    }
    if b {
        if l {
            let data = bus.read_8(address) as u32;
            load_into(cpu, rd_index, data);
        } else {
            let rd = stored_register(cpu, rd_index);
            bus.write_8(address, rd as u8);
        }
    } else if l {
        let data = load_32_from_memory(bus, address);
        load_into(cpu, rd_index, data);
    } else {
        let rd = stored_register(cpu, rd_index);
        // Forced alignment
        bus.write_32(address & !0x0000_0003u32, rd);
    }
    if !l {
        apply_writeback(cpu, rn_index, p, w, address, moved);
    }
    // Restore Mode
    if !p && w {
        cpu.change_operating_mode(old_mode, EOperatingMode::UserMode);
    }
    if (l && rd_index == PROGRAM_COUNTER_REGISTER) || ((p && w || !p) && rn_index == PROGRAM_COUNTER_REGISTER) {
        CpuResult::FlushPipeline
    } else {
        CpuResult::Continue
    }
}

fn sign_extend_byte(x: u8) -> (r: u32)
    ensures
        r == sext8(x),
{
    if x >= 0x80 { (x as u32) | 0xffff_ff00 } else { x as u32 }
}

fn sign_extend_half(x: u16) -> (r: u32)
    ensures
        r == sext16(x),
{
    if x >= 0x8000 { (x as u32) | 0xffff_0000 } else { x as u32 }
}

pub(crate) fn read_halfword_data(bus: &SystemBus, address: u32, h: bool, s: bool) -> (r: u32)
    requires
        bus@.wf(),
    ensures
        r == halfword_data(bus@, address, h, s),
{
    if h {
        if s {
            if (address & 0x0000_0001) == 0 {
                sign_extend_half(bus.read_16(address))
            } else {
                // An unaligned signed half-word reads a signed byte.
                sign_extend_byte(bus.read_8(address))
            }
        } else if (address & 0x0000_0001) == 0 {
            bus.read_16(address) as u32
        } else {
            // Forced alignment and rotation of data.
            rotate_right(bus.read_16(address & !0x1u32) as u32, 8)
        }
    } else {
        sign_extend_byte(bus.read_8(address))
    }
}

fn execute_halfword_transfer(cpu: &mut CPU, bus: &mut SystemBus, instruction: ArmInstruction) -> (r: CpuResult)
    requires
        old(cpu)@.wf(),
        old(bus)@.wf(),
    ensures
        (final(cpu)@, final(bus)@, r) == arm_halfword_transfer(old(cpu)@, old(bus)@, instruction.0),
        final(cpu)@.wf(),
        final(bus)@.wf(),
{
    let i = instruction.bit(22);
    let p = instruction.bit(24);
    let u = instruction.bit(23);
    let w = instruction.bit(21);
    let l = instruction.bit(20);
    let h = instruction.bit(5);
    let s = instruction.bit(6);

    let rn_index = instruction.get_rn_index();
    let rn = cpu.get_register_value(rn_index);
    let rd_index = instruction.get_rd_index();
    let offset = if i {
        (((instruction.0 >> 8) & 0xf) << 4) | (instruction.0 & 0xf)
    } else {
        cpu.get_register_value(instruction.get_rm_index())
    };
    let moved = if u { rn.wrapping_add(offset) } else { rn.wrapping_sub(offset) };
    let address = if p { moved } else { rn };
    if l {
        apply_writeback(cpu, rn_index, p, w, address, moved);
        let data = read_halfword_data(bus, address, h, s);
        load_into(cpu, rd_index, data);
        if rd_index == PROGRAM_COUNTER_REGISTER || ((p && w || !p) && rn_index == PROGRAM_COUNTER_REGISTER) {
            CpuResult::FlushPipeline
        } else {
            CpuResult::Continue
        }
    } else {
        let rd = stored_register(cpu, rd_index);
        // Forced alignment
        bus.write_16(address & !0x1u32, rd as u16);
        apply_writeback(cpu, rn_index, p, w, address, moved);
        if (p && w || !p) && rn_index == PROGRAM_COUNTER_REGISTER {
            CpuResult::FlushPipeline
        } else {
            CpuResult::Continue
        }
    }
}

} // verus!

verus! {

/// Counts the set bits among bits `0 .. n` of `x`.
pub fn count_ones(x: u32, n: u32) -> (r: u32)
    requires
        n <= 32,
    ensures
        r == popcount(x, n as int),
        r <= n,
{
    let mut count: u32 = 0;
    let mut i: u32 = 0;
    while i < n
        invariant
            i <= n <= 32,
            count == popcount(x, i as int),
            count <= i,
        decreases n - i,
    {
        if (x >> i) & 1 == 1 {
            count = count + 1;
        }
        i = i + 1;
    }
    count
}

fn execute_block_transfer(cpu: &mut CPU, bus: &mut SystemBus, instruction: ArmInstruction) -> (r: CpuResult)
    requires
        old(cpu)@.wf(),
        old(bus)@.wf(),
        block_defined(old(cpu)@, instruction.0),
    ensures
        (final(cpu)@, final(bus)@, r) == arm_block_transfer(old(cpu)@, old(bus)@, instruction.0),
        final(cpu)@.wf(),
        final(bus)@.wf(),
{
    let p = instruction.bit(24);
    let u = instruction.bit(23);
    let w = instruction.bit(21);
    let l = instruction.bit(20);
    let s = instruction.bit(22);  // Reused from LDR/STR flag

    let rn_index = instruction.get_rn_index();
    let rn = cpu.get_register_value(rn_index);
    let reg_list = instruction.get_register_list() as u32;
    let aligned_rn = rn & !0x3u32;
    let ghost c0 = cpu@;
    let ghost b0 = bus@;
    if reg_list == 0 {
        // An empty list transfers the program counter alone.
        let address = if u {
            if p { aligned_rn.wrapping_add(4) } else { aligned_rn }
        } else if p {
            aligned_rn.wrapping_sub(0x40)
        } else {
            aligned_rn.wrapping_sub(0x40).wrapping_add(4)
        };
        if w {
            let base = if u { rn.wrapping_add(0x40) } else { rn.wrapping_sub(0x40) };
            cpu.set_register_value(rn_index, base);
        }
        if l {
            let value = load_32_from_memory(bus, address);
            cpu.set_register_value(PROGRAM_COUNTER_REGISTER, value & !0x3u32);
            return CpuResult::FlushPipeline;
        } else {
            let value = cpu.get_register_value(PROGRAM_COUNTER_REGISTER).wrapping_add(4);
            bus.write_32(address, value);
        }
        if w && rn_index == PROGRAM_COUNTER_REGISTER {
            CpuResult::FlushPipeline
        } else {
            CpuResult::Continue
        }
    } else {
        let count = count_ones(reg_list, 16);
        let n = 4 * count;
        let start_address = if u {
            if p { aligned_rn.wrapping_add(4) } else { aligned_rn }
        } else if p {
            aligned_rn.wrapping_sub(n)
        } else {
            aligned_rn.wrapping_sub(n).wrapping_add(4)
        };
        let store_rn = (reg_list >> (rn_index as u32)) & 1 == 1;
        let loads_pc = (reg_list >> 15) & 1 == 1;
        let user_bank_transfer = s && (!l || !loads_pc);

        let old_mode = cpu.get_operating_mode();
        if user_bank_transfer {
            cpu.change_operating_mode(EOperatingMode::UserMode, old_mode);
        }
        if w && !(l && store_rn) {
            let base = if u { rn.wrapping_add(n) } else { rn.wrapping_sub(n) };
            cpu.set_register_value(rn_index, base);
        }
        let ghost c2 = cpu@;
        let mut address = start_address;
        if l {
            let mut i: u8 = 0;
            while i < 15
                invariant
                    i <= 15,
                    cpu@.wf(),
                    bus@ == b0,
                    b0.wf(),
                    cpu@.cpsr == c2.cpsr,
                    cpu@.spsr == c2.spsr,
                    ldm_regs(c2, b0, reg_list, 0, start_address) == ldm_regs(
                        cpu@,
                        b0,
                        reg_list,
                        i as int,
                        address,
                    ),
                decreases 15 - i,
            {
                if (reg_list >> (i as u32)) & 1 == 1 {
                    let value = load_32_from_memory(bus, address);
                    cpu.set_register_value(i, value);
                    address = address.wrapping_add(4);
                }
                i = i + 1;
            }
            if loads_pc {
                if s {
                    cpu.restore_cpsr_from_spsr();
                }
                let value = load_32_from_memory(bus, address) & !0x3u32;
                cpu.set_register_value(PROGRAM_COUNTER_REGISTER, value);
            }
        } else {
            let mut first = true;
            let mut i: u8 = 0;
            while i < 16
                invariant
                    i <= 16,
                    cpu@ == c2,
                    c2.wf(),
                    bus@.wf(),
                    stm_regs(c2, b0, reg_list, 0, start_address, true, rn_index as int, rn)
                        == stm_regs(c2, bus@, reg_list, i as int, address, first, rn_index as int, rn),
                decreases 16 - i,
            {
                if (reg_list >> (i as u32)) & 1 == 1 {
                    let value = if first && i == rn_index {
                        rn
                    } else {
                        stored_register(cpu, i)
                    };
                    bus.write_32(address, value);
                    address = address.wrapping_add(4);
                    first = false;
                }
                i = i + 1;
            }
        }
        if user_bank_transfer {
            cpu.change_operating_mode(old_mode, EOperatingMode::UserMode);
        }
        if (l && loads_pc) || (w && !(l && store_rn) && rn_index == PROGRAM_COUNTER_REGISTER) {
            CpuResult::FlushPipeline
        } else {
            CpuResult::Continue
        }
    }
}

} // verus!

verus! {

/// The first operand, second operand and shifter carry of a data
/// processing instruction. With a register-specified shift, a program
/// counter operand reads 4 further ahead (Rn in preference to Rm).
pub open spec fn dp_operands(c: CpuView, raw: u32) -> (u32, u32, bool) {
    let rn = c.operand(rn_of(raw));
    if bit32(raw, 25) {
        let rot = (raw >> 8) & 0xf;
        let op = rotr(raw & 0xff, (rot * 2) as u32);
        (rn, op, if rot == 0 { c.flag_c() } else { bit32(op, 31) })
    } else {
        let rm = c.operand(rm_of(raw));
        let st = EShiftType::spec_from_bits(raw >> 5);
        if bit32(raw, 4) {
            let rs = c.operand(rs_of(raw)) & 0xff;
            let rn2 = if rn_of(raw) == 15 { rn.wrapping_add(4) } else { rn };
            let rm2 = if rn_of(raw) != 15 && rm_of(raw) == 15 { rm.wrapping_add(4) } else { rm };
            let (op, carry) = shift_reg(st, rm2, rs, c.flag_c());
            (rn2, op, carry)
        } else {
            let (op, carry) = shift_imm(st, rm, (raw >> 7) & 0x1f, c.flag_c());
            (rn, op, carry)
        }
    }
}

/// Result, carry and overflow of data processing opcode `opcode`.
/// Logical operations take the carry from the shifter. RSB reports the
/// overflow of `rn - op`.
pub open spec fn dp_compute(opcode: u32, rn: u32, op: u32, cflag: bool, scarry: bool) -> (u32, bool, bool) {
    if opcode == 0x0 || opcode == 0x8 {
        (rn & op, scarry, false)
    } else if opcode == 0x1 || opcode == 0x9 {
        (rn ^ op, scarry, false)
    } else if opcode == 0x2 || opcode == 0xa {
        sub_with_borrow(rn, op, false)
    } else if opcode == 0x3 {
        let (r, c, _v) = sub_with_borrow(op, rn, false);
        (r, c, sub_overflows(rn, op))
    } else if opcode == 0x4 || opcode == 0xb {
        add_with_carry(rn, op, false)
    } else if opcode == 0x5 {
        add_with_carry(rn, op, cflag)
    } else if opcode == 0x6 {
        sub_with_borrow(rn, op, !cflag)
    } else if opcode == 0x7 {
        sub_with_borrow(op, rn, !cflag)
    } else if opcode == 0xc {
        (rn | op, scarry, false)
    } else if opcode == 0xd {
        (op, scarry, false)
    } else if opcode == 0xe {
        (rn & !op, scarry, false)
    } else {
        (!op, scarry, false)
    }
}

/// Opcodes that write their result (all but TST, TEQ, CMP, CMN).
pub open spec fn dp_writes(opcode: u32) -> bool {
    opcode < 8 || opcode >= 0xc
}

/// Opcodes whose flags come from a logical result (no V flag).
pub open spec fn dp_logical(opcode: u32) -> bool {
    opcode == 0x0 || opcode == 0x1 || opcode == 0x8 || opcode == 0x9 || opcode >= 0xc
}

/// Whether the instruction reloads the CPSR from the SPSR: an S-suffixed
/// write to the program counter, or a compare with Rd = 15.
pub open spec fn dp_restores(raw: u32) -> bool {
    let opcode = (raw >> 21) & 0xf;
    if dp_writes(opcode) {
        bit32(raw, 20) && rd_of(raw) == 15
    } else {
        rd_of(raw) == 15
    }
}

/// AND, EOR, SUB, RSB, ADD, ADC, SBC, RSC, TST, TEQ, CMP, CMN, ORR, MOV,
/// BIC, MVN.
pub open spec fn arm_data_processing(c: CpuView, raw: u32) -> CpuView {
    let (rn, op, scarry) = dp_operands(c, raw);
    let s = bit32(raw, 20);
    let rd = rd_of(raw);
    let opcode = (raw >> 21) & 0xf;
    let (out, cf, vf) = dp_compute(opcode, rn, op, c.flag_c(), scarry);
    let c1 = if dp_writes(opcode) { c.set_reg(rd, out) } else { c };
    let c2 = if dp_restores(raw) { restore_spsr(c1) } else { c1 };
    let sets_flags = if dp_writes(opcode) { s && rd != 15 } else { true };
    if sets_flags {
        let cn = c2.set_n(bit32(out, 31)).set_z(out == 0).set_c(cf);
        if dp_logical(opcode) { cn } else { cn.set_v(vf) }
    } else {
        c2
    }
}

fn data_processing_operands(cpu: &CPU, instruction: ArmInstruction) -> (r: (u32, u32, bool))
    requires
        cpu@.wf(),
    ensures
        r == dp_operands(cpu@, instruction.0),
{
    let mut rn = cpu.get_register_value(instruction.get_rn_index());
    if instruction.bit(25) {
        let rot = instruction.get_rot_imm_8();
        let shifter_operand = rotate_right(instruction.get_imm_8(), rot * 2);
        let shifter_carry_out = if rot == 0 {
            cpu.get_cpsr().get_c()
        } else {
            (shifter_operand & 0x8000_0000) != 0
        };
        proof {
            crate::bits::lemma_bit_tests(shifter_operand);
        }
        (rn, shifter_operand, shifter_carry_out)
    } else {
        let rm_index = instruction.get_rm_index();
        let mut rm = cpu.get_register_value(rm_index);
        let shift_type = instruction.get_shift_type();
        if instruction.bit(4) {
            let rs = cpu.get_register_value(instruction.get_rs_index()) & 0x0000_00ff;
            // A program counter operand reads as the instruction address
            // plus 12 when the shift amount comes from a register.
            if instruction.get_rn_index() == PROGRAM_COUNTER_REGISTER {
                rn = rn.wrapping_add(4);
            } else if rm_index == PROGRAM_COUNTER_REGISTER {
                rm = rm.wrapping_add(4);
            }
            proof {
                crate::bits::lemma_and_le_u32(cpu@.operand(rs_of(instruction.0)), 0xff);
            }
            let (op, carry) = shift_by_register(shift_type, rm, rs, cpu.get_cpsr().get_c());
            (rn, op, carry)
        } else {
            let (op, carry) = shift_by_immediate(shift_type, rm, instruction.get_shift(), cpu.get_cpsr().get_c());
            (rn, op, carry)
        }
    }
}

fn data_processing_compute(opcode: u32, rn: u32, op: u32, cflag: bool, scarry: bool) -> (r: (u32, bool, bool))
    ensures
        r == dp_compute(opcode, rn, op, cflag, scarry),
{
    if opcode == 0x0 || opcode == 0x8 {
        (rn & op, scarry, false)
    } else if opcode == 0x1 || opcode == 0x9 {
        (rn ^ op, scarry, false)
    } else if opcode == 0x2 || opcode == 0xa {
        sub_borrow(rn, op, false)
    } else if opcode == 0x3 {
        // Overflow as for rn - op.
        let (r, c, _v) = sub_borrow(op, rn, false);
        let (_r2, _c2, v) = sub_borrow(rn, op, false);
        (r, c, v)
    } else if opcode == 0x4 || opcode == 0xb {
        add_carry(rn, op, false)
    } else if opcode == 0x5 {
        add_carry(rn, op, cflag)
    } else if opcode == 0x6 {
        sub_borrow(rn, op, !cflag)
    } else if opcode == 0x7 {
        sub_borrow(op, rn, !cflag)
    } else if opcode == 0xc {
        (rn | op, scarry, false)
    } else if opcode == 0xd {
        (op, scarry, false)
    } else if opcode == 0xe {
        (rn & !op, scarry, false)
    } else {
        (!op, scarry, false)
    }
}

fn execute_data_processing(cpu: &mut CPU, instruction: ArmInstruction)
    requires
        old(cpu)@.wf(),
        dp_restores(instruction.0) ==> restore_ok(old(cpu)@),
    ensures
        final(cpu)@ == arm_data_processing(old(cpu)@, instruction.0),
        final(cpu)@.wf(),
{
    let (rn, shifter_operand, shifter_carry_out) = data_processing_operands(cpu, instruction);
    let s = instruction.bit(20);
    let rd_index = instruction.get_rd_index();
    let opcode = (instruction.0 >> 21) & 0xf;
    let (alu_out, carry, overflow) = data_processing_compute(
        opcode,
        rn,
        shifter_operand,
        cpu.get_cpsr().get_c(),
        shifter_carry_out,
    );
    let writes = opcode < 8 || opcode >= 0xc;
    let logical = opcode == 0x0 || opcode == 0x1 || opcode == 0x8 || opcode == 0x9 || opcode >= 0xc;
    if writes {
        cpu.set_register_value(rd_index, alu_out);
    }
    let restores = if writes { s && rd_index == PROGRAM_COUNTER_REGISTER } else { rd_index == PROGRAM_COUNTER_REGISTER };
    if restores {
        cpu.restore_cpsr_from_spsr();
    }
    let sets_flags = if writes { s && rd_index != PROGRAM_COUNTER_REGISTER } else { true };
    if sets_flags {
        cpu.set_flag_n((alu_out >> 31) & 1 == 1);
        cpu.set_flag_z(alu_out == 0);
        cpu.set_flag_c(carry);
        if !logical {
            cpu.set_flag_v(overflow);
        }
    }
}

} // verus!

verus! {

/// The instruction classes, in the order the decoder tests them.
pub enum ArmClass {
    BranchExchange,
    Branch,
    Undefined,
    Swap,
    Multiply,
    StatusToRegister,
    RegisterToStatus,
    SingleTransfer,
    HalfwordTransfer,
    BlockTransfer,
    SoftwareInterrupt,
    DataProcessing,
    Unhandled,
}

pub open spec fn arm_class(raw: u32) -> ArmClass {
    if (0x0fff_fff0 & raw) == 0x012f_ff10 {
        ArmClass::BranchExchange
    } else if (0x0e00_0000 & raw) == 0x0a00_0000 {
        ArmClass::Branch
    } else if (0x0e00_0010 & raw) == 0x0600_0010 {
        ArmClass::Undefined
    } else if (0x0fb0_0ff0 & raw) == 0x0100_0090 {
        ArmClass::Swap
    } else if (0x0f00_00f0 & raw) == 0x0000_0090 {
        ArmClass::Multiply
    } else if (0x0fbf_0fff & raw) == 0x010f_0000 {
        ArmClass::StatusToRegister
    } else if (0x0db0_f000 & raw) == 0x0120_f000 {
        ArmClass::RegisterToStatus
    } else if (0x0c00_0000 & raw) == 0x0400_0000 {
        ArmClass::SingleTransfer
    } else if (0x0e00_0090 & raw) == 0x0000_0090 {
        ArmClass::HalfwordTransfer
    } else if (0x0e00_0000 & raw) == 0x0800_0000 {
        ArmClass::BlockTransfer
    } else if (0x0f00_0000 & raw) == 0x0f00_0000 {
        ArmClass::SoftwareInterrupt
    } else if (0x0c00_0000 & raw) == 0x0000_0000 {
        ArmClass::DataProcessing
    } else {
        ArmClass::Unhandled
    }
}

/// The effect of executing ARM instruction `raw`: the new processor and
/// bus states and whether the pipeline must be refilled. An instruction
/// whose condition fails does nothing.
pub open spec fn arm_step(c: CpuView, b: BusView, raw: u32) -> (CpuView, BusView, CpuResult) {
    if !cond_holds(c.cpsr, (raw >> 28) as u8) {
        (c, b, CpuResult::Continue)
    } else {
        match arm_class(raw) {
            ArmClass::BranchExchange => (arm_bx(c, raw), b, CpuResult::FlushPipeline),
            ArmClass::Branch => (arm_branch(c, raw), b, CpuResult::FlushPipeline),
            ArmClass::Undefined => (
                take_exception(c, EExceptionType::Undefined),
                b,
                CpuResult::FlushPipeline,
            ),
            ArmClass::Swap => arm_swap(c, b, raw),
            ArmClass::Multiply => (arm_multiply(c, raw), b, flush_if(rn_of(raw) == 15)),
            ArmClass::StatusToRegister => (arm_mrs(c, raw), b, flush_if(rd_of(raw) == 15)),
            ArmClass::RegisterToStatus => (arm_msr(c, raw), b, CpuResult::Continue),
            ArmClass::SingleTransfer => arm_single_transfer(c, b, raw),
            ArmClass::HalfwordTransfer => arm_halfword_transfer(c, b, raw),
            ArmClass::BlockTransfer => arm_block_transfer(c, b, raw),
            ArmClass::SoftwareInterrupt => (
                take_exception(c, EExceptionType::SoftwareInterrupt),
                b,
                CpuResult::FlushPipeline,
            ),
            ArmClass::DataProcessing => (arm_data_processing(c, raw), b, flush_if(rd_of(raw) == 15)),
            ArmClass::Unhandled => (c, b, CpuResult::Continue),
        }
    }
}

/// The instructions the emulator executes without stopping: multiplies
/// with an existing opcode, MSR forms that stay in a valid state, and
/// CPSR restores that lead to a valid mode.
pub open spec fn arm_defined(c: CpuView, raw: u32) -> bool {
    !cond_holds(c.cpsr, (raw >> 28) as u8) || match arm_class(raw) {
        ArmClass::Multiply => multiply_defined(raw),
        ArmClass::RegisterToStatus => msr_defined(c, raw),
        ArmClass::BlockTransfer => block_defined(c, raw),
        ArmClass::DataProcessing => dp_restores(raw) ==> restore_ok(c),
        _ => true,
    }
}

/// An ARM instruction whose condition fails leaves the processor and the
/// bus as they were and the pipeline running.
pub proof fn lemma_failed_condition_changes_nothing(c: CpuView, b: BusView, raw: u32)
    requires
        !cond_holds(c.cpsr, (raw >> 28) as u8),
    ensures
        arm_step(c, b, raw) == (c, b, CpuResult::Continue),
        arm_defined(c, raw),
{
}

/// Executes one ARM instruction.
pub fn execute_arm(cpu: &mut CPU, bus: &mut SystemBus, raw_instruction: u32) -> (r: CpuResult)
    requires
        old(cpu)@.wf(),
        old(bus)@.wf(),
        arm_defined(old(cpu)@, raw_instruction),
    ensures
        (final(cpu)@, final(bus)@, r) == arm_step(old(cpu)@, old(bus)@, raw_instruction),
        final(cpu)@.wf(),
        final(bus)@.wf(),
{
    let instruction = ArmInstruction(raw_instruction);
    proof {
        crate::bits::lemma_top_bits(raw_instruction, 0, 0);
    }
    if !cond_passed(cpu, instruction.get_cond()) {
        return CpuResult::Continue;
    }
    if (0x0fff_fff0 & raw_instruction) == 0x012f_ff10 {
        // BX
        execute_bx(cpu, instruction);
        CpuResult::FlushPipeline
    } else if (0x0e00_0000 & raw_instruction) == 0x0a00_0000 {
        // Branch
        execute_branch(cpu, instruction);
        CpuResult::FlushPipeline
    } else if (0x0e00_0010 & raw_instruction) == 0x0600_0010 {
        // Undefined instruction
        cpu.exception(EExceptionType::Undefined);
        CpuResult::FlushPipeline
    } else if (0x0fb0_0ff0 & raw_instruction) == 0x0100_0090 {
        // SWP/SWPB
        execute_swap(cpu, bus, instruction)
    } else if (0x0f00_00f0 & raw_instruction) == 0x0000_0090 {
        // MUL/MLA Multiply
        execute_multiply(cpu, instruction);
        if instruction.get_rn_index() == PROGRAM_COUNTER_REGISTER {
            CpuResult::FlushPipeline
        } else {
            CpuResult::Continue
        }
    } else if (0x0fbf_0fff & raw_instruction) == 0x010f_0000 {
        // MRS (PSR Transfer)
        execute_mrs(cpu, instruction);
        if instruction.get_rd_index() == PROGRAM_COUNTER_REGISTER {
            CpuResult::FlushPipeline
        } else {
            CpuResult::Continue
        }
    } else if (0x0db0_f000 & raw_instruction) == 0x0120_f000 {
        // MSR (PSR Transfer)
        execute_msr(cpu, instruction);
        CpuResult::Continue
    } else if (0x0c00_0000 & raw_instruction) == 0x0400_0000 {
        // LDR/STR Single Data Transfer
        execute_single_transfer(cpu, bus, instruction)
    } else if (0x0e00_0090 & raw_instruction) == 0x0000_0090 {
        // LDRSH/STRH Halfword, Signed Data Transfer
        execute_halfword_transfer(cpu, bus, instruction)
    } else if (0x0e00_0000 & raw_instruction) == 0x0800_0000 {
        // LDM/STM Load/Store multiple registers
        execute_block_transfer(cpu, bus, instruction)
    } else if (0x0f00_0000 & raw_instruction) == 0x0f00_0000 {
        // SWI Software Interrupt Exception
        cpu.exception(EExceptionType::SoftwareInterrupt);
        CpuResult::FlushPipeline
    } else if (0x0c00_0000 & raw_instruction) == 0x0000_0000 {
        // ALU
        execute_data_processing(cpu, instruction);
        if instruction.get_rd_index() == PROGRAM_COUNTER_REGISTER {
            CpuResult::FlushPipeline
        } else {
            CpuResult::Continue
        }
    } else {
        CpuResult::Continue
    }
}

} // verus!

verus! {

/// Whether restoring the CPSR from the current mode's SPSR leads to a valid
/// mode (see `restore_ok`).
fn restore_allowed(cpu: &CPU) -> (r: bool)
    requires
        cpu@.wf(),
    ensures
        r == restore_ok(cpu@),
{
    let mode = cpu.get_operating_mode();
    match mode {
        EOperatingMode::UserMode | EOperatingMode::SystemMode => true,
        _ => {
            let spsr = cpu.get_spsr(mode).get_value();
            proof {
                crate::arm7tdmi::lemma_mode_bits_round_trip(mode, spsr & 0x1f);
            }
            EOperatingMode::from_u32(spsr & 0x1f).is_some()
        },
    }
}

/// Whether an MSR instruction leaves the processor in a defined state (see
/// `msr_defined`).
fn msr_allowed(cpu: &CPU, instruction: ArmInstruction) -> (r: bool)
    requires
        cpu@.wf(),
    ensures
        r == msr_defined(cpu@, instruction.0),
{
    let f_mask = if instruction.bit(19) { 0xff00_0000u32 } else { 0x0000_0000 };
    let s_mask = if instruction.bit(18) { 0x00ff_0000u32 } else { 0x0000_0000 };
    let x_mask = if instruction.bit(17) { 0x0000_ff00u32 } else { 0x0000_0000 };
    let c_mask = if instruction.bit(16) { 0x0000_00ffu32 } else { 0x0000_0000 };
    let operand = if instruction.bit(25) {
        let rot = instruction.get_rot_imm_8();
        rotate_right(instruction.get_imm_8(), rot * 2)
    } else {
        cpu.get_register_value(instruction.get_rm_index())
    };
    let byte_mask = f_mask | s_mask | x_mask | c_mask;
    let mode = cpu.get_operating_mode();
    proof {
        crate::arm7tdmi::lemma_mode_bits_round_trip(mode, 0x10);
    }
    if !instruction.bit(22) {
        let user = mode == EOperatingMode::UserMode;
        let mask = if !user {
            byte_mask & (0xf000_0000u32 | 0x0000_00dfu32)
        } else {
            byte_mask & 0xf000_0000u32
        };
        let value = (cpu.get_cpsr().get_value() & !mask) | (operand & mask);
        proof {
            crate::arm7tdmi::lemma_mode_bits_round_trip(mode, value & 0x1f);
        }
        (user || operand & 0x20 == 0) && EOperatingMode::from_u32(value & 0x1f).is_some()
    } else {
        mode != EOperatingMode::UserMode && mode != EOperatingMode::SystemMode
    }
}

/// Whether `execute_arm` accepts `raw_instruction` in the processor's
/// present state (see `arm_defined`): the instructions on which it would
/// otherwise stop are refused here.
pub fn arm_instruction_defined(cpu: &CPU, raw_instruction: u32) -> (r: bool)
    requires
        cpu@.wf(),
    ensures
        r == arm_defined(cpu@, raw_instruction),
{
    let instruction = ArmInstruction(raw_instruction);
    proof {
        crate::bits::lemma_top_bits(raw_instruction, 0, 0);
    }
    if !cond_passed(cpu, instruction.get_cond()) {
        return true;
    }
    if (0x0fff_fff0 & raw_instruction) == 0x012f_ff10 || (0x0e00_0000 & raw_instruction) == 0x0a00_0000
        || (0x0e00_0010 & raw_instruction) == 0x0600_0010 || (0x0fb0_0ff0 & raw_instruction) == 0x0100_0090 {
        true
    } else if (0x0f00_00f0 & raw_instruction) == 0x0000_0090 {
        let op = (raw_instruction >> 21) & 7;
        op != 2 && op != 3
    } else if (0x0fbf_0fff & raw_instruction) == 0x010f_0000 {
        true
    } else if (0x0db0_f000 & raw_instruction) == 0x0120_f000 {
        msr_allowed(cpu, instruction)
    } else if (0x0c00_0000 & raw_instruction) == 0x0400_0000 || (0x0e00_0090 & raw_instruction) == 0x0000_0090 {
        true
    } else if (0x0e00_0000 & raw_instruction) == 0x0800_0000 {
        let list = raw_instruction & 0xffff;
        list == 0 || !(instruction.bit(20) && (list >> 15) & 1 == 1 && instruction.bit(22))
            || restore_allowed(cpu)
    } else if (0x0f00_0000 & raw_instruction) == 0x0f00_0000 {
        true
    } else if (0x0c00_0000 & raw_instruction) == 0x0000_0000 {
        let opcode = (raw_instruction >> 21) & 0xf;
        let rd_is_pc = instruction.get_rd_index() == PROGRAM_COUNTER_REGISTER;
        let restores = if opcode < 8 || opcode >= 0xc {
            instruction.bit(20) && rd_is_pc
        } else {
            rd_is_pc
        };
        !restores || restore_allowed(cpu)
    } else {
        true
    }
}

} // verus!

verus! {

/// Setting a condition flag leaves every register as the mode sees it.
pub(crate) proof fn lemma_flag_keeps_regs(x: CpuView, bit: u32, b: bool)
    requires
        28 <= bit <= 31,
    ensures
        forall|i: int| #[trigger] x.set_flag(bit, b).reg(i) == x.reg(i),
{
    crate::arm7tdmi::psr::lemma_with_bit_keeps_mode(x.cpsr, bit, b);
}

/// What a data processing instruction leaves in its destination register
/// Rd (other than the program counter), in terms of its first operand `rn`,
/// its shifter operand `op` and the carry flag before it: AND `rn & op`,
/// EOR `rn ^ op`, SUB `rn - op`, RSB `op - rn`, ADD `rn + op`, ADC
/// `rn + op + C`, SBC `rn - op - (1 - C)`, RSC `op - rn - (1 - C)` (the
/// arithmetic modulo 2^32), ORR `rn | op`, MOV `op`, BIC `rn & !op` and
/// MVN `!op`; TST, TEQ, CMP and CMN leave Rd as it was.
#[verifier::spinoff_prover]
pub proof fn lemma_data_processing_result(c: CpuView, raw: u32)
    requires
        c.regs.len() == 31,
        rd_of(raw) != 15,
    ensures
        ({
            let (rn, op, _) = dp_operands(c, raw);
            let rd = rd_of(raw);
            let r = arm_data_processing(c, raw).reg(rd);
            let opcode = (raw >> 21) & 0xf;
            let carry: int = if c.flag_c() { 1 } else { 0 };
            &&& opcode == 0x0 ==> r == rn & op
            &&& opcode == 0x1 ==> r == rn ^ op
            &&& opcode == 0x2 ==> r as int == (rn - op) % 0x1_0000_0000
            &&& opcode == 0x3 ==> r as int == (op - rn) % 0x1_0000_0000
            &&& opcode == 0x4 ==> r as int == (rn + op) % 0x1_0000_0000
            &&& opcode == 0x5 ==> r as int == (rn + op + carry) % 0x1_0000_0000
            &&& opcode == 0x6 ==> r as int == (rn - op - (1 - carry)) % 0x1_0000_0000
            &&& opcode == 0x7 ==> r as int == (op - rn - (1 - carry)) % 0x1_0000_0000
            &&& 0x8 <= opcode <= 0xb ==> r == c.reg(rd)
            &&& opcode == 0xc ==> r == rn | op
            &&& opcode == 0xd ==> r == op
            &&& opcode == 0xe ==> r == rn & !op
            &&& opcode == 0xf ==> r == !op
        }),
{
    let (rn, op, scarry) = dp_operands(c, raw);
    let rd = rd_of(raw);
    let opcode = (raw >> 21) & 0xf;
    let (out, cf, vf) = dp_compute(opcode, rn, op, c.flag_c(), scarry);
    crate::bits::lemma_and_le_u32(raw >> 12, 0xf);
    crate::arm7tdmi::cpu::lemma_register_read_after_write(c, rd, rd, out);
    let c1 = if dp_writes(opcode) { c.set_reg(rd, out) } else { c };
    assert(!dp_restores(raw));
    let n1 = c1.set_n(bit32(out, 31));
    let n2 = n1.set_z(out == 0);
    let n3 = n2.set_c(cf);
    lemma_flag_keeps_regs(c1, 31, bit32(out, 31));
    lemma_flag_keeps_regs(n1, 30, out == 0);
    lemma_flag_keeps_regs(n2, 29, cf);
    lemma_flag_keeps_regs(n3, 28, vf);
    assert(arm_data_processing(c, raw).reg(rd) == c1.reg(rd));
}

} // verus!

verus! {

/// An ARM branch with offset field `k` (bits 23..0) goes to the program
/// counter plus 8 plus four times `k` read as a signed 24-bit number,
/// modulo 2^32. With the link bit (BL) the return address, the program
/// counter plus 4, is left in LR; without it LR is kept.
#[verifier::spinoff_prover]
pub proof fn lemma_arm_branch_target(c: CpuView, raw: u32)
    requires
        c.regs.len() == 31,
        !c.thumb(),
    ensures
        ({
            let k = (raw & 0xff_ffff) as int;
            let offset = if k >= 0x80_0000 { k - 0x100_0000 } else { k };
            let c1 = arm_branch(c, raw);
            &&& c1.pc() as int == (c.pc() + 8 + 4 * offset) % 0x1_0000_0000
            &&& bit32(raw, 24) ==> c1.reg(14) as int == (c.pc() + 4) % 0x1_0000_0000
            &&& !bit32(raw, 24) ==> c1.reg(14) == c.reg(14)
        }),
{
    vstd::arithmetic::power2::lemma2_to64();
    let k = raw & 0xff_ffff;
    assert(k < 0x100_0000) by (bit_vector)
        requires
            k == raw & 0xff_ffff,
    ;
    let offset = sign_extended(k, 24);
    crate::arm7tdmi::thumb::lemma_i32_as_u32((offset * 4) as i32);
    let lr = c.pc().wrapping_add(4);
    crate::arm7tdmi::cpu::lemma_register_read_after_write(c, 14, 15, lr);
    let c1 = if bit32(raw, 24) { c.set_reg(14, lr) } else { c };
    crate::arm7tdmi::cpu::lemma_register_read_after_write(c1, 15, 14, c1.operand(15).wrapping_add(((offset * 4) as i32) as u32));
    crate::arm7tdmi::cpu::lemma_register_read_after_write(c1, 15, 15, c1.operand(15).wrapping_add(((offset * 4) as i32) as u32));
}

} // verus!

verus! {

/// The top bit of a word tells whether it is at least 2^31.
proof fn lemma_top_bit(x: u32)
    by (bit_vector)
    ensures
        bit32(x, 31) == (x >= 0x8000_0000),
{
}

/// The flags a data processing instruction sets (S bit set, Rd not the
/// program counter; the comparisons always set them). With `v` the exact
/// value of the operation on the first operand `rn`, the shifter operand
/// `op` and the carry `C` before it (`rn & op` for AND and TST, `rn ^ op`
/// for EOR and TEQ, `rn - op` for SUB and CMP, `op - rn` for RSB,
/// `rn + op` for ADD and CMN, `rn + op + C` for ADC, `rn - op - (1 - C)`
/// for SBC, `op - rn - (1 - C)` for RSC, `rn | op` for ORR, `op` for MOV,
/// `rn & !op` for BIC and `!op` for MVN) and `r` that value modulo 2^32:
/// N is set when `r >= 2^31`, Z when `r == 0`; C is the shifter's carry
/// for the logical operations, the carry out (`v >= 2^32`) for the
/// additions, and "no borrow" (`v >= 0`) for the subtractions.
#[verifier::spinoff_prover]
pub proof fn lemma_data_processing_flags(c: CpuView, raw: u32)
    requires
        c.regs.len() == 31,
        rd_of(raw) != 15,
        bit32(raw, 20),
    ensures
        ({
            let (rn, op, sc) = dp_operands(c, raw);
            let opcode = (raw >> 21) & 0xf;
            let carry: int = if c.flag_c() { 1 } else { 0 };
            let v: int = if opcode == 0x0 || opcode == 0x8 {
                (rn & op) as int
            } else if opcode == 0x1 || opcode == 0x9 {
                (rn ^ op) as int
            } else if opcode == 0x2 || opcode == 0xa {
                rn - op
            } else if opcode == 0x3 {
                op - rn
            } else if opcode == 0x4 || opcode == 0xb {
                rn + op
            } else if opcode == 0x5 {
                rn + op + carry
            } else if opcode == 0x6 {
                rn - op - (1 - carry)
            } else if opcode == 0x7 {
                op - rn - (1 - carry)
            } else if opcode == 0xc {
                (rn | op) as int
            } else if opcode == 0xd {
                op as int
            } else if opcode == 0xe {
                (rn & !op) as int
            } else {
                (!op) as int
            };
            let r = v % 0x1_0000_0000;
            let logical = opcode == 0x0 || opcode == 0x1 || opcode == 0x8 || opcode == 0x9 || opcode >= 0xc;
            let adds = opcode == 0x4 || opcode == 0x5 || opcode == 0xb;
            let cpsr = arm_data_processing(c, raw).cpsr;
            &&& bit32(cpsr, 31) == (r >= 0x8000_0000)
            &&& bit32(cpsr, 30) == (r == 0)
            &&& logical ==> bit32(cpsr, 29) == sc
            &&& adds ==> bit32(cpsr, 29) == (v >= 0x1_0000_0000)
            &&& !logical && !adds ==> bit32(cpsr, 29) == (v >= 0)
        }),
{
    let (rn, op, scarry) = dp_operands(c, raw);
    let rd = rd_of(raw);
    let opcode = (raw >> 21) & 0xf;
    let (out, cf, vf) = dp_compute(opcode, rn, op, c.flag_c(), scarry);
    crate::bits::lemma_and_le_u32(raw >> 21, 0xf);
    let c1 = if dp_writes(opcode) { c.set_reg(rd, out) } else { c };
    assert(!dp_restores(raw));
    let n1 = c1.set_n(bit32(out, 31));
    let n2 = n1.set_z(out == 0);
    let n3 = n2.set_c(cf);
    crate::bits::lemma_with_bit32(c1.cpsr, 31, bit32(out, 31));
    crate::bits::lemma_with_bit32(n1.cpsr, 30, out == 0);
    crate::bits::lemma_with_bit32(n2.cpsr, 29, cf);
    crate::bits::lemma_with_bit32(n3.cpsr, 28, vf);
    lemma_top_bit(out);
}

} // verus!

verus! {

/// The overflow flag of ADD, CMN, SUB, CMP and RSB (S bit set, Rd not the
/// program counter; the comparisons always set it), with the first operand
/// `rn` and the shifter operand `op`: for ADD and CMN, V is set when `rn`
/// and `op` have the same sign and `rn + op` (modulo 2^32) has the other;
/// for SUB and CMP, and for RSB, which reports the overflow of the same
/// difference, when `rn` and `op` differ in sign and `rn - op` (modulo
/// 2^32) differs in sign from `rn`.
#[verifier::spinoff_prover]
pub proof fn lemma_data_processing_overflow(c: CpuView, raw: u32)
    requires
        c.regs.len() == 31,
        rd_of(raw) != 15,
        bit32(raw, 20),
    ensures
        ({
            let (rn, op, _) = dp_operands(c, raw);
            let opcode = (raw >> 21) & 0xf;
            let v = bit32(arm_data_processing(c, raw).cpsr, 28);
            let rn_neg = rn >= 0x8000_0000;
            let op_neg = op >= 0x8000_0000;
            let sum_neg = (rn + op) % 0x1_0000_0000 >= 0x8000_0000;
            let diff_neg = (rn - op) % 0x1_0000_0000 >= 0x8000_0000;
            &&& (opcode == 0x4 || opcode == 0xb) ==> v == (rn_neg == op_neg && sum_neg != rn_neg)
            &&& (opcode == 0x2 || opcode == 0xa || opcode == 0x3) ==> v == (rn_neg != op_neg && diff_neg
                != rn_neg)
        }),
{
    let (rn, op, scarry) = dp_operands(c, raw);
    let rd = rd_of(raw);
    let opcode = (raw >> 21) & 0xf;
    let (out, cf, vf) = dp_compute(opcode, rn, op, c.flag_c(), scarry);
    crate::bits::lemma_and_le_u32(raw >> 21, 0xf);
    let c1 = if dp_writes(opcode) { c.set_reg(rd, out) } else { c };
    assert(!dp_restores(raw));
    let n3 = c1.set_n(bit32(out, 31)).set_z(out == 0).set_c(cf);
    crate::bits::lemma_with_bit32(n3.cpsr, 28, vf);
}

} // verus!
