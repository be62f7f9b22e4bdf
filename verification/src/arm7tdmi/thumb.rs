//! The THUMB (16-bit) instruction set.
use vstd::prelude::*;

use crate::bits::bit32;
use crate::arm7tdmi::alu::{
    rotr, rotate_right, asr, signed_shr, shift_imm, shift_reg, shift_by_immediate, shift_by_register,
    add_with_carry, sub_with_borrow, add_carry, sub_borrow, sub_overflows,
};
use crate::arm7tdmi::arm::{
    flush_if, popcount, count_ones, halfword_data, read_halfword_data, sext8, sext16,
};
use crate::arm7tdmi::cpu::{
    CPU, CpuView, take_exception, LINK_REGISTER_REGISTER, PROGRAM_COUNTER_REGISTER,
    STACK_POINTER_REGISTER,
};
use crate::arm7tdmi::{
    cond_holds, cond_passed, load32, load_32_from_memory, sign_extend, sign_extended, CpuResult,
    EExceptionType, EShiftType,
};
use crate::system::{BusView, SystemBus};

verus! {

/// The mask of the low `width` bits (1 to 4).
pub open spec fn low_mask(width: u16) -> u16 {
    if width == 1 {
        1
    } else if width == 2 {
        3
    } else if width == 3 {
        7
    } else {
        15
    }
}

/// Bits `lsb .. lsb + width` of a THUMB instruction.
pub open spec fn tf(ins: u16, lsb: u16, width: u16) -> int {
    ((ins >> lsb) & low_mask(width)) as int
}

pub open spec fn tbit(ins: u16, i: u16) -> bool {
    (ins >> i) & 1 == 1
}

/// N and Z from a result.
pub open spec fn set_nz(c: CpuView, out: u32) -> CpuView {
    c.set_n(bit32(out, 31)).set_z(out == 0)
}

/// N, Z and C.
pub open spec fn set_nzc(c: CpuView, out: u32, cf: bool) -> CpuView {
    set_nz(c, out).set_c(cf)
}

/// N, Z, C and V.
pub open spec fn set_nzcv(c: CpuView, out: u32, cf: bool, vf: bool) -> CpuView {
    set_nzc(c, out, cf).set_v(vf)
}

/// Arithmetic shift right by a register in THUMB state: amounts of 32 or
/// more fill with bit 0 of the operand and also take the carry from it.
pub open spec fn thumb_asr_reg(rd: u32, rs: u32, c: bool) -> (u32, bool) {
    if rs == 0 {
        (rd, c)
    } else if rs < 32 {
        (asr(rd, rs), bit32(rd, (rs - 1) as u32))
    } else {
        (if bit32(rd, 0) { 0xffff_ffff } else { 0 }, bit32(rd, 0))
    }
}

/// Format 2: ADD/SUB with a register or a 3-bit immediate.
pub open spec fn thumb_add_sub(c: CpuView, ins: u16) -> CpuView {
    let rn = c.operand(tf(ins, 3, 3));
    let rd = tf(ins, 0, 3);
    let operand = if tbit(ins, 10) { tf(ins, 6, 3) as u32 } else { c.operand(tf(ins, 6, 3)) };
    let (out, cf, vf) = if tbit(ins, 9) { sub_with_borrow(rn, operand, false) } else { add_with_carry(rn, operand, false) };
    set_nzcv(c.set_reg(rd, out), out, cf, vf)
}

/// Format 1: LSL/LSR/ASR by an immediate.
pub open spec fn thumb_shift_imm(c: CpuView, ins: u16) -> CpuView {
    let st = EShiftType::spec_from_bits(((ins >> 11) & 3) as u32);
    let rm = c.operand(tf(ins, 3, 3));
    let (out, cf) = shift_imm(st, rm, ((ins >> 6) & 0x1f) as u32, c.flag_c());
    set_nzc(c.set_reg(tf(ins, 0, 3), out), out, cf)
}

/// Format 3: MOV/CMP/ADD/SUB with an 8-bit immediate.
pub open spec fn thumb_alu_imm(c: CpuView, ins: u16) -> CpuView {
    let rd_index = tf(ins, 8, 3);
    let rd = c.operand(rd_index);
    let operand = (ins & 0xff) as u32;
    let op = (ins >> 11) & 3;
    if op == 0 {
        set_nz(c.set_reg(rd_index, operand), operand)
    } else if op == 1 {
        let (out, cf, vf) = sub_with_borrow(rd, operand, false);
        set_nzcv(c, out, cf, vf)
    } else if op == 2 {
        let (out, cf, vf) = add_with_carry(rd, operand, false);
        set_nzcv(c.set_reg(rd_index, out), out, cf, vf)
    } else {
        let (out, cf, vf) = sub_with_borrow(rd, operand, false);
        set_nzcv(c.set_reg(rd_index, out), out, cf, vf)
    }
}

/// Format 4: the sixteen register ALU operations.
pub open spec fn thumb_alu_reg(c: CpuView, ins: u16) -> CpuView {
    let rm = c.operand(tf(ins, 3, 3));
    let rd_index = tf(ins, 0, 3);
    let rd = c.operand(rd_index);
    let op = (ins >> 6) & 0xf;
    let cflag = c.flag_c();
    let rs = rm & 0xff;
    if op == 0x0 {
        set_nz(c.set_reg(rd_index, rd & rm), rd & rm)
    } else if op == 0x1 {
        set_nz(c.set_reg(rd_index, rd ^ rm), rd ^ rm)
    } else if op == 0x2 || op == 0x3 || op == 0x4 || op == 0x7 {
        let (out, cf) = if op == 0x2 {
            shift_reg(EShiftType::LSL, rd, rs, cflag)
        } else if op == 0x3 {
            shift_reg(EShiftType::LSR, rd, rs, cflag)
        } else if op == 0x4 {
            thumb_asr_reg(rd, rs, cflag)
        } else {
            shift_reg(EShiftType::ROR, rd, rs, cflag)
        };
        set_nzc(c.set_reg(rd_index, out), out, cf)
    } else if op == 0x5 || op == 0x6 {
        let (out, cf, vf) = if op == 0x5 { add_with_carry(rd, rm, cflag) } else { sub_with_borrow(rd, rm, !cflag) };
        set_nzcv(c.set_reg(rd_index, out), out, cf, vf)
    } else if op == 0x8 {
        set_nz(c, rd & rm)
    } else if op == 0x9 {
        let out = 0u32.wrapping_sub(rm);
        set_nzcv(c.set_reg(rd_index, out), out, true, sub_overflows(0, rm))
    } else if op == 0xa {
        let (out, cf, vf) = sub_with_borrow(rd, rm, false);
        set_nzcv(c, out, cf, vf)
    } else if op == 0xb {
        let (out, cf, vf) = add_with_carry(rd, rm, false);
        set_nzcv(c, out, cf, vf)
    } else if op == 0xc {
        set_nz(c.set_reg(rd_index, rd | rm), rd | rm)
    } else if op == 0xd {
        let out = rm.wrapping_mul(rd);
        set_nzc(c.set_reg(rd_index, out), out, false)
    } else if op == 0xe {
        set_nz(c.set_reg(rd_index, rd & !rm), rd & !rm)
    } else {
        set_nz(c.set_reg(rd_index, !rm), !rm)
    }
}

/// Format 5 BX: branch, entering ARM state (word-aligned target) when bit
/// 0 of the address is clear.
pub open spec fn thumb_bx(c: CpuView, ins: u16) -> CpuView {
    let rm = c.operand(tf(ins, 3, 4));
    let c1 = c.set_t(rm & 1 != 0);
    c1.set_reg(15, if rm & 1 != 0 { rm & !1u32 } else { rm & !3u32 })
}

/// The high-register operand index of format 5 (bit 7 extends Rd).
pub open spec fn hi_rd(ins: u16) -> int {
    tf(ins, 0, 3) + if tbit(ins, 7) { 8int } else { 0int }
}

/// Format 5 ADD/CMP/MOV on any registers (the flags only for CMP).
pub open spec fn thumb_hi_reg(c: CpuView, ins: u16) -> CpuView {
    let rm = c.operand(tf(ins, 3, 4));
    let rd_index = hi_rd(ins);
    let rd = c.operand(rd_index);
    let op = (ins >> 8) & 3;
    if op == 0 {
        c.set_reg(rd_index, rd.wrapping_add(rm))
    } else if op == 1 {
        let (out, cf, vf) = sub_with_borrow(rd, rm, false);
        set_nzcv(c, out, cf, vf)
    } else {
        c.set_reg(rd_index, rm)
    }
}

/// Format 6: LDR relative to the word-aligned program counter.
pub open spec fn thumb_ldr_pc(c: CpuView, b: BusView, ins: u16) -> CpuView {
    let address = (c.operand(15) & 0xffff_fffc).wrapping_add(((ins & 0xff) * 4) as u32);
    c.set_reg(tf(ins, 8, 3), b.read_32(address))
}

/// Formats 7 and 8: transfers with a register offset.
pub open spec fn thumb_transfer_reg(c: CpuView, b: BusView, ins: u16) -> (CpuView, BusView) {
    let rm = c.operand(tf(ins, 6, 3));
    let rn = c.operand(tf(ins, 3, 3));
    let rd = tf(ins, 0, 3);
    let address = rn.wrapping_add(rm);
    if !tbit(ins, 9) {
        // LDR/STR/LDRB/STRB
        let byte = tbit(ins, 10);
        if tbit(ins, 11) {
            (c.set_reg(rd, if byte { b.read_8(address) as u32 } else { load32(b, address) }), b)
        } else if byte {
            (c, b.write_8(address, c.operand(rd) as u8))
        } else {
            (c, b.write_32(address & !3u32, c.operand(rd)))
        }
    } else {
        // STRH/LDSB/LDRH/LDSH
        let op = (ins >> 10) & 3;
        if op == 0 {
            (c, b.write_16(address & !1u32, c.operand(rd) as u16))
        } else {
            (c.set_reg(rd, halfword_data(b, address, op != 1, op == 3)), b)
        }
    }
}

/// Format 9: LDR/STR/LDRB/STRB with a 5-bit immediate offset (scaled by
/// four for words).
pub open spec fn thumb_transfer_imm(c: CpuView, b: BusView, ins: u16) -> (CpuView, BusView) {
    let byte = tbit(ins, 12);
    let offset = ((ins >> 6) & 0x1f) as u32;
    let rn = c.operand(tf(ins, 3, 3));
    let rd = tf(ins, 0, 3);
    let address = if byte { rn.wrapping_add(offset) } else { rn.wrapping_add((offset * 4) as u32) };
    if tbit(ins, 11) {
        (c.set_reg(rd, if byte { b.read_8(address) as u32 } else { load32(b, address) }), b)
    } else if byte {
        (c, b.write_8(address, c.operand(rd) as u8))
    } else {
        (c, b.write_32(address & !3u32, c.operand(rd)))
    }
}

/// Format 10: LDRH/STRH with an immediate offset (scaled by two).
pub open spec fn thumb_transfer_half(c: CpuView, b: BusView, ins: u16) -> (CpuView, BusView) {
    let offset = ((ins >> 6) & 0x1f) as u32;
    let rn = c.operand(tf(ins, 3, 3));
    let rd = tf(ins, 0, 3);
    let address = rn.wrapping_add((offset * 2) as u32);
    if tbit(ins, 11) {
        (c.set_reg(rd, halfword_data(b, address, true, false)), b)
    } else {
        (c, b.write_16(address & !1u32, c.operand(rd) as u16))
    }
}

/// Format 11: LDR/STR relative to the stack pointer.
pub open spec fn thumb_transfer_sp(c: CpuView, b: BusView, ins: u16) -> (CpuView, BusView) {
    let rd = tf(ins, 8, 3);
    let address = c.operand(13).wrapping_add(((ins & 0xff) * 4) as u32);
    if tbit(ins, 11) {
        (c.set_reg(rd, load32(b, address)), b)
    } else {
        (c, b.write_32(address & !3u32, c.operand(rd)))
    }
}

/// Format 12: ADD Rd, SP/PC, #imm*4 (the program counter word-aligned).
pub open spec fn thumb_add_relative(c: CpuView, ins: u16) -> CpuView {
    let offset = ((ins & 0xff) * 4) as u32;
    let value = if tbit(ins, 11) {
        c.operand(13).wrapping_add(offset)
    } else {
        (c.operand(15) & !3u32).wrapping_add(offset)
    };
    c.set_reg(tf(ins, 8, 3), value)
}

/// Format 13: ADD/SUB SP, #imm*4.
pub open spec fn thumb_adjust_sp(c: CpuView, ins: u16) -> CpuView {
    let offset = ((ins & 0x7f) * 4) as u32;
    let sp = c.operand(13);
    c.set_reg(13, if tbit(ins, 7) { sp.wrapping_sub(offset) } else { sp.wrapping_add(offset) })
}

/// POP: loads the listed low registers among `i .. 8` from consecutive
/// (forcibly aligned) words.
pub open spec fn pop_regs(c: CpuView, b: BusView, list: u32, i: int, address: u32) -> (CpuView, u32)
    decreases 8 - i,
{
    if i >= 8 {
        (c, address)
    } else if bit32(list, i as u32) {
        pop_regs(c.set_reg(i, b.read_32(address & !3u32)), b, list, i + 1, address.wrapping_add(4))
    } else {
        pop_regs(c, b, list, i + 1, address)
    }
}

/// PUSH: stores the listed low registers among `i .. 8`.
pub open spec fn push_regs(c: CpuView, b: BusView, list: u32, i: int, address: u32) -> (BusView, u32)
    decreases 8 - i,
{
    if i >= 8 {
        (b, address)
    } else if bit32(list, i as u32) {
        push_regs(c, b.write_32(address & !3u32, c.operand(i)), list, i + 1, address.wrapping_add(4))
    } else {
        push_regs(c, b, list, i + 1, address)
    }
}

/// Format 14: PUSH {list, LR} / POP {list, PC}.
pub open spec fn thumb_push_pop(c: CpuView, b: BusView, ins: u16) -> (CpuView, BusView, CpuResult) {
    let r = tbit(ins, 8);
    let sp = c.operand(13);
    let list = (ins & 0xff) as u32;
    let total = (4 * ((if r { 1int } else { 0int }) + popcount(list, 8))) as u32;
    if tbit(ins, 11) {
        let (c1, next) = pop_regs(c, b, list, 0, sp);
        let c2 = if r { c1.set_reg(15, b.read_32(next & !3u32) & !1u32) } else { c1 };
        (c2.set_reg(13, sp.wrapping_add(total)), b, flush_if(r))
    } else {
        let start = sp.wrapping_sub(total);
        let (b1, next) = push_regs(c, b, list, 0, start);
        let b2 = if r { b1.write_32(next & !3u32, c.operand(14)) } else { b1 };
        (c.set_reg(13, start), b2, CpuResult::Continue)
    }
}

/// LDMIA: loads the listed registers among `i .. 8` from consecutive words.
pub open spec fn ldmia_regs(c: CpuView, b: BusView, list: u32, i: int, address: u32) -> CpuView
    decreases 8 - i,
{
    if i >= 8 {
        c
    } else if bit32(list, i as u32) {
        ldmia_regs(c.set_reg(i, b.read_32(address)), b, list, i + 1, address.wrapping_add(4))
    } else {
        ldmia_regs(c, b, list, i + 1, address)
    }
}

/// STMIA: stores the listed registers among `i .. 8`; the base register, when
/// it is the first listed, is stored with its value before write-back.
pub open spec fn stmia_regs(
    c: CpuView,
    b: BusView,
    list: u32,
    i: int,
    address: u32,
    first: bool,
    rn_index: int,
    rn: u32,
) -> BusView
    decreases 8 - i,
{
    if i >= 8 {
        b
    } else if bit32(list, i as u32) {
        stmia_regs(
            c,
            b.write_32(address, if first && i == rn_index { rn } else { c.operand(i) }),
            list,
            i + 1,
            address.wrapping_add(4),
            false,
            rn_index,
            rn,
        )
    } else {
        stmia_regs(c, b, list, i + 1, address, first, rn_index, rn)
    }
}

/// Format 15: LDMIA/STMIA Rb!, {list}. An empty list transfers the program
/// counter and moves the base by 0x40.
pub open spec fn thumb_multiple(c: CpuView, b: BusView, ins: u16) -> (CpuView, BusView) {
    let l = tbit(ins, 11);
    let rn_index = tf(ins, 8, 3);
    let rn = c.operand(rn_index);
    let list = (ins & 0xff) as u32;
    if list == 0 {
        let address = rn & !3u32;
        let c1 = c.set_reg(rn_index, rn.wrapping_add(0x40));
        if l {
            (c1.set_reg(15, load32(b, address)), b)
        } else {
            (c1, b.write_32(address, c1.operand(15).wrapping_add(2)))
        }
    } else {
        let n = (4 * popcount(list, 8)) as u32;
        let store_rn = bit32(list, rn_index as u32);
        let c1 = if !(l && store_rn) { c.set_reg(rn_index, rn.wrapping_add(n)) } else { c };
        if l {
            (ldmia_regs(c1, b, list, 0, rn), b)
        } else {
            (c1, stmia_regs(c1, b, list, 0, rn, true, rn_index, rn))
        }
    }
}

/// Format 16: conditional branch by a signed 8-bit half-word offset.
pub open spec fn thumb_cond_branch(c: CpuView, ins: u16) -> (CpuView, CpuResult) {
    if cond_holds(c.cpsr, ((ins >> 8) & 0xf) as u8) {
        let offset = sign_extended((ins & 0xff) as u32, 8) * 2;
        (c.set_reg(15, c.operand(15).wrapping_add((offset as i32) as u32)), CpuResult::FlushPipeline)
    } else {
        (c, CpuResult::Continue)
    }
}

/// Format 18: unconditional branch by a signed 11-bit half-word offset.
pub open spec fn thumb_branch(c: CpuView, ins: u16) -> CpuView {
    let offset = sign_extended((ins & 0x7ff) as u32, 11) * 2;
    c.set_reg(15, c.operand(15).wrapping_add((offset as i32) as u32))
}

/// Format 19: the two halves of BL. The first adds the upper offset to the
/// program counter into LR; the second branches to LR plus the lower
/// offset and leaves the return address (with bit 0 set) in LR.
pub open spec fn thumb_long_branch(c: CpuView, ins: u16) -> (CpuView, CpuResult) {
    let pc = c.operand(15);
    if !tbit(ins, 11) {
        let offset = sign_extended((ins & 0x7ff) as u32, 11) * 4096;
        (c.set_reg(14, pc.wrapping_add((offset as i32) as u32)), CpuResult::Continue)
    } else {
        let offset = ((ins & 0x7ff) as u32) * 2;
        let lr = c.operand(14);
        let c1 = c.set_reg(15, lr.wrapping_add(offset as u32));
        (c1.set_reg(14, pc.wrapping_sub(2) | 1), CpuResult::FlushPipeline)
    }
}

} // verus!

verus! {

fn field(ins: u16, lsb: u16, width: u16) -> (r: u8)
    requires
        lsb < 16,
        1 <= width <= 4,
    ensures
        r == tf(ins, lsb, width),
        r < 16,
        width == 3 ==> r < 8,
{
    let mask: u16 = if width == 1 {
        1
    } else if width == 2 {
        3
    } else if width == 3 {
        7
    } else {
        15
    };
    proof {
        crate::bits::lemma_and_le_u16(ins >> lsb, mask);
    }
    ((ins >> lsb) & mask) as u8
}

fn flag(ins: u16, i: u16) -> (r: bool)
    requires
        i < 16,
    ensures
        r == tbit(ins, i),
{
    (ins >> i) & 1 == 1
}

fn update_nz(cpu: &mut CPU, out: u32)
    requires
        old(cpu)@.wf(),
    ensures
        final(cpu)@ == set_nz(old(cpu)@, out),
        final(cpu)@.wf(),
{
    cpu.set_flag_n((out & 0x8000_0000) != 0);
    proof {
        crate::bits::lemma_bit_tests(out);
    }
    cpu.set_flag_z(out == 0);
}

fn update_nzc(cpu: &mut CPU, out: u32, carry: bool)
    requires
        old(cpu)@.wf(),
    ensures
        final(cpu)@ == set_nzc(old(cpu)@, out, carry),
        final(cpu)@.wf(),
{
    update_nz(cpu, out);
    cpu.set_flag_c(carry);
}

fn update_nzcv(cpu: &mut CPU, out: u32, carry: bool, overflow: bool)
    requires
        old(cpu)@.wf(),
    ensures
        final(cpu)@ == set_nzcv(old(cpu)@, out, carry, overflow),
        final(cpu)@.wf(),
{
    update_nzc(cpu, out, carry);
    cpu.set_flag_v(overflow);
}

fn execute_add_sub(cpu: &mut CPU, instruction: u16)
    requires
        old(cpu)@.wf(),
    ensures
        final(cpu)@ == thumb_add_sub(old(cpu)@, instruction),
        final(cpu)@.wf(),
{
    let is_sub = flag(instruction, 9);
    let i = flag(instruction, 10);
    let rn = cpu.get_register_value(field(instruction, 3, 3));
    let rd_index = field(instruction, 0, 3);
    let operand = if i {
        field(instruction, 6, 3) as u32
    } else {
        cpu.get_register_value(field(instruction, 6, 3))
    };
    let (alu_out, carry, overflow) = if is_sub {
        sub_borrow(rn, operand, false)
    } else {
        add_carry(rn, operand, false)
    };
    cpu.set_register_value(rd_index, alu_out);
    update_nzcv(cpu, alu_out, carry, overflow);
}

fn execute_shift_imm(cpu: &mut CPU, instruction: u16)
    requires
        old(cpu)@.wf(),
        (instruction >> 11) & 3 != 3,
    ensures
        final(cpu)@ == thumb_shift_imm(old(cpu)@, instruction),
        final(cpu)@.wf(),
{
    proof {
        crate::bits::lemma_and_le_u16(instruction >> 11, 3);
        crate::bits::lemma_and_le_u16(instruction >> 6, 0x1f);
    }
    let shift_type = EShiftType::from_bits(((instruction >> 11) & 3) as u32);
    let offset = ((instruction >> 6) & 0x1f) as u32;
    let rd_index = field(instruction, 0, 3);
    let rm = cpu.get_register_value(field(instruction, 3, 3));
    let (alu_out, shifter_carry_out) = shift_by_immediate(shift_type, rm, offset, cpu.get_cpsr().get_c());
    cpu.set_register_value(rd_index, alu_out);
    update_nzc(cpu, alu_out, shifter_carry_out);
}

fn execute_alu_imm(cpu: &mut CPU, instruction: u16)
    requires
        old(cpu)@.wf(),
    ensures
        final(cpu)@ == thumb_alu_imm(old(cpu)@, instruction),
        final(cpu)@.wf(),
{
    let rd_index = field(instruction, 8, 3);
    let rd = cpu.get_register_value(rd_index);
    let operand = (instruction & 0xff) as u32;
    let op = (instruction >> 11) & 3;
    if op == 0 {
        // MOV
        cpu.set_register_value(rd_index, operand);
        update_nz(cpu, operand);
    } else if op == 1 {
        // CMP
        let (alu_out, carry, overflow) = sub_borrow(rd, operand, false);
        update_nzcv(cpu, alu_out, carry, overflow);
    } else if op == 2 {
        // ADD
        let (alu_out, carry, overflow) = add_carry(rd, operand, false);
        cpu.set_register_value(rd_index, alu_out);
        update_nzcv(cpu, alu_out, carry, overflow);
    } else {
        // SUB
        let (alu_out, carry, overflow) = sub_borrow(rd, operand, false);
        cpu.set_register_value(rd_index, alu_out);
        update_nzcv(cpu, alu_out, carry, overflow);
    }
}

fn thumb_asr_by_register(rd: u32, rs: u32, c: bool) -> (r: (u32, bool))
    requires
        rs < 256,
    ensures
        r == thumb_asr_reg(rd, rs, c),
{
    if rs == 0 {
        (rd, c)
    } else if rs < 32 {
        (signed_shr(rd, rs), (rd >> (rs - 1)) & 1 == 1)
    } else {
        let carry = (rd & 0x0000_0001) != 0;
        proof {
            crate::bits::lemma_bit_tests(rd);
        }
        (if carry { 0xffff_ffff } else { 0 }, carry)
    }
}

fn execute_alu_reg(cpu: &mut CPU, instruction: u16)
    requires
        old(cpu)@.wf(),
    ensures
        final(cpu)@ == thumb_alu_reg(old(cpu)@, instruction),
        final(cpu)@.wf(),
{
    let rm = cpu.get_register_value(field(instruction, 3, 3));
    let rd_index = field(instruction, 0, 3);
    let rd = cpu.get_register_value(rd_index);
    let op = (instruction >> 6) & 0xf;
    let c = cpu.get_cpsr().get_c();
    let rs = rm & 0x0000_00ff;
    proof {
        crate::bits::lemma_and_le_u32(rm, 0xff);
    }
    if op == 0x0 {
        // AND
        cpu.set_register_value(rd_index, rd & rm);
        update_nz(cpu, rd & rm);
    } else if op == 0x1 {
        // EOR
        cpu.set_register_value(rd_index, rd ^ rm);
        update_nz(cpu, rd ^ rm);
    } else if op == 0x2 || op == 0x3 || op == 0x4 || op == 0x7 {
        // LSL / LSR / ASR / ROR
        let (alu_out, shifter_carry_out) = if op == 0x2 {
            shift_by_register(EShiftType::LSL, rd, rs, c)
        } else if op == 0x3 {
            shift_by_register(EShiftType::LSR, rd, rs, c)
        } else if op == 0x4 {
            thumb_asr_by_register(rd, rs, c)
        } else {
            shift_by_register(EShiftType::ROR, rd, rs, c)
        };
        cpu.set_register_value(rd_index, alu_out);
        update_nzc(cpu, alu_out, shifter_carry_out);
    } else if op == 0x5 || op == 0x6 {
        // ADC / SBC
        let (alu_out, carry, overflow) = if op == 0x5 { add_carry(rd, rm, c) } else { sub_borrow(rd, rm, !c) };
        cpu.set_register_value(rd_index, alu_out);
        update_nzcv(cpu, alu_out, carry, overflow);
    } else if op == 0x8 {
        // TST
        update_nz(cpu, rd & rm);
    } else if op == 0x9 {
        // NEG
        let (alu_out, _carry, overflow) = sub_borrow(0, rm, false);
        cpu.set_register_value(rd_index, alu_out);
        // No carry can occur from 0
        update_nzcv(cpu, alu_out, true, overflow);
    } else if op == 0xa {
        // CMP
        let (alu_out, carry, overflow) = sub_borrow(rd, rm, false);
        update_nzcv(cpu, alu_out, carry, overflow);
    } else if op == 0xb {
        // CMN
        let (alu_out, carry, overflow) = add_carry(rd, rm, false);
        update_nzcv(cpu, alu_out, carry, overflow);
    } else if op == 0xc {
        // ORR
        cpu.set_register_value(rd_index, rd | rm);
        update_nz(cpu, rd | rm);
    } else if op == 0xd {
        // MUL
        let alu_out = rm.wrapping_mul(rd);
        cpu.set_register_value(rd_index, alu_out);
        update_nzc(cpu, alu_out, false);
    } else if op == 0xe {
        // BIC
        cpu.set_register_value(rd_index, rd & !rm);
        update_nz(cpu, rd & !rm);
    } else {
        // MVN
        cpu.set_register_value(rd_index, !rm);
        update_nz(cpu, !rm);
    }
}

fn execute_bx(cpu: &mut CPU, instruction: u16)
    requires
        old(cpu)@.wf(),
    ensures
        final(cpu)@ == thumb_bx(old(cpu)@, instruction),
        final(cpu)@.wf(),
{
    let rm = cpu.get_register_value(field(instruction, 3, 4));
    cpu.set_flag_t((0x1 & rm) != 0);
    proof {
        crate::bits::lemma_bit_tests(rm);
    }
    // Enforce alignment
    let address = if cpu.get_cpsr().get_t() { rm & !0x1u32 } else { rm & !0x3u32 };
    proof {
        crate::bits::lemma_with_bit32(old(cpu)@.cpsr, 5, (rm & 1) != 0);
    }
    cpu.set_register_value(PROGRAM_COUNTER_REGISTER, address);
}

fn execute_hi_reg(cpu: &mut CPU, instruction: u16)
    requires
        old(cpu)@.wf(),
        (instruction >> 8) & 3 != 3,
    ensures
        final(cpu)@ == thumb_hi_reg(old(cpu)@, instruction),
        final(cpu)@.wf(),
{
    let rm = cpu.get_register_value(field(instruction, 3, 4));
    let rd_index = field(instruction, 0, 3) + if flag(instruction, 7) { 8 } else { 0 };
    let rd = cpu.get_register_value(rd_index);
    let op = (instruction >> 8) & 3;
    if op == 0 {
        // ADD
        cpu.set_register_value(rd_index, rd.wrapping_add(rm));
    } else if op == 1 {
        // CMP
        let (alu_out, carry, overflow) = sub_borrow(rd, rm, false);
        update_nzcv(cpu, alu_out, carry, overflow);
    } else {
        // MOV
        cpu.set_register_value(rd_index, rm);
    }
}

fn execute_ldr_pc(cpu: &mut CPU, bus: &SystemBus, instruction: u16)
    requires
        old(cpu)@.wf(),
        bus@.wf(),
    ensures
        final(cpu)@ == thumb_ldr_pc(old(cpu)@, bus@, instruction),
        final(cpu)@.wf(),
{
    let rd_index = field(instruction, 8, 3);
    proof {
        crate::bits::lemma_and_le_u16(instruction, 0xff);
    }
    let operand = (instruction & 0x00ff) as u32;
    let address = (cpu.get_register_value(PROGRAM_COUNTER_REGISTER) & 0xffff_fffc).wrapping_add(operand * 4);
    let value = bus.read_32(address);
    cpu.set_register_value(rd_index, value);
}

fn execute_transfer_reg(cpu: &mut CPU, bus: &mut SystemBus, instruction: u16)
    requires
        old(cpu)@.wf(),
        old(bus)@.wf(),
    ensures
        (final(cpu)@, final(bus)@) == thumb_transfer_reg(old(cpu)@, old(bus)@, instruction),
        final(cpu)@.wf(),
        final(bus)@.wf(),
{
    let rm = cpu.get_register_value(field(instruction, 6, 3));
    let rn = cpu.get_register_value(field(instruction, 3, 3));
    let rd_index = field(instruction, 0, 3);
    let address = rn.wrapping_add(rm);
    if !flag(instruction, 9) {
        let l = flag(instruction, 11);
        let b = flag(instruction, 10);
        if l {
            let data = if b { bus.read_8(address) as u32 } else { load_32_from_memory(bus, address) };
            cpu.set_register_value(rd_index, data);
        } else {
            let rd = cpu.get_register_value(rd_index);
            if b {
                bus.write_8(address, rd as u8);
            } else {
                // Forced alignment
                bus.write_32(address & !0x3u32, rd);
            }
        }
    } else {
        let op = (instruction >> 10) & 3;
        if op == 0 {
            // STRH, forced alignment
            let rd = cpu.get_register_value(rd_index);
            bus.write_16(address & !0x1u32, rd as u16);
        } else {
            // LDSB / LDRH / LDSH
            let data = read_halfword_data(bus, address, op != 1, op == 3);
            cpu.set_register_value(rd_index, data);
        }
    }
}

fn execute_transfer_imm(cpu: &mut CPU, bus: &mut SystemBus, instruction: u16)
    requires
        old(cpu)@.wf(),
        old(bus)@.wf(),
    ensures
        (final(cpu)@, final(bus)@) == thumb_transfer_imm(old(cpu)@, old(bus)@, instruction),
        final(cpu)@.wf(),
        final(bus)@.wf(),
{
    let b = flag(instruction, 12);
    let l = flag(instruction, 11);
    proof {
        crate::bits::lemma_and_le_u16(instruction >> 6, 0x1f);
    }
    let offset = ((instruction >> 6) & 0x1f) as u32;
    let rn = cpu.get_register_value(field(instruction, 3, 3));
    let rd_index = field(instruction, 0, 3);
    let address = if b { rn.wrapping_add(offset) } else { rn.wrapping_add(offset * 4) };
    if l {
        let data = if b { bus.read_8(address) as u32 } else { load_32_from_memory(bus, address) };
        cpu.set_register_value(rd_index, data);
    } else {
        let rd = cpu.get_register_value(rd_index);
        if b {
            bus.write_8(address, rd as u8);
        } else {
            // Forced alignment
            bus.write_32(address & !0x3u32, rd);
        }
    }
}

fn execute_transfer_half(cpu: &mut CPU, bus: &mut SystemBus, instruction: u16)
    requires
        old(cpu)@.wf(),
        old(bus)@.wf(),
    ensures
        (final(cpu)@, final(bus)@) == thumb_transfer_half(old(cpu)@, old(bus)@, instruction),
        final(cpu)@.wf(),
        final(bus)@.wf(),
{
    let l = flag(instruction, 11);
    proof {
        crate::bits::lemma_and_le_u16(instruction >> 6, 0x1f);
    }
    let offset = ((instruction >> 6) & 0x1f) as u32;
    let rn = cpu.get_register_value(field(instruction, 3, 3));
    let rd_index = field(instruction, 0, 3);
    let address = rn.wrapping_add(offset * 2);
    if l {
        let data = read_halfword_data(bus, address, true, false);
        cpu.set_register_value(rd_index, data);
    } else {
        let rd = cpu.get_register_value(rd_index);
        // Forced alignment
        bus.write_16(address & !0x1u32, rd as u16);
    }
}

fn execute_transfer_sp(cpu: &mut CPU, bus: &mut SystemBus, instruction: u16)
    requires
        old(cpu)@.wf(),
        old(bus)@.wf(),
    ensures
        (final(cpu)@, final(bus)@) == thumb_transfer_sp(old(cpu)@, old(bus)@, instruction),
        final(cpu)@.wf(),
        final(bus)@.wf(),
{
    let l = flag(instruction, 11);
    proof {
        crate::bits::lemma_and_le_u16(instruction, 0xff);
    }
    let offset = (instruction & 0x00ff) as u32;
    let rd_index = field(instruction, 8, 3);
    let address = cpu.get_register_value(STACK_POINTER_REGISTER).wrapping_add(offset * 4);
    if l {
        let data = load_32_from_memory(bus, address);
        cpu.set_register_value(rd_index, data);
    } else {
        let rd = cpu.get_register_value(rd_index);
        // Forced alignment
        bus.write_32(address & !0x3u32, rd);
    }
}

fn execute_add_relative(cpu: &mut CPU, instruction: u16)
    requires
        old(cpu)@.wf(),
    ensures
        final(cpu)@ == thumb_add_relative(old(cpu)@, instruction),
        final(cpu)@.wf(),
{
    let sp = flag(instruction, 11);
    let rd_index = field(instruction, 8, 3);
    proof {
        crate::bits::lemma_and_le_u16(instruction, 0xff);
    }
    let operand = (instruction & 0x00ff) as u32;
    let value = if sp {
        cpu.get_register_value(STACK_POINTER_REGISTER).wrapping_add(operand * 4)
    } else {
        (cpu.get_register_value(PROGRAM_COUNTER_REGISTER) & !0x3u32).wrapping_add(operand * 4)
    };
    cpu.set_register_value(rd_index, value);
}

fn execute_adjust_sp(cpu: &mut CPU, instruction: u16)
    requires
        old(cpu)@.wf(),
    ensures
        final(cpu)@ == thumb_adjust_sp(old(cpu)@, instruction),
        final(cpu)@.wf(),
{
    let is_sub = flag(instruction, 7);
    proof {
        crate::bits::lemma_and_le_u16(instruction, 0x7f);
    }
    let operand = (instruction & 0x007f) as u32;
    let sp = cpu.get_register_value(STACK_POINTER_REGISTER);
    if is_sub {
        cpu.set_register_value(STACK_POINTER_REGISTER, sp.wrapping_sub(operand * 4));
    } else {
        cpu.set_register_value(STACK_POINTER_REGISTER, sp.wrapping_add(operand * 4));
    }
}

fn execute_push_pop(cpu: &mut CPU, bus: &mut SystemBus, instruction: u16) -> (r: CpuResult)
    requires
        old(cpu)@.wf(),
        old(bus)@.wf(),
    ensures
        (final(cpu)@, final(bus)@, r) == thumb_push_pop(old(cpu)@, old(bus)@, instruction),
        final(cpu)@.wf(),
        final(bus)@.wf(),
{
    let pop = flag(instruction, 11);
    let r = flag(instruction, 8);
    let sp = cpu.get_register_value(STACK_POINTER_REGISTER);
    let reg_list = (instruction & 0x00ff) as u32;
    let count = count_ones(reg_list, 8);
    let total = 4 * ((if r { 1u32 } else { 0u32 }) + count);
    let ghost c0 = cpu@;
    let ghost b0 = bus@;
    if pop {
        // Forced alignment
        let mut address = sp;
        let mut i: u8 = 0;
        while i < 8
            invariant
                i <= 8,
                cpu@.wf(),
                bus@ == b0,
                b0.wf(),
                pop_regs(c0, b0, reg_list, 0, sp) == pop_regs(cpu@, b0, reg_list, i as int, address),
            decreases 8 - i,
        {
            if (reg_list >> (i as u32)) & 1 == 1 {
                let value = bus.read_32(address & !0x3u32);
                cpu.set_register_value(i, value);
                address = address.wrapping_add(4);
            }
            i = i + 1;
        }
        if r {
            let value = bus.read_32(address & !0x3u32) & !0x1u32;
            cpu.set_register_value(PROGRAM_COUNTER_REGISTER, value);
        }
        cpu.set_register_value(STACK_POINTER_REGISTER, sp.wrapping_add(total));
        if r {
            CpuResult::FlushPipeline
        } else {
            CpuResult::Continue
        }
    } else {
        // Forced alignment
        let start_address = sp.wrapping_sub(total);
        let mut address = start_address;
        let mut i: u8 = 0;
        while i < 8
            invariant
                i <= 8,
                cpu@ == c0,
                c0.wf(),
                bus@.wf(),
                push_regs(c0, b0, reg_list, 0, start_address) == push_regs(c0, bus@, reg_list, i as int, address),
            decreases 8 - i,
        {
            if (reg_list >> (i as u32)) & 1 == 1 {
                let value = cpu.get_register_value(i);
                bus.write_32(address & !0x3u32, value);
                address = address.wrapping_add(4);
            }
            i = i + 1;
        }
        if r {
            let value = cpu.get_register_value(LINK_REGISTER_REGISTER);
            bus.write_32(address & !0x3u32, value);
        }
        cpu.set_register_value(STACK_POINTER_REGISTER, start_address);
        CpuResult::Continue
    }
}

fn execute_multiple(cpu: &mut CPU, bus: &mut SystemBus, instruction: u16)
    requires
        old(cpu)@.wf(),
        old(bus)@.wf(),
    ensures
        (final(cpu)@, final(bus)@) == thumb_multiple(old(cpu)@, old(bus)@, instruction),
        final(cpu)@.wf(),
        final(bus)@.wf(),
{
    let l = flag(instruction, 11);
    let rn_index = field(instruction, 8, 3);
    let rn = cpu.get_register_value(rn_index);
    let reg_list = (instruction & 0x00ff) as u32;
    let ghost b0 = bus@;
    if reg_list == 0 {
        // An empty list transfers the program counter.
        let address = rn & !0x3u32;
        cpu.set_register_value(rn_index, rn.wrapping_add(0x40));
        if l {
            let value = load_32_from_memory(bus, address);
            cpu.set_register_value(PROGRAM_COUNTER_REGISTER, value);
        } else {
            let value = cpu.get_register_value(PROGRAM_COUNTER_REGISTER).wrapping_add(2);
            bus.write_32(address, value);
        }
    } else {
        let count = count_ones(reg_list, 8);
        let n = 4 * count;
        proof {
            assert(rn_index < 8);
        }
        let store_rn = (reg_list >> (rn_index as u32)) & 1 == 1;
        if !(l && store_rn) {
            cpu.set_register_value(rn_index, rn.wrapping_add(n));
        }
        let ghost c1 = cpu@;
        let mut address = rn;
        if l {
            let mut i: u8 = 0;
            while i < 8
                invariant
                    i <= 8,
                    cpu@.wf(),
                    bus@ == b0,
                    b0.wf(),
                    ldmia_regs(c1, b0, reg_list, 0, rn) == ldmia_regs(cpu@, b0, reg_list, i as int, address),
                decreases 8 - i,
            {
                if (reg_list >> (i as u32)) & 1 == 1 {
                    let value = bus.read_32(address);
                    cpu.set_register_value(i, value);
                    address = address.wrapping_add(4);
                }
                i = i + 1;
            }
        } else {
            let mut first = true;
            let mut i: u8 = 0;
            while i < 8
                invariant
                    i <= 8,
                    cpu@ == c1,
                    c1.wf(),
                    bus@.wf(),
                    stmia_regs(c1, b0, reg_list, 0, rn, true, rn_index as int, rn) == stmia_regs(
                        c1,
                        bus@,
                        reg_list,
                        i as int,
                        address,
                        first,
                        rn_index as int,
                        rn,
                    ),
                decreases 8 - i,
            {
                if (reg_list >> (i as u32)) & 1 == 1 {
                    // The base register stores its original value when it comes first.
                    let value = if first && i == rn_index { rn } else { cpu.get_register_value(i) };
                    bus.write_32(address, value);
                    address = address.wrapping_add(4);
                    first = false;
                }
                i = i + 1;
            }
        }
    }
}

fn execute_cond_branch(cpu: &mut CPU, instruction: u16) -> (r: CpuResult)
    requires
        old(cpu)@.wf(),
    ensures
        (final(cpu)@, r) == thumb_cond_branch(old(cpu)@, instruction),
        final(cpu)@.wf(),
{
    proof {
        crate::bits::lemma_and_le_u16(instruction >> 8, 0xf);
    }
    let cond = ((instruction >> 8) & 0xf) as u8;
    if cond_passed(cpu, cond) {
        proof {
            crate::bits::lemma_and_le_u16(instruction, 0xff);
            vstd::arithmetic::power2::lemma2_to64();
        }
        let offset = sign_extend((instruction & 0x00ff) as u32, 8) * 2;
        let target = cpu.get_register_value(PROGRAM_COUNTER_REGISTER).wrapping_add(offset as u32);
        cpu.set_register_value(PROGRAM_COUNTER_REGISTER, target);
        CpuResult::FlushPipeline
    } else {
        CpuResult::Continue
    }
}

fn execute_branch(cpu: &mut CPU, instruction: u16)
    requires
        old(cpu)@.wf(),
    ensures
        final(cpu)@ == thumb_branch(old(cpu)@, instruction),
        final(cpu)@.wf(),
{
    proof {
        crate::bits::lemma_and_le_u16(instruction, 0x7ff);
        vstd::arithmetic::power2::lemma2_to64();
    }
    let offset = sign_extend((instruction & 0x07ff) as u32, 11) * 2;
    let target = cpu.get_register_value(PROGRAM_COUNTER_REGISTER).wrapping_add(offset as u32);
    cpu.set_register_value(PROGRAM_COUNTER_REGISTER, target);
}

fn execute_long_branch(cpu: &mut CPU, instruction: u16) -> (r: CpuResult)
    requires
        old(cpu)@.wf(),
    ensures
        (final(cpu)@, r) == thumb_long_branch(old(cpu)@, instruction),
        final(cpu)@.wf(),
{
    let h = flag(instruction, 11);
    let pc = cpu.get_register_value(PROGRAM_COUNTER_REGISTER);
    proof {
        crate::bits::lemma_and_le_u16(instruction, 0x7ff);
        vstd::arithmetic::power2::lemma2_to64();
    }
    if !h {
        let offset = sign_extend((instruction & 0x07ff) as u32, 11) * 4096;
        cpu.set_register_value(LINK_REGISTER_REGISTER, pc.wrapping_add(offset as u32));
        CpuResult::Continue
    } else {
        let offset = (instruction & 0x07ff) as u32;
        let lr = cpu.get_register_value(LINK_REGISTER_REGISTER);
        cpu.set_register_value(PROGRAM_COUNTER_REGISTER, lr.wrapping_add(offset * 2));
        // The address of the next instruction, marked as THUMB code.
        cpu.set_register_value(LINK_REGISTER_REGISTER, pc.wrapping_sub(2) | 0x1);
        CpuResult::FlushPipeline
    }
}

} // verus!

verus! {

/// The THUMB instruction formats, in the order the decoder tests them.
pub enum ThumbClass {
    AddSub,
    ShiftImmediate,
    AluImmediate,
    AluRegister,
    BranchExchange,
    HighRegister,
    LoadPcRelative,
    TransferRegister,
    TransferImmediate,
    TransferHalfword,
    TransferSpRelative,
    AddRelative,
    AdjustSp,
    PushPop,
    Multiple,
    SoftwareInterrupt,
    ConditionalBranch,
    Branch,
    LongBranch,
    Unhandled,
}

pub open spec fn thumb_class(ins: u16) -> ThumbClass {
    if ins & 0xf800 == 0x1800 {
        ThumbClass::AddSub
    } else if ins & 0xe000 == 0x0000 {
        ThumbClass::ShiftImmediate
    } else if ins & 0xe000 == 0x2000 {
        ThumbClass::AluImmediate
    } else if ins & 0xfc00 == 0x4000 {
        ThumbClass::AluRegister
    } else if ins & 0xff80 == 0x4700 {
        ThumbClass::BranchExchange
    } else if ins & 0xfc00 == 0x4400 {
        ThumbClass::HighRegister
    } else if ins & 0xf800 == 0x4800 {
        ThumbClass::LoadPcRelative
    } else if ins & 0xf000 == 0x5000 {
        ThumbClass::TransferRegister
    } else if ins & 0xe000 == 0x6000 {
        ThumbClass::TransferImmediate
    } else if ins & 0xf000 == 0x8000 {
        ThumbClass::TransferHalfword
    } else if ins & 0xf000 == 0x9000 {
        ThumbClass::TransferSpRelative
    } else if ins & 0xf000 == 0xa000 {
        ThumbClass::AddRelative
    } else if ins & 0xff00 == 0xb000 {
        ThumbClass::AdjustSp
    } else if ins & 0xf600 == 0xb400 {
        ThumbClass::PushPop
    } else if ins & 0xf000 == 0xc000 {
        ThumbClass::Multiple
    } else if ins & 0xff00 == 0xdf00 {
        ThumbClass::SoftwareInterrupt
    } else if ins & 0xf000 == 0xd000 {
        ThumbClass::ConditionalBranch
    } else if ins & 0xf800 == 0xe000 {
        ThumbClass::Branch
    } else if ins & 0xf000 == 0xf000 {
        ThumbClass::LongBranch
    } else {
        ThumbClass::Unhandled
    }
}

/// The effect of executing THUMB instruction `ins` on the processor and
/// the bus. Encodings that no format claims change nothing.
pub open spec fn thumb_step(c: CpuView, b: BusView, ins: u16) -> (CpuView, BusView) {
    match thumb_class(ins) {
        ThumbClass::AddSub => (thumb_add_sub(c, ins), b),
        ThumbClass::ShiftImmediate => (thumb_shift_imm(c, ins), b),
        ThumbClass::AluImmediate => (thumb_alu_imm(c, ins), b),
        ThumbClass::AluRegister => (thumb_alu_reg(c, ins), b),
        ThumbClass::BranchExchange => (thumb_bx(c, ins), b),
        ThumbClass::HighRegister => (thumb_hi_reg(c, ins), b),
        ThumbClass::LoadPcRelative => (thumb_ldr_pc(c, b, ins), b),
        ThumbClass::TransferRegister => thumb_transfer_reg(c, b, ins),
        ThumbClass::TransferImmediate => thumb_transfer_imm(c, b, ins),
        ThumbClass::TransferHalfword => thumb_transfer_half(c, b, ins),
        ThumbClass::TransferSpRelative => thumb_transfer_sp(c, b, ins),
        ThumbClass::AddRelative => (thumb_add_relative(c, ins), b),
        ThumbClass::AdjustSp => (thumb_adjust_sp(c, ins), b),
        ThumbClass::PushPop => {
            let (c1, b1, _) = thumb_push_pop(c, b, ins);
            (c1, b1)
        },
        ThumbClass::Multiple => thumb_multiple(c, b, ins),
        ThumbClass::SoftwareInterrupt => (take_exception(c, EExceptionType::SoftwareInterrupt), b),
        ThumbClass::ConditionalBranch => (thumb_cond_branch(c, ins).0, b),
        ThumbClass::Branch => (thumb_branch(c, ins), b),
        ThumbClass::LongBranch => (thumb_long_branch(c, ins).0, b),
        ThumbClass::Unhandled => (c, b),
    }
}

/// Whether a THUMB instruction moved the program counter, so that the next
/// instruction must be fetched from there: BX, B, a taken conditional
/// branch, the second half of BL, POP with the program counter, and SWI.
pub open spec fn thumb_result(c: CpuView, ins: u16) -> CpuResult {
    match thumb_class(ins) {
        ThumbClass::BranchExchange => CpuResult::FlushPipeline,
        ThumbClass::SoftwareInterrupt => CpuResult::FlushPipeline,
        ThumbClass::Branch => CpuResult::FlushPipeline,
        ThumbClass::PushPop => flush_if(tbit(ins, 11) && tbit(ins, 8)),
        ThumbClass::ConditionalBranch => thumb_cond_branch(c, ins).1,
        ThumbClass::LongBranch => thumb_long_branch(c, ins).1,
        _ => CpuResult::Continue,
    }
}

/// The encodings the decoder executes: every one but the high-register
/// operation 3 outside BX (0x4780 ..= 0x47ff).
pub open spec fn thumb_defined(ins: u16) -> bool {
    ins & 0xff80 != 0x4780
}

/// The shift-by-immediate format never carries operation 3 (that encoding
/// is ADD/SUB), and the high-register format carries it only as BX or as
/// the undefined 0x4780 ..= 0x47ff.
proof fn lemma_format_fields(ins: u16)
    by (bit_vector)
    ensures
        ins & 0xe000 == 0 && ins & 0xf800 != 0x1800 ==> (ins >> 11) & 3 != 3,
        ins & 0xfc00 == 0x4400 && ins & 0xff80 != 0x4700 && ins & 0xff80 != 0x4780 ==> (ins >> 8) & 3 != 3,
{
}

/// Executes one THUMB instruction and tells whether it moved the program
/// counter (see `thumb_result`).
pub fn execute_thumb(instruction: u16, cpu: &mut CPU, bus: &mut SystemBus) -> (r: CpuResult)
    requires
        old(cpu)@.wf(),
        old(bus)@.wf(),
        thumb_defined(instruction),
    ensures
        (final(cpu)@, final(bus)@) == thumb_step(old(cpu)@, old(bus)@, instruction),
        r == thumb_result(old(cpu)@, instruction),
        final(cpu)@.wf(),
        final(bus)@.wf(),
{
    if instruction & 0xf800 == 0x1800 {
        // ADD / SUB register
        execute_add_sub(cpu, instruction);
        CpuResult::Continue
    } else if instruction & 0xe000 == 0x0000 {
        // Move shifted register (LSL/LSR/ASR)
        proof {
            lemma_format_fields(instruction);
        }
        execute_shift_imm(cpu, instruction);
        CpuResult::Continue
    } else if instruction & 0xe000 == 0x2000 {
        // MOV/CMP/ADD/SUB immediate
        execute_alu_imm(cpu, instruction);
        CpuResult::Continue
    } else if instruction & 0xfc00 == 0x4000 {
        // ALU operations
        execute_alu_reg(cpu, instruction);
        CpuResult::Continue
    } else if instruction & 0xff80 == 0x4700 {
        // Branch exchange (BX)
        execute_bx(cpu, instruction);
        CpuResult::FlushPipeline
    } else if instruction & 0xfc00 == 0x4400 {
        // Hi register ALUs
        proof {
            lemma_format_fields(instruction);
        }
        execute_hi_reg(cpu, instruction);
        CpuResult::Continue
    } else if instruction & 0xf800 == 0x4800 {
        // LDR PC relative
        execute_ldr_pc(cpu, bus, instruction);
        CpuResult::Continue
    } else if instruction & 0xf000 == 0x5000 {
        // LDR/STR with register offset, sign-extended byte/halfword
        execute_transfer_reg(cpu, bus, instruction);
        CpuResult::Continue
    } else if instruction & 0xe000 == 0x6000 {
        // LDR/STR with immediate offset
        execute_transfer_imm(cpu, bus, instruction);
        CpuResult::Continue
    } else if instruction & 0xf000 == 0x8000 {
        // LDR/STR halfword with immediate offset
        execute_transfer_half(cpu, bus, instruction);
        CpuResult::Continue
    } else if instruction & 0xf000 == 0x9000 {
        // LDR/STR SP relative
        execute_transfer_sp(cpu, bus, instruction);
        CpuResult::Continue
    } else if instruction & 0xf000 == 0xa000 {
        // ADD relative address
        execute_add_relative(cpu, instruction);
        CpuResult::Continue
    } else if instruction & 0xff00 == 0xb000 {
        // ADD offset to stack pointer
        execute_adjust_sp(cpu, instruction);
        CpuResult::Continue
    } else if instruction & 0xf600 == 0xb400 {
        // PUSH/POP
        execute_push_pop(cpu, bus, instruction)
    } else if instruction & 0xf000 == 0xc000 {
        // LDMIA/STMIA
        execute_multiple(cpu, bus, instruction);
        CpuResult::Continue
    } else if instruction & 0xff00 == 0xdf00 {
        // SWI Software Interrupt Exception
        cpu.exception(EExceptionType::SoftwareInterrupt);
        CpuResult::FlushPipeline
    } else if instruction & 0xf000 == 0xd000 {
        // Conditional branch
        execute_cond_branch(cpu, instruction)
    } else if instruction & 0xf800 == 0xe000 {
        // Unconditional branch
        execute_branch(cpu, instruction);
        CpuResult::FlushPipeline
    } else if instruction & 0xf000 == 0xf000 {
        // BL
        execute_long_branch(cpu, instruction)
    } else {
        CpuResult::Continue
    }
}

/// Executes one THUMB instruction.
pub fn operate_thumb(instruction: u16, cpu: &mut CPU, bus: &mut SystemBus)
    requires
        old(cpu)@.wf(),
        old(bus)@.wf(),
        thumb_defined(instruction),
    ensures
        (final(cpu)@, final(bus)@) == thumb_step(old(cpu)@, old(bus)@, instruction),
        final(cpu)@.wf(),
        final(bus)@.wf(),
{
    let _ = execute_thumb(instruction, cpu, bus);
}

} // verus!

verus! {

/// The set bits of `list` below `n` are no more than those below a larger
/// `m`, and no more than `m`.
proof fn lemma_popcount_bounds(list: u32, n: int, m: int)
    requires
        0 <= n <= m,
    ensures
        popcount(list, n) <= popcount(list, m),
        popcount(list, m) <= m,
    decreases m,
{
    if m > 0 {
        if n < m {
            lemma_popcount_bounds(list, n, m - 1);
        } else {
            lemma_popcount_bounds(list, n - 1, m - 1);
        }
    }
}

/// Whether the bytes from `start` up to `end` lie in one work RAM region.
pub open spec fn stack_in_work_ram(start: int, end: int) -> bool {
    ||| 0x0200_0000 <= start && end <= 0x0300_0000
    ||| 0x0300_0000 <= start && end <= 0x0400_0000
}

/// The region of an address in the work RAM windows.
proof fn lemma_work_ram_region(x: u32)
    by (bit_vector)
    requires
        0x0200_0000 <= x < 0x0400_0000,
    ensures
        x < 0x0300_0000 ==> x & 0xff00_0000 == 0x0200_0000,
        x >= 0x0300_0000 ==> x & 0xff00_0000 == 0x0300_0000,
{
}

/// An aligned address is its own word address.
proof fn lemma_aligned_word(x: u32)
    by (bit_vector)
    requires
        x % 4 == 0,
    ensures
        x & !3u32 == x,
        x & 3 == 0,
{
}

/// The words PUSH stores from register `i` on: each listed register at its
/// slot above `start`, and every word between `start` and the first slot
/// left as it was.
proof fn lemma_push_slots(c: CpuView, b: BusView, list: u32, i: int, start: u32)
    requires
        b.wf(),
        0 <= i <= 8,
        start % 4 == 0,
        stack_in_work_ram(start as int, start + 4 * popcount(list, 8)),
    ensures
        ({
            let (b1, next) = push_regs(c, b, list, i, (start + 4 * popcount(list, i)) as u32);
            &&& b1.wf()
            &&& next == start + 4 * popcount(list, 8)
            &&& forall|j: int|
                i <= j < 8 && bit32(list, j as u32) ==> #[trigger] b1.read_32(
                    (start + 4 * popcount(list, j)) as u32,
                ) == c.operand(j)
            &&& forall|a2: u32|
                start <= a2 < start + 4 * popcount(list, i) && a2 % 4 == 0 ==> #[trigger] b1.read_32(a2)
                    == b.read_32(a2)
        }),
    decreases 8 - i,
{
    lemma_popcount_bounds(list, i, 8);
    if i < 8 {
        lemma_popcount_bounds(list, i + 1, 8);
        let k = popcount(list, i);
        let addr = (start + 4 * k) as u32;
        assert(addr % 4 == 0) by (nonlinear_arith)
            requires
                start % 4 == 0,
                k >= 0,
                addr == start + 4 * k,
        ;
        if bit32(list, i as u32) {
            lemma_aligned_word(addr);
            lemma_work_ram_region(addr);
            let v = c.operand(i);
            let b_ = b.write_32(addr, v);
            crate::system::lemma_work_ram_read_after_write(b, addr, v);
            crate::system::lemma_work_ram_write_wf(b, addr, v);
            lemma_push_slots(c, b_, list, i + 1, start);
            assert(addr.wrapping_add(4) == (start + 4 * popcount(list, i + 1)) as u32);
            let b1 = push_regs(c, b_, list, i + 1, (start + 4 * popcount(list, i + 1)) as u32).0;
            assert(b1.read_32(addr) == b_.read_32(addr));
            assert forall|a2: u32| start <= a2 < start + 4 * popcount(list, i) && a2 % 4 == 0 implies #[trigger] b1.read_32(a2)
                == b.read_32(a2) by {
                lemma_work_ram_region(a2);
                crate::system::lemma_work_ram_other_word(b, addr, a2, v);
            }
        } else {
            lemma_push_slots(c, b, list, i + 1, start);
        }
    }
}

/// Rewriting a low register with its own value changes nothing.
proof fn lemma_set_own_reg(c: CpuView, i: int)
    requires
        c.regs.len() == 31,
        0 <= i < 8,
    ensures
        c.set_reg(i, c.operand(i)) == c,
{
    crate::arm7tdmi::cpu::lemma_phys_index_injective(c.mode(), i, 15);
    assert(c.set_reg(i, c.operand(i)).regs =~= c.regs);
}

/// POP from register `i` on, over words that already hold the values of the
/// listed registers, leaves the processor as it is.
proof fn lemma_pop_slots(cx: CpuView, b: BusView, list: u32, i: int, start: u32)
    requires
        cx.regs.len() == 31,
        0 <= i <= 8,
        start % 4 == 0,
        start + 4 * popcount(list, 8) <= u32::MAX,
        forall|j: int|
            i <= j < 8 && bit32(list, j as u32) ==> #[trigger] b.read_32((start + 4 * popcount(list, j)) as u32)
                == cx.operand(j),
    ensures
        pop_regs(cx, b, list, i, (start + 4 * popcount(list, i)) as u32) == (cx, (start + 4 * popcount(list, 8)) as u32),
    decreases 8 - i,
{
    lemma_popcount_bounds(list, i, 8);
    if i < 8 {
        lemma_popcount_bounds(list, i + 1, 8);
        let k = popcount(list, i);
        let addr = (start + 4 * k) as u32;
        assert(addr % 4 == 0) by (nonlinear_arith)
            requires
                start % 4 == 0,
                k >= 0,
                addr == start + 4 * k,
        ;
        if bit32(list, i as u32) {
            lemma_aligned_word(addr);
            assert(b.read_32((start + 4 * popcount(list, i)) as u32) == cx.operand(i));
            lemma_set_own_reg(cx, i);
            assert(addr.wrapping_add(4) == (start + 4 * popcount(list, i + 1)) as u32);
        }
        lemma_pop_slots(cx, b, list, i + 1, start);
    }
}

/// The encoding facts of PUSH {list} and POP {list}: both fall in format
/// 14, without LR or PC, with `list` as their register list.
proof fn lemma_push_pop_encoding(list: u8)
    by (bit_vector)
    ensures
        (0xb400u16 | list as u16) & 0xf800 != 0x1800,
        (0xb400u16 | list as u16) & 0xe000 != 0x0000,
        (0xb400u16 | list as u16) & 0xe000 != 0x2000,
        (0xb400u16 | list as u16) & 0xfc00 != 0x4000,
        (0xb400u16 | list as u16) & 0xff80 != 0x4700,
        (0xb400u16 | list as u16) & 0xfc00 != 0x4400,
        (0xb400u16 | list as u16) & 0xf800 != 0x4800,
        (0xb400u16 | list as u16) & 0xf000 != 0x5000,
        (0xb400u16 | list as u16) & 0xe000 != 0x6000,
        (0xb400u16 | list as u16) & 0xf000 != 0x8000,
        (0xb400u16 | list as u16) & 0xf000 != 0x9000,
        (0xb400u16 | list as u16) & 0xf000 != 0xa000,
        (0xb400u16 | list as u16) & 0xff00 != 0xb000,
        (0xb400u16 | list as u16) & 0xf600 == 0xb400,
        ((0xb400u16 | list as u16) >> 11) & 1 != 1,
        ((0xb400u16 | list as u16) >> 8) & 1 != 1,
        ((0xb400u16 | list as u16) & 0xff) as u32 == list as u32,
        (0xbc00u16 | list as u16) & 0xf800 != 0x1800,
        (0xbc00u16 | list as u16) & 0xe000 != 0x0000,
        (0xbc00u16 | list as u16) & 0xe000 != 0x2000,
        (0xbc00u16 | list as u16) & 0xfc00 != 0x4000,
        (0xbc00u16 | list as u16) & 0xff80 != 0x4700,
        (0xbc00u16 | list as u16) & 0xfc00 != 0x4400,
        (0xbc00u16 | list as u16) & 0xf800 != 0x4800,
        (0xbc00u16 | list as u16) & 0xf000 != 0x5000,
        (0xbc00u16 | list as u16) & 0xe000 != 0x6000,
        (0xbc00u16 | list as u16) & 0xf000 != 0x8000,
        (0xbc00u16 | list as u16) & 0xf000 != 0x9000,
        (0xbc00u16 | list as u16) & 0xf000 != 0xa000,
        (0xbc00u16 | list as u16) & 0xff00 != 0xb000,
        (0xbc00u16 | list as u16) & 0xf600 == 0xb400,
        ((0xbc00u16 | list as u16) >> 11) & 1 == 1,
        ((0xbc00u16 | list as u16) >> 8) & 1 != 1,
        ((0xbc00u16 | list as u16) & 0xff) as u32 == list as u32,
{
}

/// POP of a list of low registers undoes a PUSH of the same list: the
/// processor, stack pointer included, is as it was before the PUSH, when
/// the stack pointer is word-aligned and the pushed words lie in one work
/// RAM region.
#[verifier::spinoff_prover]
pub proof fn lemma_pop_undoes_push(c: CpuView, b: BusView, list: u8)
    requires
        c.wf(),
        c.regs.len() == 31,
        b.wf(),
        c.operand(13) % 4 == 0,
        stack_in_work_ram(c.operand(13) - 4 * popcount(list as u32, 8), c.operand(13) as int),
    ensures
        ({
            let (c1, b1) = thumb_step(c, b, 0xb400u16 | list as u16);
            let (c2, b2) = thumb_step(c1, b1, 0xbc00u16 | list as u16);
            c2 == c && b2 == b1
        }),
{
    lemma_push_pop_encoding(list);
    let l = list as u32;
    let sp = c.operand(13);
    lemma_popcount_bounds(l, 0, 8);
    let total = (4 * (0int + popcount(l, 8))) as u32;
    let start = sp.wrapping_sub(total);
    assert(start == sp - 4 * popcount(l, 8));
    assert(start % 4 == 0) by (nonlinear_arith)
        requires
            sp % 4 == 0,
            start == sp - 4 * popcount(l, 8),
    ;
    lemma_push_slots(c, b, l, 0, start);
    let b1 = push_regs(c, b, l, 0, start).0;
    let c1 = c.set_reg(13, start);
    assert forall|j: int| 0 <= j < 8 implies #[trigger] c1.operand(j) == c.operand(j) by {
        crate::arm7tdmi::cpu::lemma_phys_index_injective(c.mode(), j, 13);
    }
    crate::arm7tdmi::cpu::lemma_phys_index_injective(c.mode(), 13, 15);
    assert(c1.operand(13) == start);
    lemma_pop_slots(c1, b1, l, 0, start);
    assert(start.wrapping_add(total) == sp);
    assert(c1.set_reg(13, sp).regs =~= c.regs);
}

} // verus!

verus! {

/// THUMB format 3, an 8-bit immediate `imm` with the low register Rd
/// holding `x`: MOV writes `imm`; ADD writes `x + imm` and SUB `x - imm`
/// (modulo 2^32); CMP leaves Rd as it was. The carry flag is the carry out
/// of the addition for ADD, and "no borrow" (`x >= imm`) for CMP and SUB;
/// for MOV, CMP and SUB, Z tells whether the result is zero. The bus is
/// untouched.
#[verifier::spinoff_prover]
pub proof fn lemma_alu_immediate(c: CpuView, b: BusView, ins: u16)
    requires
        c.regs.len() == 31,
        ins & 0xe000 == 0x2000,
    ensures
        ({
            let rd = ((ins >> 8) & 7) as int;
            let imm = (ins & 0xff) as u32;
            let x = c.reg(rd);
            let op = (ins >> 11) & 3;
            let (c1, b1) = thumb_step(c, b, ins);
            &&& b1 == b
            &&& op == 0 ==> c1.reg(rd) == imm && bit32(c1.cpsr, 30) == (imm == 0)
            &&& op == 1 ==> c1.reg(rd) == x && c1.flag_c() == (x >= imm) && bit32(c1.cpsr, 30) == (x == imm)
            &&& op == 2 ==> c1.reg(rd) as int == (x + imm) % 0x1_0000_0000 && c1.flag_c() == (x + imm
                > 0xffff_ffff)
            &&& op == 3 ==> c1.reg(rd) as int == (x - imm) % 0x1_0000_0000 && c1.flag_c() == (x >= imm)
                && bit32(c1.cpsr, 30) == (x == imm)
        }),
{
    assert(ins & 0xf800 != 0x1800 && ins & 0xe000 != 0 && (ins >> 8) & 7 < 8 && (ins >> 11) & 3 < 4)
        by (bit_vector)
        requires
            ins & 0xe000 == 0x2000,
    ;
    let rd = tf(ins, 8, 3);
    let imm = (ins & 0xff) as u32;
    let x = c.operand(rd);
    let op = (ins >> 11) & 3;
    crate::arm7tdmi::cpu::lemma_phys_index_injective(c.mode(), rd, 15);
    let (out, cf, vf) = if op == 2 {
        add_with_carry(x, imm, false)
    } else {
        sub_with_borrow(x, imm, false)
    };
    let w = if op == 1 { c } else if op == 0 { c.set_reg(rd, imm) } else { c.set_reg(rd, out) };
    crate::arm7tdmi::cpu::lemma_register_read_after_write(c, rd, rd, if op == 0 { imm } else { out });
    let flag_out = if op == 0 { imm } else { out };
    let n1 = w.set_n(bit32(flag_out, 31));
    let n2 = n1.set_z(flag_out == 0);
    let n3 = n2.set_c(cf);
    crate::arm7tdmi::arm::lemma_flag_keeps_regs(w, 31, bit32(flag_out, 31));
    crate::arm7tdmi::arm::lemma_flag_keeps_regs(n1, 30, flag_out == 0);
    crate::arm7tdmi::arm::lemma_flag_keeps_regs(n2, 29, cf);
    crate::arm7tdmi::arm::lemma_flag_keeps_regs(n3, 28, vf);
    crate::bits::lemma_with_bit32(n1.cpsr, 30, flag_out == 0);
    crate::bits::lemma_with_bit32(n2.cpsr, 29, cf);
    crate::bits::lemma_with_bit32(n3.cpsr, 28, vf);
    assert(((x - imm) % 0x1_0000_0000 == 0) == (x == imm));
    assert(((x - imm - 0) % 0x1_0000_0000) == (x - imm) % 0x1_0000_0000);
}

} // verus!

verus! {

/// THUMB format 4, the register ALU operations on low registers Rd (holding
/// `x`) and Rm (holding `y`), with `C` the carry flag before: AND writes
/// `x & y`, EOR `x ^ y`, ADC `x + y + C`, SBC `x - y - (1 - C)`, NEG
/// `0 - y`, ORR `x | y`, MUL `x * y` (arithmetic modulo 2^32), BIC
/// `x & !y` and MVN `!y`; TST, CMP and CMN leave Rd as it was, with Z
/// telling whether `x & y`, `x - y` or `x + y` (modulo 2^32) is zero. The
/// bus is untouched.
#[verifier::spinoff_prover]
#[verifier::rlimit(40)]
pub proof fn lemma_alu_register(c: CpuView, b: BusView, ins: u16)
    requires
        c.regs.len() == 31,
        ins & 0xfc00 == 0x4000,
    ensures
        ({
            let rd = (ins & 7) as int;
            let x = c.reg(rd);
            let y = c.reg(((ins >> 3) & 7) as int);
            let op = (ins >> 6) & 0xf;
            let carry: int = if c.flag_c() { 1 } else { 0 };
            let (c1, b1) = thumb_step(c, b, ins);
            let r = c1.reg(rd);
            &&& b1 == b
            &&& op == 0x0 ==> r == x & y
            &&& op == 0x1 ==> r == x ^ y
            &&& op == 0x5 ==> r as int == (x + y + carry) % 0x1_0000_0000
            &&& op == 0x6 ==> r as int == (x - y - (1 - carry)) % 0x1_0000_0000
            &&& op == 0x8 ==> r == x && bit32(c1.cpsr, 30) == (x & y == 0)
            &&& op == 0x9 ==> r as int == (0 - y) % 0x1_0000_0000
            &&& op == 0xa ==> r == x && bit32(c1.cpsr, 30) == (x == y)
            &&& op == 0xb ==> r == x && bit32(c1.cpsr, 30) == ((x + y) % 0x1_0000_0000 == 0)
            &&& op == 0xc ==> r == x | y
            &&& op == 0xd ==> r as int == (x * y) % 0x1_0000_0000
            &&& op == 0xe ==> r == x & !y
            &&& op == 0xf ==> r == !y
        }),
{
    assert(ins & 0xf800 != 0x1800 && ins & 0xe000 != 0 && ins & 0xe000 != 0x2000 && ins & 7 < 8 && (ins >> 3)
        & 7 < 8 && (ins >> 6) & 0xf < 16 && (ins >> 0) & 7 == ins & 7) by (bit_vector)
        requires
            ins & 0xfc00 == 0x4000,
    ;
    let rd = tf(ins, 0, 3);
    let rm_index = tf(ins, 3, 3);
    let x = c.operand(rd);
    let y = c.operand(rm_index);
    let op = (ins >> 6) & 0xf;
    crate::arm7tdmi::cpu::lemma_phys_index_injective(c.mode(), rd, 15);
    crate::arm7tdmi::cpu::lemma_phys_index_injective(c.mode(), rm_index, 15);
    let (c1, _) = thumb_step(c, b, ins);
    let out: u32 = if op == 0x0 || op == 0x8 {
        x & y
    } else if op == 0x1 {
        x ^ y
    } else if op == 0x9 {
        0u32.wrapping_sub(y)
    } else if op == 0xa {
        sub_with_borrow(x, y, false).0
    } else if op == 0xb {
        add_with_carry(x, y, false).0
    } else if op == 0x5 {
        add_with_carry(x, y, c.flag_c()).0
    } else if op == 0x6 {
        sub_with_borrow(x, y, !c.flag_c()).0
    } else if op == 0xc {
        x | y
    } else if op == 0xd {
        y.wrapping_mul(x)
    } else if op == 0xe {
        x & !y
    } else {
        !y
    };
    crate::arm7tdmi::cpu::lemma_register_read_after_write(c, rd, rd, out);
    let w = if op == 0x8 || op == 0xa || op == 0xb { c } else { c.set_reg(rd, out) };
    let n1 = w.set_n(bit32(out, 31));
    let n2 = n1.set_z(out == 0);
    crate::arm7tdmi::arm::lemma_flag_keeps_regs(w, 31, bit32(out, 31));
    crate::arm7tdmi::arm::lemma_flag_keeps_regs(n1, 30, out == 0);
    crate::bits::lemma_with_bit32(n1.cpsr, 30, out == 0);
    assert forall|cf: bool| #[trigger] n2.set_c(cf).reg(rd) == n2.reg(rd) && bit32(n2.set_c(cf).cpsr, 30) == bit32(n2.cpsr, 30) by {
        crate::arm7tdmi::arm::lemma_flag_keeps_regs(n2, 29, cf);
        crate::bits::lemma_with_bit32(n2.cpsr, 29, cf);
    }
    assert forall|cf: bool, vf: bool| #[trigger] n2.set_c(cf).set_v(vf).reg(rd) == n2.reg(rd) && bit32(n2.set_c(cf).set_v(vf).cpsr, 30) == bit32(n2.cpsr, 30) by {
        crate::arm7tdmi::arm::lemma_flag_keeps_regs(n2, 29, cf);
        crate::bits::lemma_with_bit32(n2.cpsr, 29, cf);
        crate::arm7tdmi::arm::lemma_flag_keeps_regs(n2.set_c(cf), 28, vf);
        crate::bits::lemma_with_bit32(n2.set_c(cf).cpsr, 28, vf);
    }
    assert(((x - y) % 0x1_0000_0000 == 0) == (x == y));
    assert((x - y - 0) % 0x1_0000_0000 == (x - y) % 0x1_0000_0000);
    assert((x + y + 0) % 0x1_0000_0000 == (x + y) % 0x1_0000_0000);
}

} // verus!

verus! {

/// A signed 32-bit number read as unsigned is that number modulo 2^32.
pub(crate) proof fn lemma_i32_as_u32(i: i32)
    ensures
        (i as u32) as int == (i as int) % 0x1_0000_0000,
{
    assert(i < 0 ==> (i as u32) as int == i as int + 0x1_0000_0000) by (bit_vector);
    assert(i >= 0 ==> (i as u32) as int == i as int) by (bit_vector);
}

/// A THUMB unconditional branch (format 18) with offset field `k` (bits
/// 10..0) goes to the program counter plus 4 plus twice `k` read as a
/// signed 11-bit number, modulo 2^32; the other registers are kept.
pub proof fn lemma_thumb_branch_target(c: CpuView, ins: u16, j: int)
    requires
        c.regs.len() == 31,
        c.thumb(),
        0 <= j < 15,
    ensures
        ({
            let k = (ins & 0x7ff) as int;
            let offset = if k >= 1024 { k - 2048 } else { k };
            &&& thumb_branch(c, ins).pc() as int == (c.pc() + 4 + 2 * offset) % 0x1_0000_0000
            &&& thumb_branch(c, ins).reg(j) == c.reg(j)
        }),
{
    vstd::arithmetic::power2::lemma2_to64();
    let k = (ins & 0x7ff) as u32;
    assert(k < 2048) by (bit_vector)
        requires
            k == (ins & 0x7ff) as u32,
    ;
    let offset = sign_extended(k, 11) * 2;
    lemma_i32_as_u32(offset as i32);
    crate::arm7tdmi::cpu::lemma_register_read_after_write(c, 15, j, c.operand(15).wrapping_add((offset as i32) as u32));
}

/// A taken THUMB conditional branch (format 16) with offset field `k`
/// (bits 7..0) goes to the program counter plus 4 plus twice `k` read as a
/// signed 8-bit number, modulo 2^32; an untaken one changes nothing.
pub proof fn lemma_thumb_cond_branch_target(c: CpuView, ins: u16)
    requires
        c.regs.len() == 31,
        c.thumb(),
    ensures
        ({
            let k = (ins & 0xff) as int;
            let offset = if k >= 128 { k - 256 } else { k };
            let (c1, r) = thumb_cond_branch(c, ins);
            &&& cond_holds(c.cpsr, ((ins >> 8) & 0xf) as u8) ==> c1.pc() as int == (c.pc() + 4 + 2 * offset)
                % 0x1_0000_0000 && r == CpuResult::FlushPipeline
            &&& !cond_holds(c.cpsr, ((ins >> 8) & 0xf) as u8) ==> c1 == c && r == CpuResult::Continue
        }),
{
    vstd::arithmetic::power2::lemma2_to64();
    let k = (ins & 0xff) as u32;
    assert(k < 256) by (bit_vector)
        requires
            k == (ins & 0xff) as u32,
    ;
    let offset = sign_extended(k, 8) * 2;
    lemma_i32_as_u32(offset as i32);
    crate::arm7tdmi::cpu::lemma_register_read_after_write(c, 15, 15, c.operand(15).wrapping_add((offset as i32) as u32));
}

} // verus!

verus! {

/// THUMB format 2, ADD or SUB of a register or a 3-bit immediate: with the
/// low register Rs (bits 5..3) holding `s` and the second operand `n` (the
/// immediate in bits 8..6 when bit 10 is set, else the register those bits
/// name), Rd (bits 2..0) receives `s - n` when bit 9 is set and `s + n`
/// otherwise (modulo 2^32); C is then "no borrow" (`s >= n`) or the carry
/// out of the addition. The bus is untouched.
#[verifier::spinoff_prover]
pub proof fn lemma_add_sub(c: CpuView, b: BusView, ins: u16)
    requires
        c.regs.len() == 31,
        ins & 0xf800 == 0x1800,
    ensures
        ({
            let rd = (ins & 7) as int;
            let s = c.reg(((ins >> 3) & 7) as int);
            let n = if (ins >> 10) & 1 == 1 { ((ins >> 6) & 7) as u32 } else { c.reg(((ins >> 6) & 7) as int) };
            let (c1, b1) = thumb_step(c, b, ins);
            &&& b1 == b
            &&& (ins >> 9) & 1 == 1 ==> c1.reg(rd) as int == (s - n) % 0x1_0000_0000 && c1.flag_c() == (s
                >= n)
            &&& (ins >> 9) & 1 != 1 ==> c1.reg(rd) as int == (s + n) % 0x1_0000_0000 && c1.flag_c() == (s
                + n > 0xffff_ffff)
        }),
{
    assert((ins >> 0) & 7 == ins & 7 && ins & 7 < 8 && (ins >> 3) & 7 < 8 && (ins >> 6) & 7 < 8) by (bit_vector);
    let rd = tf(ins, 0, 3);
    let s = c.operand(tf(ins, 3, 3));
    let n = if tbit(ins, 10) { tf(ins, 6, 3) as u32 } else { c.operand(tf(ins, 6, 3)) };
    crate::arm7tdmi::cpu::lemma_phys_index_injective(c.mode(), tf(ins, 3, 3), 15);
    crate::arm7tdmi::cpu::lemma_phys_index_injective(c.mode(), tf(ins, 6, 3), 15);
    let (out, cf, vf) = if tbit(ins, 9) { sub_with_borrow(s, n, false) } else { add_with_carry(s, n, false) };
    crate::arm7tdmi::cpu::lemma_register_read_after_write(c, rd, rd, out);
    let w = c.set_reg(rd, out);
    let n1 = w.set_n(bit32(out, 31));
    let n2 = n1.set_z(out == 0);
    let n3 = n2.set_c(cf);
    crate::arm7tdmi::arm::lemma_flag_keeps_regs(w, 31, bit32(out, 31));
    crate::arm7tdmi::arm::lemma_flag_keeps_regs(n1, 30, out == 0);
    crate::arm7tdmi::arm::lemma_flag_keeps_regs(n2, 29, cf);
    crate::arm7tdmi::arm::lemma_flag_keeps_regs(n3, 28, vf);
    crate::bits::lemma_with_bit32(n2.cpsr, 29, cf);
    crate::bits::lemma_with_bit32(n3.cpsr, 28, vf);
    assert((s - n - 0) % 0x1_0000_0000 == (s - n) % 0x1_0000_0000);
}

} // verus!

verus! {

/// The encoding facts of STR Rs, [SP, #imm*4] and LDR Rd, [SP, #imm*4]
/// (format 11).
proof fn lemma_sp_transfer_encoding(rs: u16, rd: u16, imm: u16)
    by (bit_vector)
    requires
        rs < 8,
        rd < 8,
        imm < 256,
    ensures
        (0x9000u16 | (rs << 8) | imm) & 0xf800 != 0x1800,
        (0x9000u16 | (rs << 8) | imm) & 0xe000 != 0x0000,
        (0x9000u16 | (rs << 8) | imm) & 0xe000 != 0x2000,
        (0x9000u16 | (rs << 8) | imm) & 0xfc00 != 0x4000,
        (0x9000u16 | (rs << 8) | imm) & 0xff80 != 0x4700,
        (0x9000u16 | (rs << 8) | imm) & 0xfc00 != 0x4400,
        (0x9000u16 | (rs << 8) | imm) & 0xf800 != 0x4800,
        (0x9000u16 | (rs << 8) | imm) & 0xf000 != 0x5000,
        (0x9000u16 | (rs << 8) | imm) & 0xe000 != 0x6000,
        (0x9000u16 | (rs << 8) | imm) & 0xf000 != 0x8000,
        (0x9000u16 | (rs << 8) | imm) & 0xf000 == 0x9000,
        ((0x9000u16 | (rs << 8) | imm) >> 11) & 1 != 1,
        ((0x9000u16 | (rs << 8) | imm) >> 8) & 7 == rs,
        (0x9000u16 | (rs << 8) | imm) & 0xff == imm,
        (0x9800u16 | (rd << 8) | imm) & 0xf800 != 0x1800,
        (0x9800u16 | (rd << 8) | imm) & 0xe000 != 0x0000,
        (0x9800u16 | (rd << 8) | imm) & 0xe000 != 0x2000,
        (0x9800u16 | (rd << 8) | imm) & 0xfc00 != 0x4000,
        (0x9800u16 | (rd << 8) | imm) & 0xff80 != 0x4700,
        (0x9800u16 | (rd << 8) | imm) & 0xfc00 != 0x4400,
        (0x9800u16 | (rd << 8) | imm) & 0xf800 != 0x4800,
        (0x9800u16 | (rd << 8) | imm) & 0xf000 != 0x5000,
        (0x9800u16 | (rd << 8) | imm) & 0xe000 != 0x6000,
        (0x9800u16 | (rd << 8) | imm) & 0xf000 != 0x8000,
        (0x9800u16 | (rd << 8) | imm) & 0xf000 == 0x9000,
        ((0x9800u16 | (rd << 8) | imm) >> 11) & 1 == 1,
        ((0x9800u16 | (rd << 8) | imm) >> 8) & 7 == rd,
        (0x9800u16 | (rd << 8) | imm) & 0xff == imm,
{
}

/// A word stored relative to SP and loaded back from the same offset
/// returns the stored register: STR Rs, [SP, #imm*4] followed by
/// LDR Rd, [SP, #imm*4] leaves Rd holding what Rs held, when SP is
/// word-aligned and the word lies in work RAM. The store changes no
/// register and the load leaves memory alone.
#[verifier::spinoff_prover]
pub proof fn lemma_sp_store_then_load(c: CpuView, b: BusView, rs: u16, rd: u16, imm: u16)
    requires
        c.regs.len() == 31,
        b.wf(),
        rs < 8,
        rd < 8,
        imm < 256,
        c.reg(13) % 4 == 0,
        stack_in_work_ram(c.reg(13) + 4 * imm, c.reg(13) + 4 * imm + 4),
    ensures
        ({
            let (c1, b1) = thumb_step(c, b, 0x9000u16 | (rs << 8) | imm);
            let (c2, b2) = thumb_step(c1, b1, 0x9800u16 | (rd << 8) | imm);
            &&& c1 == c
            &&& b2 == b1
            &&& c2.reg(rd as int) == c.reg(rs as int)
        }),
{
    lemma_sp_transfer_encoding(rs, rd, imm);
    crate::arm7tdmi::cpu::lemma_phys_index_injective(c.mode(), 13, 15);
    crate::arm7tdmi::cpu::lemma_phys_index_injective(c.mode(), rs as int, 15);
    let address = c.operand(13).wrapping_add((imm * 4) as u32);
    assert(address == c.reg(13) + 4 * imm);
    assert(address % 4 == 0) by (nonlinear_arith)
        requires
            c.reg(13) % 4 == 0,
            address == c.reg(13) + 4 * imm,
    ;
    lemma_aligned_word(address);
    lemma_work_ram_region(address);
    let v = c.operand(rs as int);
    crate::system::lemma_work_ram_read_after_write(b, address, v);
    crate::arm7tdmi::cpu::lemma_register_read_after_write(c, rd as int, rd as int, b.write_32(address, v).read_32(address));
}

} // verus!
