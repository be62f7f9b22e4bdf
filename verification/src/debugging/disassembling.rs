//! Assembly text for ARM and THUMB instructions.
use vstd::prelude::*;

use crate::arm7tdmi::alu::{rotate_right, rotr};
use crate::arm7tdmi::{sign_extend, sign_extended};
use crate::bits::bit32;
use crate::arm7tdmi::cpu::{CPU, CpuView};
use crate::system::{BusView, SystemBus};

verus! {

/// The text of decimal digit `d`.
pub open spec fn digit(d: int) -> Seq<char> {
    if d == 0 {
        "0"@
    } else if d == 1 {
        "1"@
    } else if d == 2 {
        "2"@
    } else if d == 3 {
        "3"@
    } else if d == 4 {
        "4"@
    } else if d == 5 {
        "5"@
    } else if d == 6 {
        "6"@
    } else if d == 7 {
        "7"@
    } else if d == 8 {
        "8"@
    } else {
        "9"@
    }
}

/// `n` written in decimal.
pub open spec fn decimal(n: nat) -> Seq<char>
    decreases n,
{
    if n < 10 {
        digit(n as int)
    } else {
        decimal(n / 10) + digit((n % 10) as int)
    }
}

/// `v` written in decimal, with a minus sign when negative.
pub open spec fn signed_decimal(v: int) -> Seq<char> {
    if v < 0 {
        "-"@ + decimal((-v) as nat)
    } else {
        decimal(v as nat)
    }
}

fn append_digit(s: &mut String, d: u32)
    requires
        d < 10,
    ensures
        final(s)@ == old(s)@ + digit(d as int),
{
    let text = if d == 0 {
        "0"
    } else if d == 1 {
        "1"
    } else if d == 2 {
        "2"
    } else if d == 3 {
        "3"
    } else if d == 4 {
        "4"
    } else if d == 5 {
        "5"
    } else if d == 6 {
        "6"
    } else if d == 7 {
        "7"
    } else if d == 8 {
        "8"
    } else {
        "9"
    };
    s.append(text);
}

/// Appends `n` in decimal.
pub fn append_decimal(s: &mut String, n: u32)
    ensures
        final(s)@ == old(s)@ + decimal(n as nat),
    decreases n,
{
    if n >= 10 {
        append_decimal(s, n / 10);
    }
    append_digit(s, n % 10);
    proof {
        if n >= 10 {
            assert(final(s)@ =~= old(s)@ + decimal(n as nat));
        }
    }
}

/// Appends `v` in decimal, with a minus sign when negative.
pub fn append_signed(s: &mut String, v: i32)
    ensures
        final(s)@ == old(s)@ + signed_decimal(v as int),
{
    if v < 0 {
        s.append("-");
        let magnitude: u32 = if v == i32::MIN { 0x8000_0000 } else { (-v) as u32 };
        append_decimal(s, magnitude);
        proof {
            assert(final(s)@ =~= old(s)@ + signed_decimal(v as int));
        }
    } else {
        append_decimal(s, v as u32);
    }
}

/// The text between the braces of a register list: the listed registers
/// among `i .. bits` in increasing order, separated by commas, a run of
/// two or more written as its first and last (`R0-R1, R3`). `any` tells
/// whether something was written before `i`.
pub open spec fn register_list_from(list: u32, bits: int, i: int, any: bool) -> Seq<char>
    decreases bits - i,
{
    if i >= bits || i < 0 {
        Seq::empty()
    } else if bit32(list, i as u32) {
        if i > 0 && bit32(list, (i - 1) as u32) {
            if i < bits - 1 && bit32(list, (i + 1) as u32) {
                register_list_from(list, bits, i + 1, any)
            } else {
                "-R"@ + decimal(i as nat) + register_list_from(list, bits, i + 1, true)
            }
        } else {
            (if any { ", R"@ } else { "R"@ }) + decimal(i as nat) + register_list_from(
                list,
                bits,
                i + 1,
                true,
            )
        }
    } else {
        register_list_from(list, bits, i + 1, any)
    }
}

/// The register list of an LDM/STM (16 registers) or a THUMB PUSH, POP,
/// LDMIA or STMIA (8 registers).
pub open spec fn register_list_text(instruction: u32, thumb: bool) -> Seq<char> {
    "{ "@ + register_list_from(instruction, if thumb { 8 } else { 16 }, 0, false) + " }"@
}

pub fn get_register_list(instruction: u32, thumb: bool) -> (r: String)
    ensures
        r@ == register_list_text(instruction, thumb),
{
    let mut regs = String::from_str("{ ");
    let bits: u32 = if thumb { 8 } else { 16 };
    let ghost whole = register_list_from(instruction, bits as int, 0, false);
    let mut any = false;
    let mut i: u32 = 0;
    while i < bits
        invariant
            bits == 8 || bits == 16,
            i <= bits,
            regs@ + register_list_from(instruction, bits as int, i as int, any) == "{ "@ + whole,
        decreases bits - i,
    {
        let set = (instruction >> i) & 1 == 1;
        let ghost before = regs@;
        if set {
            let previous = i > 0 && (instruction >> (i - 1)) & 1 == 1;
            if previous {
                let next = i < bits - 1 && (instruction >> (i + 1)) & 1 == 1;
                if !next {
                    regs.append("-R");
                    append_decimal(&mut regs, i);
                    any = true;
                    proof {
                        assert(before + register_list_from(instruction, bits as int, i as int, any)
                            =~= regs@ + register_list_from(instruction, bits as int, i + 1, true));
                    }
                }
            } else {
                let ghost was_any = any;
                if any {
                    regs.append(", R");
                } else {
                    regs.append("R");
                }
                append_decimal(&mut regs, i);
                any = true;
                proof {
                    assert(before + register_list_from(instruction, bits as int, i as int, was_any)
                        =~= regs@ + register_list_from(instruction, bits as int, i + 1, true));
                }
            }
        }
        i = i + 1;
    }
    regs.append(" }");
    proof {
        assert(regs@ =~= register_list_text(instruction, thumb));
    }
    regs
}

} // verus!

verus! {

/// The condition suffix of an ARM instruction; empty for "always".
pub open spec fn cond_text(cond: u8) -> Seq<char> {
    if cond == 0x0 {
        "EQ"@
    } else if cond == 0x1 {
        "NE"@
    } else if cond == 0x2 {
        "CS"@
    } else if cond == 0x3 {
        "CC"@
    } else if cond == 0x4 {
        "MI"@
    } else if cond == 0x5 {
        "PL"@
    } else if cond == 0x6 {
        "VS"@
    } else if cond == 0x7 {
        "VC"@
    } else if cond == 0x8 {
        "HI"@
    } else if cond == 0x9 {
        "LS"@
    } else if cond == 0xa {
        "GE"@
    } else if cond == 0xb {
        "LT"@
    } else if cond == 0xc {
        "GT"@
    } else if cond == 0xd {
        "LE"@
    } else {
        ""@
    }
}

pub fn disassemble_cond(cond: u8) -> (r: &'static str)
    ensures
        r@ == cond_text(cond),
{
    match cond {
        0x0 => "EQ",
        0x1 => "NE",
        0x2 => "CS",
        0x3 => "CC",
        0x4 => "MI",
        0x5 => "PL",
        0x6 => "VS",
        0x7 => "VC",
        0x8 => "HI",
        0x9 => "LS",
        0xa => "GE",
        0xb => "LT",
        0xc => "GT",
        0xd => "LE",
        _ => "",
    }
}

/// Bit `i` of a THUMB instruction.
pub open spec fn hbit(ins: u16, i: u16) -> bool {
    (ins >> i) & 1 == 1
}

fn flag16(ins: u16, i: u16) -> (r: bool)
    requires
        i < 16,
    ensures
        r == hbit(ins, i),
{
    (ins >> i) & 1 == 1
}

/// Mnemonics of the THUMB ALU operations (format 4).
pub open spec fn thumb_alu_text(op: u16) -> Seq<char> {
    if op == 0x0 {
        "AND"@
    } else if op == 0x1 {
        "EOR"@
    } else if op == 0x2 {
        "LSL"@
    } else if op == 0x3 {
        "LSR"@
    } else if op == 0x4 {
        "ASR"@
    } else if op == 0x5 {
        "ADC"@
    } else if op == 0x6 {
        "SBC"@
    } else if op == 0x7 {
        "ROR"@
    } else if op == 0x8 {
        "TST"@
    } else if op == 0x9 {
        "NEG"@
    } else if op == 0xa {
        "CMP"@
    } else if op == 0xb {
        "CMN"@
    } else if op == 0xc {
        "ORR"@
    } else if op == 0xd {
        "MUL"@
    } else if op == 0xe {
        "BIC"@
    } else {
        "MVN"@
    }
}

fn thumb_alu_name(op: u16) -> (r: &'static str)
    ensures
        r@ == thumb_alu_text(op),
{
    match op {
        0x0 => "AND",
        0x1 => "EOR",
        0x2 => "LSL",
        0x3 => "LSR",
        0x4 => "ASR",
        0x5 => "ADC",
        0x6 => "SBC",
        0x7 => "ROR",
        0x8 => "TST",
        0x9 => "NEG",
        0xa => "CMP",
        0xb => "CMN",
        0xc => "ORR",
        0xd => "MUL",
        0xe => "BIC",
        _ => "MVN",
    }
}

/// One of four mnemonics chosen by a two-bit field.
pub open spec fn pick4(op: u16, a: Seq<char>, b: Seq<char>, c: Seq<char>, d: Seq<char>) -> Seq<char> {
    if op == 0 {
        a
    } else if op == 1 {
        b
    } else if op == 2 {
        c
    } else {
        d
    }
}

fn choose4(op: u16, a: &'static str, b: &'static str, c: &'static str, d: &'static str) -> (r: &'static str)
    ensures
        r@ == pick4(op, a@, b@, c@, d@),
{
    if op == 0 {
        a
    } else if op == 1 {
        b
    } else if op == 2 {
        c
    } else {
        d
    }
}

/// Mnemonics of the THUMB conditional branches; condition 14 is undefined.
pub open spec fn thumb_branch_text(cond: u16) -> Seq<char> {
    if cond == 0x0 {
        "BEQ"@
    } else if cond == 0x1 {
        "BNE"@
    } else if cond == 0x2 {
        "BCS"@
    } else if cond == 0x3 {
        "BCC"@
    } else if cond == 0x4 {
        "BMI"@
    } else if cond == 0x5 {
        "BPL"@
    } else if cond == 0x6 {
        "BVS"@
    } else if cond == 0x7 {
        "BVC"@
    } else if cond == 0x8 {
        "BHI"@
    } else if cond == 0x9 {
        "BLS"@
    } else if cond == 0xa {
        "BGE"@
    } else if cond == 0xb {
        "BLT"@
    } else if cond == 0xc {
        "BGT"@
    } else if cond == 0xd {
        "BLE"@
    } else {
        "UNDEFINED"@
    }
}

fn thumb_branch_name(cond: u16) -> (r: &'static str)
    ensures
        r@ == thumb_branch_text(cond),
{
    match cond {
        0x0 => "BEQ",
        0x1 => "BNE",
        0x2 => "BCS",
        0x3 => "BCC",
        0x4 => "BMI",
        0x5 => "BPL",
        0x6 => "BVS",
        0x7 => "BVC",
        0x8 => "BHI",
        0x9 => "BLS",
        0xa => "BGE",
        0xb => "BLT",
        0xc => "BGT",
        0xd => "BLE",
        _ => "UNDEFINED",
    }
}

} // verus!

verus! {

/// A half-word field in decimal.
pub open spec fn dec(x: u16) -> Seq<char> {
    decimal(x as nat)
}

fn append_u16(s: &mut String, x: u16)
    ensures
        final(s)@ == old(s)@ + dec(x),
{
    append_decimal(s, x as u32);
}

/// `Rd, Rs` style operands: " R" + the low field + ", R" + the field at bit 3.
pub open spec fn low_pair(ins: u16) -> Seq<char> {
    " R"@ + dec(ins & 7) + ", R"@ + dec((ins >> 3) & 7)
}

fn append_low_pair(s: &mut String, ins: u16)
    ensures
        final(s)@ == old(s)@ + low_pair(ins),
{
    s.append(" R");
    append_u16(s, ins & 7);
    s.append(", R");
    append_u16(s, (ins >> 3) & 7);
    proof {
        assert(final(s)@ =~= old(s)@ + low_pair(ins));
    }
}

/// The assembly text of THUMB instruction `ins`.
pub open spec fn thumb_text(ins: u16) -> Seq<char> {
    if ins & 0xf800 == 0x1800 {
        (if hbit(ins, 9) { "SUB"@ } else { "ADD"@ }) + low_pair(ins) + (if hbit(ins, 10) {
            ", #"@
        } else {
            ", R"@
        }) + dec((ins >> 6) & 7)
    } else if ins & 0xe000 == 0x0000 {
        pick4((ins >> 11) & 3, "LSL"@, "LSR"@, "ASR"@, "ASR"@) + " R"@ + dec(ins & 3) + ", R"@ + dec(
            (ins >> 3) & 7,
        ) + ", #"@ + dec((ins >> 6) & 0x1f)
    } else if ins & 0xe000 == 0x2000 {
        pick4((ins >> 11) & 3, "MOV"@, "CMP"@, "ADD"@, "SUB"@) + " R"@ + dec((ins >> 8) & 7) + ", #"@
            + dec(ins & 0xff)
    } else if ins & 0xfc00 == 0x4000 {
        thumb_alu_text((ins >> 6) & 0xf) + low_pair(ins)
    } else if ins & 0xfc00 == 0x4400 {
        if (ins >> 8) & 3 == 3 {
            "BX R"@ + dec((ins >> 3) & 0xf)
        } else {
            pick4((ins >> 8) & 3, "ADD"@, "CMP"@, "MOV"@, "BX"@) + " R"@ + dec(
                (ins & 7) | ((ins & 0x80) >> 4),
            ) + ", R"@ + dec((ins >> 3) & 0xf)
        }
    } else if ins & 0xf800 == 0x4800 {
        "LDR R"@ + dec((ins >> 8) & 7) + ", [PC, #"@ + dec(ins & 0xff) + "]"@
    } else if ins & 0xf200 == 0x5000 {
        pick4((ins >> 10) & 3, "STR"@, "STRB"@, "LDR"@, "LDRB"@) + " R"@ + dec(ins & 7) + ", [R"@ + dec(
            (ins >> 3) & 7,
        ) + ", R"@ + dec((ins >> 6) & 7) + "]"@
    } else if ins & 0xf200 == 0x5200 {
        pick4((ins >> 10) & 3, "STRH"@, "LDSB"@, "LDRH"@, "LDSH"@) + " R"@ + dec(ins & 7) + ", [R"@
            + dec((ins >> 3) & 7) + ", R"@ + dec((ins >> 6) & 7) + "]"@
    } else if ins & 0xe000 == 0x6000 {
        pick4((ins >> 11) & 3, "STR"@, "LDR"@, "STRB"@, "LDRB"@) + " R"@ + dec(ins & 7) + ", [R"@ + dec(
            (ins >> 3) & 7,
        ) + ", #"@ + dec((ins >> 6) & 0x1f) + "]"@
    } else if ins & 0xf000 == 0x8000 {
        (if hbit(ins, 11) { "LDRH"@ } else { "STRH"@ }) + " R"@ + dec(ins & 7) + ", [R"@ + dec(
            (ins >> 3) & 7,
        ) + ", #"@ + dec((ins >> 6) & 0x1f) + "]"@
    } else if ins & 0xf000 == 0x9000 {
        (if hbit(ins, 11) { "LDR"@ } else { "STR"@ }) + " R"@ + dec((ins >> 8) & 7) + ", SP, #"@ + dec(
            ((ins & 0xff) * 4) as u16,
        )
    } else if ins & 0xf000 == 0xa000 {
        "ADD R"@ + dec((ins >> 8) & 7) + (if hbit(ins, 11) { ", SP, #"@ } else { ", PC, #"@ }) + dec(
            ins & 0xff,
        )
    } else if ins & 0xff00 == 0xb000 {
        (if hbit(ins, 7) { "SUB SP, #"@ } else { "ADD SP, #"@ }) + dec(((ins & 0x7f) * 4) as u16)
    } else if ins & 0xf600 == 0xb400 {
        let pop = hbit(ins, 11);
        let head = (if pop { "POP "@ } else { "PUSH "@ }) + register_list_text(ins as u32, true);
        if hbit(ins, 8) {
            head + (if pop { ", PC"@ } else { ", LR"@ })
        } else {
            head
        }
    } else if ins & 0xf000 == 0xc000 {
        (if hbit(ins, 11) { "LDMIA R"@ } else { "STMIA R"@ }) + dec((ins >> 8) & 7) + "!, "@
            + register_list_text(ins as u32, true)
    } else if ins & 0xff00 == 0xdf00 {
        "SWI"@
    } else if ins & 0xf000 == 0xd000 {
        thumb_branch_text((ins >> 8) & 0xf) + " Offset: "@ + signed_decimal(
            sign_extended((ins & 0xff) as u32, 8) * 2,
        )
    } else if ins & 0xf800 == 0xe000 {
        "B Offset: #"@ + signed_decimal(sign_extended((ins & 0x7ff) as u32, 11) * 2)
    } else if ins & 0xf800 == 0xf000 {
        "BL Target: #"@ + signed_decimal(sign_extended((ins & 0x7ff) as u32, 11) * 4096) + " + "@
    } else if ins & 0xf800 == 0xf800 {
        "#"@ + signed_decimal(sign_extended((ins & 0x7ff) as u32, 11) * 2)
    } else {
        "Missing instruction!"@
    }
}

/// The signed offset field of `width` bits, sign-extended and scaled.
fn signed_field(ins: u16, mask: u16, width: u8, scale: i32) -> (r: i32)
    requires
        (mask == 0xff && width == 8) || (mask == 0x7ff && width == 11),
        scale == 2 || scale == 4096,
    ensures
        r == sign_extended((ins & mask) as u32, width) * scale,
{
    proof {
        vstd::arithmetic::power2::lemma2_to64();
        crate::bits::lemma_and_le_u16(ins, 0xff);
        crate::bits::lemma_and_le_u16(ins, 0x7ff);
    }
    let v = sign_extend((ins & mask) as u32, width);
    v * scale
}

fn disassemble_thumb_data(instruction: u16) -> (r: String)
    requires
        instruction & 0xf800 == 0x1800 || instruction & 0xe000 == 0x0000 || instruction & 0xe000 == 0x2000
            || instruction & 0xfc00 == 0x4000 || instruction & 0xfc00 == 0x4400,
    ensures
        r@ == thumb_text(instruction),
{
    let mut s: String;
    if (instruction & 0xf800) == 0x1800 {
        s = String::from_str(if flag16(instruction, 9) { "SUB" } else { "ADD" });
        append_low_pair(&mut s, instruction);
        s.append(if flag16(instruction, 10) { ", #" } else { ", R" });
        append_u16(&mut s, (instruction >> 6) & 7);
    } else if (instruction & 0xe000) == 0x0000 {
        s = String::from_str(choose4((instruction >> 11) & 3, "LSL", "LSR", "ASR", "ASR"));
        s.append(" R");
        append_u16(&mut s, instruction & 3);
        s.append(", R");
        append_u16(&mut s, (instruction >> 3) & 7);
        s.append(", #");
        append_u16(&mut s, (instruction >> 6) & 0x1f);
    } else if (instruction & 0xe000) == 0x2000 {
        s = String::from_str(choose4((instruction >> 11) & 3, "MOV", "CMP", "ADD", "SUB"));
        s.append(" R");
        append_u16(&mut s, (instruction >> 8) & 7);
        s.append(", #");
        append_u16(&mut s, instruction & 0xff);
    } else if (instruction & 0xfc00) == 0x4000 {
        s = String::from_str(thumb_alu_name((instruction >> 6) & 0xf));
        append_low_pair(&mut s, instruction);
    } else {
        let op = (instruction >> 8) & 3;
        if op == 3 {
            s = String::from_str("BX R");
            append_u16(&mut s, (instruction >> 3) & 0xf);
        } else {
            s = String::from_str(choose4(op, "ADD", "CMP", "MOV", "BX"));
            s.append(" R");
            append_u16(&mut s, (instruction & 7) | ((instruction & 0x80) >> 4));
            s.append(", R");
            append_u16(&mut s, (instruction >> 3) & 0xf);
        }
    }
    proof {
        assert(s@ =~= thumb_text(instruction));
    }
    s
}

} // verus!

verus! {

fn disassemble_thumb_transfer(instruction: u16) -> (r: String)
    requires
        !(instruction & 0xf800 == 0x1800 || instruction & 0xe000 == 0x0000 || instruction & 0xe000
            == 0x2000 || instruction & 0xfc00 == 0x4000 || instruction & 0xfc00 == 0x4400),
        instruction & 0xf800 == 0x4800 || instruction & 0xf200 == 0x5000 || instruction & 0xf200
            == 0x5200 || instruction & 0xe000 == 0x6000 || instruction & 0xf000 == 0x8000
            || instruction & 0xf000 == 0x9000,
    ensures
        r@ == thumb_text(instruction),
{
    let mut s: String;
    if instruction & 0xf800 == 0x4800 {
        s = String::from_str("LDR R");
        append_u16(&mut s, (instruction >> 8) & 7);
        s.append(", [PC, #");
        append_u16(&mut s, instruction & 0xff);
        s.append("]");
    } else if instruction & 0xf200 == 0x5000 || instruction & 0xf200 == 0x5200 {
        let op = (instruction >> 10) & 3;
        s = String::from_str(
            if instruction & 0xf200 == 0x5000 {
                choose4(op, "STR", "STRB", "LDR", "LDRB")
            } else {
                choose4(op, "STRH", "LDSB", "LDRH", "LDSH")
            },
        );
        s.append(" R");
        append_u16(&mut s, instruction & 7);
        s.append(", [R");
        append_u16(&mut s, (instruction >> 3) & 7);
        s.append(", R");
        append_u16(&mut s, (instruction >> 6) & 7);
        s.append("]");
    } else if instruction & 0xe000 == 0x6000 || instruction & 0xf000 == 0x8000 {
        s = String::from_str(
            if instruction & 0xe000 == 0x6000 {
                choose4((instruction >> 11) & 3, "STR", "LDR", "STRB", "LDRB")
            } else if flag16(instruction, 11) {
                "LDRH"
            } else {
                "STRH"
            },
        );
        s.append(" R");
        append_u16(&mut s, instruction & 7);
        s.append(", [R");
        append_u16(&mut s, (instruction >> 3) & 7);
        s.append(", #");
        append_u16(&mut s, (instruction >> 6) & 0x1f);
        s.append("]");
    } else {
        s = String::from_str(if flag16(instruction, 11) { "LDR" } else { "STR" });
        s.append(" R");
        append_u16(&mut s, (instruction >> 8) & 7);
        s.append(", SP, #");
        proof {
            crate::bits::lemma_and_le_u16(instruction, 0xff);
        }
        append_u16(&mut s, (instruction & 0xff) * 4);
    }
    proof {
        assert(s@ =~= thumb_text(instruction));
    }
    s
}

fn disassemble_thumb_stack(instruction: u16) -> (r: String)
    requires
        !(instruction & 0xf800 == 0x1800 || instruction & 0xe000 == 0x0000 || instruction & 0xe000
            == 0x2000 || instruction & 0xfc00 == 0x4000 || instruction & 0xfc00 == 0x4400
            || instruction & 0xf800 == 0x4800 || instruction & 0xf200 == 0x5000 || instruction & 0xf200
            == 0x5200 || instruction & 0xe000 == 0x6000 || instruction & 0xf000 == 0x8000
            || instruction & 0xf000 == 0x9000),
        instruction & 0xf000 == 0xa000 || instruction & 0xff00 == 0xb000 || instruction & 0xf600
            == 0xb400 || instruction & 0xf000 == 0xc000,
    ensures
        r@ == thumb_text(instruction),
{
    let mut s: String;
    if instruction & 0xf000 == 0xa000 {
        s = String::from_str("ADD R");
        append_u16(&mut s, (instruction >> 8) & 7);
        s.append(if flag16(instruction, 11) { ", SP, #" } else { ", PC, #" });
        append_u16(&mut s, instruction & 0xff);
    } else if instruction & 0xff00 == 0xb000 {
        s = String::from_str(if flag16(instruction, 7) { "SUB SP, #" } else { "ADD SP, #" });
        proof {
            crate::bits::lemma_and_le_u16(instruction, 0x7f);
        }
        append_u16(&mut s, (instruction & 0x7f) * 4);
    } else if instruction & 0xf600 == 0xb400 {
        let pop = flag16(instruction, 11);
        s = String::from_str(if pop { "POP " } else { "PUSH " });
        let regs = get_register_list(instruction as u32, true);
        s.append(regs.as_str());
        if flag16(instruction, 8) {
            s.append(if pop { ", PC" } else { ", LR" });
        }
    } else {
        s = String::from_str(if flag16(instruction, 11) { "LDMIA R" } else { "STMIA R" });
        append_u16(&mut s, (instruction >> 8) & 7);
        s.append("!, ");
        let regs = get_register_list(instruction as u32, true);
        s.append(regs.as_str());
    }
    proof {
        assert(s@ =~= thumb_text(instruction));
    }
    s
}

/// The assembly text of a THUMB instruction.
pub fn disassemble_thumb(instruction: u16) -> (r: String)
    ensures
        r@ == thumb_text(instruction),
{
    if instruction & 0xf800 == 0x1800 || instruction & 0xe000 == 0x0000 || instruction & 0xe000 == 0x2000
        || instruction & 0xfc00 == 0x4000 || instruction & 0xfc00 == 0x4400 {
        disassemble_thumb_data(instruction)
    } else if instruction & 0xf800 == 0x4800 || instruction & 0xf200 == 0x5000 || instruction & 0xf200
        == 0x5200 || instruction & 0xe000 == 0x6000 || instruction & 0xf000 == 0x8000 || instruction
        & 0xf000 == 0x9000 {
        disassemble_thumb_transfer(instruction)
    } else if instruction & 0xf000 == 0xa000 || instruction & 0xff00 == 0xb000 || instruction & 0xf600
        == 0xb400 || instruction & 0xf000 == 0xc000 {
        disassemble_thumb_stack(instruction)
    } else {
        let mut s: String;
        if instruction & 0xff00 == 0xdf00 {
            s = String::from_str("SWI");
        } else if instruction & 0xf000 == 0xd000 {
            s = String::from_str(thumb_branch_name((instruction >> 8) & 0xf));
            s.append(" Offset: ");
            append_signed(&mut s, signed_field(instruction, 0xff, 8, 2));
        } else if instruction & 0xf800 == 0xe000 {
            s = String::from_str("B Offset: #");
            append_signed(&mut s, signed_field(instruction, 0x7ff, 11, 2));
        } else if instruction & 0xf800 == 0xf000 {
            s = String::from_str("BL Target: #");
            append_signed(&mut s, signed_field(instruction, 0x7ff, 11, 4096));
            s.append(" + ");
        } else if instruction & 0xf800 == 0xf800 {
            s = String::from_str("#");
            append_signed(&mut s, signed_field(instruction, 0x7ff, 11, 2));
        } else {
            s = String::from_str("Missing instruction!");
        }
        proof {
            assert(s@ =~= thumb_text(instruction));
        }
        s
    }
}

} // verus!

verus! {

/// A word field in decimal.
pub open spec fn wdec(x: u32) -> Seq<char> {
    decimal(x as nat)
}

/// `s` when `b` holds, nothing otherwise.
pub open spec fn when(b: bool, s: Seq<char>) -> Seq<char> {
    if b {
        s
    } else {
        Seq::empty()
    }
}

fn append_when(s: &mut String, b: bool, text: &str)
    ensures
        final(s)@ == old(s)@ + when(b, text@),
{
    if b {
        s.append(text);
    } else {
        proof {
            assert(old(s)@ + when(b, text@) =~= old(s)@);
        }
    }
}

/// The names of the barrel shifter operations.
pub open spec fn shift_text(t: u32) -> Seq<char> {
    if t == 0 {
        "LSL"@
    } else if t == 1 {
        "LSR"@
    } else if t == 2 {
        "ASR"@
    } else {
        "ROR"@
    }
}

fn shift_name(t: u32) -> (r: &'static str)
    ensures
        r@ == shift_text(t),
{
    if t == 0 {
        "LSL"
    } else if t == 1 {
        "LSR"
    } else if t == 2 {
        "ASR"
    } else {
        "ROR"
    }
}

/// Mnemonics of the multiplies (opcodes 2 and 3 do not exist).
pub open spec fn arm_multiply_text(op: u32) -> Seq<char> {
    if op == 0 {
        "MUL"@
    } else if op == 1 {
        "MLA"@
    } else if op == 4 {
        "UMULL"@
    } else if op == 5 {
        "UMLAL"@
    } else if op == 6 {
        "SMULL"@
    } else {
        "SMLAL"@
    }
}

fn arm_multiply_name(op: u32) -> (r: &'static str)
    ensures
        r@ == arm_multiply_text(op),
{
    if op == 0 {
        "MUL"
    } else if op == 1 {
        "MLA"
    } else if op == 4 {
        "UMULL"
    } else if op == 5 {
        "UMLAL"
    } else if op == 6 {
        "SMULL"
    } else {
        "SMLAL"
    }
}

/// Mnemonics of the data processing opcodes.
pub open spec fn arm_dp_text(op: u32) -> Seq<char> {
    if op == 0x0 {
        "AND"@
    } else if op == 0x1 {
        "EOR"@
    } else if op == 0x2 {
        "SUB"@
    } else if op == 0x3 {
        "RSB"@
    } else if op == 0x4 {
        "ADD"@
    } else if op == 0x5 {
        "ADC"@
    } else if op == 0x6 {
        "SBC"@
    } else if op == 0x7 {
        "RSC"@
    } else if op == 0x8 {
        "TST"@
    } else if op == 0x9 {
        "TEQ"@
    } else if op == 0xa {
        "CMP"@
    } else if op == 0xb {
        "CMN"@
    } else if op == 0xc {
        "ORR"@
    } else if op == 0xd {
        "MOV"@
    } else if op == 0xe {
        "BIC"@
    } else {
        "MVN"@
    }
}

fn arm_dp_name(op: u32) -> (r: &'static str)
    ensures
        r@ == arm_dp_text(op),
{
    match op {
        0x0 => "AND",
        0x1 => "EOR",
        0x2 => "SUB",
        0x3 => "RSB",
        0x4 => "ADD",
        0x5 => "ADC",
        0x6 => "SBC",
        0x7 => "RSC",
        0x8 => "TST",
        0x9 => "TEQ",
        0xa => "CMP",
        0xb => "CMN",
        0xc => "ORR",
        0xd => "MOV",
        0xe => "BIC",
        _ => "MVN",
    }
}

/// The field letters of an MSR (bit 15, then bits 18, 17, 16), after an
/// underscore when there are any.
pub open spec fn msr_fields_text(ins: u32) -> Seq<char> {
    let any = bit32(ins, 15) || bit32(ins, 18) || bit32(ins, 17) || bit32(ins, 16);
    when(any, "_"@) + when(bit32(ins, 15), "f"@) + when(bit32(ins, 18), "s"@) + when(bit32(ins, 17), "x"@)
        + when(bit32(ins, 16), "c"@)
}

/// The address operand of an LDR/STR.
pub open spec fn single_address_text(ins: u32) -> Seq<char> {
    let rn = wdec((ins >> 16) & 0xf);
    let u = if bit32(ins, 23) { "+"@ } else { "-"@ };
    if bit32(ins, 25) {
        "[R"@ + rn + ", R"@ + wdec(ins & 0xf) + ", "@ + shift_text((ins >> 5) & 3) + " #"@ + wdec(
            (ins >> 7) & 0x1f,
        ) + "]"@
    } else if bit32(ins, 24) {
        "[R"@ + rn + ", #"@ + u + wdec(ins & 0xfff) + (if bit32(ins, 21) { "]!"@ } else { "]"@ })
    } else {
        "[R"@ + rn + "], #"@ + u + wdec(ins & 0xfff)
    }
}

/// The suffix of a half-word transfer.
pub open spec fn half_suffix_text(ins: u32) -> Seq<char> {
    if bit32(ins, 5) {
        "H"@
    } else if ins & 0x30 != 0 {
        "SB"@
    } else {
        "SH"@
    }
}

/// The shifter operand of a data processing instruction.
pub open spec fn shifter_text(ins: u32) -> Seq<char> {
    if bit32(ins, 25) {
        "#"@ + wdec(rotr(ins & 0xff, (((ins >> 8) & 0xf) * 2) as u32))
    } else if bit32(ins, 4) {
        "R"@ + wdec(ins & 0xf) + ", "@ + shift_text((ins >> 5) & 3) + ", R"@ + wdec((ins >> 8) & 0xf)
    } else {
        "R"@ + wdec(ins & 0xf) + ", "@ + shift_text((ins >> 5) & 3) + ", #"@ + wdec((ins >> 7) & 0x1f)
    }
}

/// A data processing instruction: compares name no destination and set no
/// "S"; moves name no first operand.
pub open spec fn dp_text(ins: u32, c: Seq<char>) -> Seq<char> {
    let op = (ins >> 21) & 0xf;
    let compare = 0x8 <= op <= 0xb;
    let rd = "R"@ + wdec((ins >> 12) & 0xf) + ","@;
    let rn = "R"@ + wdec((ins >> 16) & 0xf) + ","@;
    arm_dp_text(op) + when(bit32(ins, 20) && !compare, "S"@) + " "@ + c + " "@ + when(!compare, rd) + when(
        op != 0xd && op != 0xf,
        rn,
    ) + " "@ + shifter_text(ins)
}

/// The assembly text of ARM instruction `ins`.
pub open spec fn arm_text(ins: u32) -> Seq<char> {
    let c = cond_text((ins >> 28) as u8);
    if ins & 0x0fff_fff0 == 0x012f_ff10 {
        "BX "@ + c + " R"@ + wdec(ins & 0xf)
    } else if ins & 0x0e00_0000 == 0x0a00_0000 {
        (if bit32(ins, 24) { "BL "@ } else { "B "@ }) + c + " #"@ + wdec(ins & 0xff_ffff)
    } else if ins & 0xe000_0010 == 0x0600_0010 {
        "Undefined instruction!"@
    } else if ins & 0x0fb0_0ff0 == 0x0100_0090 {
        (if bit32(ins, 22) { "SWPB R"@ } else { "SWP R"@ }) + wdec((ins >> 12) & 0xf) + ", R"@ + wdec(
            ins & 0xf,
        ) + ", R"@ + wdec((ins >> 16) & 0xf)
    } else if ins & 0x0f00_00f0 == 0x0000_0090 {
        arm_multiply_text((ins >> 21) & 0xf) + when(bit32(ins, 20), "S"@) + " "@ + c + " R"@ + wdec(
            (ins >> 16) & 0xf,
        ) + ", R"@ + wdec(ins & 0xf) + ", R"@ + wdec((ins >> 8) & 0xf)
    } else if ins & 0x0fbf_0fff == 0x010f_0000 {
        "MRS "@ + c + " R"@ + wdec((ins >> 12) & 0xf) + (if bit32(ins, 22) { ", CPSR"@ } else {
            ", SPSR"@
        })
    } else if ins & 0x0db0_f000 == 0x0120_f000 {
        "MSR "@ + c + (if bit32(ins, 22) { " SPSR"@ } else { " CPSR"@ }) + msr_fields_text(ins) + (if bit32(
            ins,
            25,
        ) {
            ", #"@
        } else {
            ", R"@
        }) + wdec(ins & 0xff)
    } else if ins & 0x0c00_0000 == 0x0400_0000 {
        (if bit32(ins, 20) { "LDR"@ } else { "STR"@ }) + when(bit32(ins, 22), "B"@) + when(
            !bit32(ins, 24) && bit32(ins, 21),
            "T"@,
        ) + " "@ + c + " R"@ + wdec((ins >> 12) & 0xf) + ", "@ + single_address_text(ins)
    } else if ins & 0x0e40_0f90 == 0x0000_0090 {
        (if bit32(ins, 20) { "LDR"@ } else { "STR"@ }) + half_suffix_text(ins) + " "@ + c + " R"@ + wdec(
            ins & 0xf,
        )
    } else if ins & 0x0e40_0090 == 0x0040_0090 {
        (if bit32(ins, 20) { "LDR"@ } else { "STR"@ }) + half_suffix_text(ins) + " "@ + c + " #"@ + wdec(
            ((ins & 0xf00) >> 4) | (ins & 0xf),
        )
    } else if ins & 0x0e00_0000 == 0x0800_0000 {
        (if bit32(ins, 20) { "LDM"@ } else { "STM"@ }) + (if bit32(ins, 23) { "I"@ } else { "D"@ }) + (if bit32(
            ins,
            24,
        ) {
            "B"@
        } else {
            "A"@
        }) + " "@ + c + " R"@ + wdec((ins >> 16) & 0xf) + when(bit32(ins, 21), "!"@) + ", "@
            + register_list_text(ins, false) + when(bit32(ins, 22), "^"@)
    } else if ins & 0x0f00_0000 == 0x0f00_0000 {
        "SWI"@
    } else if ins & 0x0c00_0000 == 0x0000_0000 {
        dp_text(ins, c)
    } else {
        "Missing instruction!"@
    }
}

/// The words the ARM disassembler handles: all but the multiplies with the
/// nonexistent opcodes 2 and 3.
pub open spec fn arm_disassembly_defined(ins: u32) -> bool {
    !(ins & 0x0fff_fff0 != 0x012f_ff10 && ins & 0x0e00_0000 != 0x0a00_0000 && ins & 0xe000_0010
        != 0x0600_0010 && ins & 0x0fb0_0ff0 != 0x0100_0090 && ins & 0x0f00_00f0 == 0x0000_0090 && (((ins
        >> 21) & 0xf) == 2 || ((ins >> 21) & 0xf) == 3))
}

/// Whether `disassemble_arm` handles `instruction`.
pub fn can_disassemble_arm(instruction: u32) -> (r: bool)
    ensures
        r == arm_disassembly_defined(instruction),
{
    !(instruction & 0x0fff_fff0 != 0x012f_ff10 && instruction & 0x0e00_0000 != 0x0a00_0000 && instruction
        & 0xe000_0010 != 0x0600_0010 && instruction & 0x0fb0_0ff0 != 0x0100_0090 && instruction
        & 0x0f00_00f0 == 0x0000_0090 && (((instruction >> 21) & 0xf) == 2 || ((instruction >> 21) & 0xf)
        == 3))
}

fn get_flag(ins: u32, i: u32) -> (r: bool)
    requires
        i < 32,
    ensures
        r == bit32(ins, i),
{
    (ins >> i) & 1 == 1
}

fn append_u32(s: &mut String, x: u32)
    ensures
        final(s)@ == old(s)@ + wdec(x),
{
    append_decimal(s, x);
}

} // verus!

verus! {

fn disassemble_arm_control(instruction: u32, c: &'static str) -> (r: String)
    requires
        c@ == cond_text((instruction >> 28) as u8),
        arm_disassembly_defined(instruction),
        instruction & 0x0fff_fff0 == 0x012f_ff10 || instruction & 0x0e00_0000 == 0x0a00_0000 || instruction
            & 0xe000_0010 == 0x0600_0010 || instruction & 0x0fb0_0ff0 == 0x0100_0090 || instruction
            & 0x0f00_00f0 == 0x0000_0090 || instruction & 0x0fbf_0fff == 0x010f_0000 || instruction
            & 0x0db0_f000 == 0x0120_f000,
    ensures
        r@ == arm_text(instruction),
{
    let mut s: String;
    if instruction & 0x0fff_fff0 == 0x012f_ff10 {
        s = String::from_str("BX ");
        s.append(c);
        s.append(" R");
        append_u32(&mut s, instruction & 0xf);
    } else if instruction & 0x0e00_0000 == 0x0a00_0000 {
        s = String::from_str(if get_flag(instruction, 24) { "BL " } else { "B " });
        s.append(c);
        s.append(" #");
        append_u32(&mut s, instruction & 0x00ff_ffff);
    } else if instruction & 0xe000_0010 == 0x0600_0010 {
        s = String::from_str("Undefined instruction!");
    } else if instruction & 0x0fb0_0ff0 == 0x0100_0090 {
        s = String::from_str(if get_flag(instruction, 22) { "SWPB R" } else { "SWP R" });
        append_u32(&mut s, (instruction >> 12) & 0xf);
        s.append(", R");
        append_u32(&mut s, instruction & 0xf);
        s.append(", R");
        append_u32(&mut s, (instruction >> 16) & 0xf);
    } else if instruction & 0x0f00_00f0 == 0x0000_0090 {
        s = String::from_str(arm_multiply_name((instruction >> 21) & 0xf));
        append_when(&mut s, get_flag(instruction, 20), "S");
        s.append(" ");
        s.append(c);
        s.append(" R");
        append_u32(&mut s, (instruction >> 16) & 0xf);
        s.append(", R");
        append_u32(&mut s, instruction & 0xf);
        s.append(", R");
        append_u32(&mut s, (instruction >> 8) & 0xf);
    } else if instruction & 0x0fbf_0fff == 0x010f_0000 {
        s = String::from_str("MRS ");
        s.append(c);
        s.append(" R");
        append_u32(&mut s, (instruction >> 12) & 0xf);
        s.append(if get_flag(instruction, 22) { ", CPSR" } else { ", SPSR" });
    } else {
        s = String::from_str("MSR ");
        s.append(c);
        s.append(if get_flag(instruction, 22) { " SPSR" } else { " CPSR" });
        let f = get_flag(instruction, 15);
        let fs = get_flag(instruction, 18);
        let fx = get_flag(instruction, 17);
        let fc = get_flag(instruction, 16);
        append_when(&mut s, f || fs || fx || fc, "_");
        append_when(&mut s, f, "f");
        append_when(&mut s, fs, "s");
        append_when(&mut s, fx, "x");
        append_when(&mut s, fc, "c");
        s.append(if get_flag(instruction, 25) { ", #" } else { ", R" });
        append_u32(&mut s, instruction & 0xff);
    }
    proof {
        assert(s@ =~= arm_text(instruction));
    }
    s
}

fn append_single_address(s: &mut String, instruction: u32)
    ensures
        final(s)@ == old(s)@ + single_address_text(instruction),
{
    let u = if get_flag(instruction, 23) { "+" } else { "-" };
    let ghost start = s@;
    s.append("[R");
    append_u32(s, (instruction >> 16) & 0xf);
    if get_flag(instruction, 25) {
        s.append(", R");
        append_u32(s, instruction & 0xf);
        s.append(", ");
        s.append(shift_name((instruction >> 5) & 3));
        s.append(" #");
        append_u32(s, (instruction >> 7) & 0x1f);
        s.append("]");
    } else if get_flag(instruction, 24) {
        s.append(", #");
        s.append(u);
        append_u32(s, instruction & 0xfff);
        s.append(if get_flag(instruction, 21) { "]!" } else { "]" });
    } else {
        s.append("], #");
        s.append(u);
        append_u32(s, instruction & 0xfff);
    }
    proof {
        assert(s@ =~= start + single_address_text(instruction));
    }
}

/// Single and half-word transfers are never block transfers.
proof fn lemma_transfer_classes(ins: u32)
    by (bit_vector)
    ensures
        ins & 0x0c00_0000 == 0x0400_0000 ==> ins & 0x0e00_0000 != 0x0800_0000,
        ins & 0x0e40_0f90 == 0x0000_0090 ==> ins & 0x0e00_0000 != 0x0800_0000,
        ins & 0x0e40_0090 == 0x0040_0090 ==> ins & 0x0e00_0000 != 0x0800_0000,
{
}

fn disassemble_arm_transfer(instruction: u32, c: &'static str) -> (r: String)
    requires
        c@ == cond_text((instruction >> 28) as u8),
        !(instruction & 0x0fff_fff0 == 0x012f_ff10 || instruction & 0x0e00_0000 == 0x0a00_0000
            || instruction & 0xe000_0010 == 0x0600_0010 || instruction & 0x0fb0_0ff0 == 0x0100_0090
            || instruction & 0x0f00_00f0 == 0x0000_0090 || instruction & 0x0fbf_0fff == 0x010f_0000
            || instruction & 0x0db0_f000 == 0x0120_f000),
        instruction & 0x0c00_0000 == 0x0400_0000 || instruction & 0x0e40_0f90 == 0x0000_0090
            || instruction & 0x0e40_0090 == 0x0040_0090 || instruction & 0x0e00_0000 == 0x0800_0000,
    ensures
        r@ == arm_text(instruction),
{
    proof {
        lemma_transfer_classes(instruction);
    }
    let mut s: String = String::from_str(
        if instruction & 0x0e00_0000 == 0x0800_0000 {
            if get_flag(instruction, 20) { "LDM" } else { "STM" }
        } else if get_flag(instruction, 20) {
            "LDR"
        } else {
            "STR"
        },
    );
    if instruction & 0x0c00_0000 == 0x0400_0000 {
        append_when(&mut s, get_flag(instruction, 22), "B");
        append_when(&mut s, !get_flag(instruction, 24) && get_flag(instruction, 21), "T");
        s.append(" ");
        s.append(c);
        s.append(" R");
        append_u32(&mut s, (instruction >> 12) & 0xf);
        s.append(", ");
        append_single_address(&mut s, instruction);
        proof {
            assert(s@ =~= arm_text(instruction));
        }
    } else if instruction & 0x0e40_0f90 == 0x0000_0090 || instruction & 0x0e40_0090 == 0x0040_0090 {
        s.append(
            if get_flag(instruction, 5) {
                "H"
            } else if instruction & 0x30 != 0 {
                "SB"
            } else {
                "SH"
            },
        );
        s.append(" ");
        s.append(c);
        if instruction & 0x0e40_0f90 == 0x0000_0090 {
            s.append(" R");
            append_u32(&mut s, instruction & 0xf);
            proof {
                assert(s@ =~= arm_text(instruction));
            }
        } else {
            s.append(" #");
            append_u32(&mut s, ((instruction & 0xf00) >> 4) | (instruction & 0xf));
            proof {
                assert(s@ =~= arm_text(instruction));
            }
        }
    } else {
        s.append(if get_flag(instruction, 23) { "I" } else { "D" });
        s.append(if get_flag(instruction, 24) { "B" } else { "A" });
        s.append(" ");
        s.append(c);
        s.append(" R");
        append_u32(&mut s, (instruction >> 16) & 0xf);
        append_when(&mut s, get_flag(instruction, 21), "!");
        s.append(", ");
        let regs = get_register_list(instruction, false);
        s.append(regs.as_str());
        append_when(&mut s, get_flag(instruction, 22), "^");
        proof {
            assert(s@ =~= arm_text(instruction));
        }
    }
    s
}

fn append_shifter(s: &mut String, instruction: u32)
    ensures
        final(s)@ == old(s)@ + shifter_text(instruction),
{
    let ghost start = s@;
    if get_flag(instruction, 25) {
        s.append("#");
        proof {
            crate::bits::lemma_and_le_u32(instruction >> 8, 0xf);
        }
        append_u32(s, rotate_right(instruction & 0xff, ((instruction >> 8) & 0xf) * 2));
    } else {
        s.append("R");
        append_u32(s, instruction & 0xf);
        s.append(", ");
        s.append(shift_name((instruction >> 5) & 3));
        if get_flag(instruction, 4) {
            s.append(", R");
            append_u32(s, (instruction >> 8) & 0xf);
        } else {
            s.append(", #");
            append_u32(s, (instruction >> 7) & 0x1f);
        }
    }
    proof {
        assert(s@ =~= start + shifter_text(instruction));
    }
}

fn disassemble_data_processing(instruction: u32, c: &'static str) -> (r: String)
    requires
        c@ == cond_text((instruction >> 28) as u8),
    ensures
        r@ == dp_text(instruction, c@),
{
    let op = (instruction >> 21) & 0xf;
    let compare = 0x8 <= op && op <= 0xb;
    let mut s = String::from_str(arm_dp_name(op));
    append_when(&mut s, get_flag(instruction, 20) && !compare, "S");
    s.append(" ");
    s.append(c);
    s.append(" ");
    if !compare {
        s.append("R");
        append_u32(&mut s, (instruction >> 12) & 0xf);
        s.append(",");
    }
    if op != 0xd && op != 0xf {
        s.append("R");
        append_u32(&mut s, (instruction >> 16) & 0xf);
        s.append(",");
    }
    s.append(" ");
    append_shifter(&mut s, instruction);
    proof {
        assert(s@ =~= dp_text(instruction, c@));
    }
    s
}

/// The assembly text of an ARM instruction.
pub fn disassemble_arm(instruction: u32) -> (r: String)
    requires
        arm_disassembly_defined(instruction),
    ensures
        r@ == arm_text(instruction),
{
    proof {
        crate::bits::lemma_top_bits(instruction, 0, 0);
    }
    let c = disassemble_cond((instruction >> 28) as u8);
    if instruction & 0x0fff_fff0 == 0x012f_ff10 || instruction & 0x0e00_0000 == 0x0a00_0000 || instruction
        & 0xe000_0010 == 0x0600_0010 || instruction & 0x0fb0_0ff0 == 0x0100_0090 || instruction
        & 0x0f00_00f0 == 0x0000_0090 || instruction & 0x0fbf_0fff == 0x010f_0000 || instruction
        & 0x0db0_f000 == 0x0120_f000 {
        disassemble_arm_control(instruction, c)
    } else if instruction & 0x0c00_0000 == 0x0400_0000 || instruction & 0x0e40_0f90 == 0x0000_0090
        || instruction & 0x0e40_0090 == 0x0040_0090 || instruction & 0x0e00_0000 == 0x0800_0000 {
        disassemble_arm_transfer(instruction, c)
    } else if instruction & 0x0f00_0000 == 0x0f00_0000 {
        String::from_str("SWI")
    } else if instruction & 0x0c00_0000 == 0x0000_0000 {
        disassemble_data_processing(instruction, c)
    } else {
        String::from_str("Missing instruction!")
    }
}

} // verus!

verus! {

/// The assembly text of a fetched instruction: a THUMB half-word or an ARM
/// word, by `thumb`; `None` for an ARM word the disassembler does not handle.
pub open spec fn fetched_text(instruction: u32, thumb: bool) -> Option<Seq<char>> {
    if thumb {
        Some(thumb_text(instruction as u16))
    } else if arm_disassembly_defined(instruction) {
        Some(arm_text(instruction))
    } else {
        None
    }
}

/// Disassembles a fetched instruction; see `fetched_text`.
pub fn disassemble_fetched(instruction: u32, thumb: bool) -> (r: Option<String>)
    ensures
        r is None <==> fetched_text(instruction, thumb) is None,
        r matches Some(text) ==> fetched_text(instruction, thumb) == Some(text@),
{
    if thumb {
        Some(disassemble_thumb(instruction as u16))
    } else if can_disassemble_arm(instruction) {
        Some(disassemble_arm(instruction))
    } else {
        None
    }
}

/// The assembly text of the instruction at the program counter, read as
/// THUMB or ARM code by the processor's state; `None` for an ARM word the
/// disassembler does not handle.
pub fn disassemble_instruction(cpu: &CPU, bus: &SystemBus) -> (r: Option<String>)
    requires
        bus@.wf(),
    ensures
        r is None <==> (!cpu@.thumb() && !arm_disassembly_defined(bus@.read_32(cpu@.pc()))),
        r matches Some(text) ==> text@ == (if cpu@.thumb() {
            thumb_text(bus@.read_16(cpu@.pc()))
        } else {
            arm_text(bus@.read_32(cpu@.pc()))
        }),
{
    let pc = cpu.get_current_pc();
    if cpu.get_cpsr().get_t() {
        disassemble_fetched(bus.read_16(pc) as u32, true)
    } else {
        disassemble_fetched(bus.read_32(pc), false)
    }
}

} // verus!

verus! {

/// The three letters of a mnemonic as one number.
spec fn mnemonic_key(t: Seq<char>) -> int {
    t[0] as int * 65536 + t[1] as int * 256 + t[2] as int
}

/// `mnemonic_key` of the mnemonic of each data processing opcode.
spec fn dp_mnemonic_key(op: u32) -> int {
    if op == 0 {
        4279876
    } else if op == 1 {
        4542290
    } else if op == 2 {
        5461314
    } else if op == 3 {
        5395266
    } else if op == 4 {
        4277316
    } else if op == 5 {
        4277315
    } else if op == 6 {
        5456451
    } else if op == 7 {
        5395267
    } else if op == 8 {
        5526356
    } else if op == 9 {
        5522769
    } else if op == 10 {
        4410704
    } else if op == 11 {
        4410702
    } else if op == 12 {
        5198418
    } else if op == 13 {
        5066582
    } else if op == 14 {
        4344131
    } else if op == 15 {
        5068366
    } else {
        0
    }
}

/// The mnemonics of the sixteen data processing opcodes are pairwise
/// distinct, and each names what the processor computes for its opcode
/// from the first operand `rn`, the shifter operand `x` and the carry `C`:
/// AND and TST `rn & x`, EOR and TEQ `rn ^ x`, ORR `rn | x`, BIC
/// `rn & !x`, MOV `x`, MVN `!x`, ADD and CMN `rn + x`, SUB and CMP
/// `rn - x`, RSB `x - rn`, ADC `rn + x + C`, SBC `rn - x - (1 - C)` and
/// RSC `x - rn - (1 - C)` (arithmetic modulo 2^32). The four comparisons
/// TST, TEQ, CMP and CMN are exactly the opcodes that write no register.
pub proof fn lemma_data_processing_mnemonics(op1: u32, op2: u32, rn: u32, x: u32, cf: bool, sc: bool)
    requires
        op1 < 16,
        op2 < 16,
    ensures
        op1 != op2 ==> arm_dp_text(op1) != arm_dp_text(op2),
        ({
            let t = arm_dp_text(op1);
            let r = crate::arm7tdmi::arm::dp_compute(op1, rn, x, cf, sc).0;
            let carry: int = if cf { 1 } else { 0 };
            &&& (t == "AND"@ || t == "TST"@) ==> r == rn & x
            &&& (t == "EOR"@ || t == "TEQ"@) ==> r == rn ^ x
            &&& t == "ORR"@ ==> r == rn | x
            &&& t == "BIC"@ ==> r == rn & !x
            &&& t == "MOV"@ ==> r == x
            &&& t == "MVN"@ ==> r == !x
            &&& (t == "ADD"@ || t == "CMN"@) ==> r as int == (rn + x) % 0x1_0000_0000
            &&& (t == "SUB"@ || t == "CMP"@) ==> r as int == (rn - x) % 0x1_0000_0000
            &&& t == "RSB"@ ==> r as int == (x - rn) % 0x1_0000_0000
            &&& t == "ADC"@ ==> r as int == (rn + x + carry) % 0x1_0000_0000
            &&& t == "SBC"@ ==> r as int == (rn - x - (1 - carry)) % 0x1_0000_0000
            &&& t == "RSC"@ ==> r as int == (x - rn - (1 - carry)) % 0x1_0000_0000
            &&& (t == "TST"@ || t == "TEQ"@ || t == "CMP"@ || t == "CMN"@)
                <==> !crate::arm7tdmi::arm::dp_writes(op1)
        }),
{
    reveal_strlit("AND");
    reveal_strlit("EOR");
    reveal_strlit("SUB");
    reveal_strlit("RSB");
    reveal_strlit("ADD");
    reveal_strlit("ADC");
    reveal_strlit("SBC");
    reveal_strlit("RSC");
    reveal_strlit("TST");
    reveal_strlit("TEQ");
    reveal_strlit("CMP");
    reveal_strlit("CMN");
    reveal_strlit("ORR");
    reveal_strlit("MOV");
    reveal_strlit("BIC");
    reveal_strlit("MVN");
    assert(mnemonic_key("AND"@) == 4279876);
    assert(mnemonic_key("EOR"@) == 4542290);
    assert(mnemonic_key("SUB"@) == 5461314);
    assert(mnemonic_key("RSB"@) == 5395266);
    assert(mnemonic_key("ADD"@) == 4277316);
    assert(mnemonic_key("ADC"@) == 4277315);
    assert(mnemonic_key("SBC"@) == 5456451);
    assert(mnemonic_key("RSC"@) == 5395267);
    assert(mnemonic_key("TST"@) == 5526356);
    assert(mnemonic_key("TEQ"@) == 5522769);
    assert(mnemonic_key("CMP"@) == 4410704);
    assert(mnemonic_key("CMN"@) == 4410702);
    assert(mnemonic_key("ORR"@) == 5198418);
    assert(mnemonic_key("MOV"@) == 5066582);
    assert(mnemonic_key("BIC"@) == 4344131);
    assert(mnemonic_key("MVN"@) == 5068366);
    assert(mnemonic_key(arm_dp_text(op1)) == dp_mnemonic_key(op1));
    assert(mnemonic_key(arm_dp_text(op2)) == dp_mnemonic_key(op2));
}

} // verus!

verus! {

/// `mnemonic_key` of the mnemonic of each THUMB register ALU operation.
spec fn thumb_alu_mnemonic_key(op: u16) -> int {
    if op == 0 {
        4279876
    } else if op == 1 {
        4542290
    } else if op == 2 {
        5002060
    } else if op == 3 {
        5002066
    } else if op == 4 {
        4281170
    } else if op == 5 {
        4277315
    } else if op == 6 {
        5456451
    } else if op == 7 {
        5394258
    } else if op == 8 {
        5526356
    } else if op == 9 {
        5129543
    } else if op == 10 {
        4410704
    } else if op == 11 {
        4410702
    } else if op == 12 {
        5198418
    } else if op == 13 {
        5068108
    } else if op == 14 {
        4344131
    } else if op == 15 {
        5068366
    } else {
        0
    }
}

/// The mnemonics of the sixteen THUMB register ALU operations are pairwise
/// distinct, and each names what the processor does with a low register Rd
/// holding `x` and Rm holding `y` (`C` the carry flag before): AND writes
/// `x & y`, EOR `x ^ y`, ORR `x | y`, BIC `x & !y`, MVN `!y`, ADC
/// `x + y + C`, SBC `x - y - (1 - C)`, NEG `0 - y` and MUL `x * y`
/// (arithmetic modulo 2^32), while TST, CMP and CMN leave Rd as it was.
pub proof fn lemma_thumb_alu_mnemonics(op1: u16, op2: u16, c: CpuView, b: BusView, ins: u16)
    requires
        op1 < 16,
        op2 < 16,
        c.regs.len() == 31,
        ins & 0xfc00 == 0x4000,
    ensures
        op1 != op2 ==> thumb_alu_text(op1) != thumb_alu_text(op2),
        ({
            let t = thumb_alu_text((ins >> 6) & 0xf);
            let rd = (ins & 7) as int;
            let x = c.reg(rd);
            let y = c.reg(((ins >> 3) & 7) as int);
            let carry: int = if c.flag_c() { 1 } else { 0 };
            let r = crate::arm7tdmi::thumb::thumb_step(c, b, ins).0.reg(rd);
            &&& t == "AND"@ ==> r == x & y
            &&& t == "EOR"@ ==> r == x ^ y
            &&& t == "ORR"@ ==> r == x | y
            &&& t == "BIC"@ ==> r == x & !y
            &&& t == "MVN"@ ==> r == !y
            &&& t == "ADC"@ ==> r as int == (x + y + carry) % 0x1_0000_0000
            &&& t == "SBC"@ ==> r as int == (x - y - (1 - carry)) % 0x1_0000_0000
            &&& t == "NEG"@ ==> r as int == (0 - y) % 0x1_0000_0000
            &&& t == "MUL"@ ==> r as int == (x * y) % 0x1_0000_0000
            &&& (t == "TST"@ || t == "CMP"@ || t == "CMN"@) ==> r == x
        }),
{
    reveal_strlit("AND");
    reveal_strlit("EOR");
    reveal_strlit("LSL");
    reveal_strlit("LSR");
    reveal_strlit("ASR");
    reveal_strlit("ADC");
    reveal_strlit("SBC");
    reveal_strlit("ROR");
    reveal_strlit("TST");
    reveal_strlit("NEG");
    reveal_strlit("CMP");
    reveal_strlit("CMN");
    reveal_strlit("ORR");
    reveal_strlit("MUL");
    reveal_strlit("BIC");
    reveal_strlit("MVN");
    assert(mnemonic_key("AND"@) == 4279876);
    assert(mnemonic_key("EOR"@) == 4542290);
    assert(mnemonic_key("LSL"@) == 5002060);
    assert(mnemonic_key("LSR"@) == 5002066);
    assert(mnemonic_key("ASR"@) == 4281170);
    assert(mnemonic_key("ADC"@) == 4277315);
    assert(mnemonic_key("SBC"@) == 5456451);
    assert(mnemonic_key("ROR"@) == 5394258);
    assert(mnemonic_key("TST"@) == 5526356);
    assert(mnemonic_key("NEG"@) == 5129543);
    assert(mnemonic_key("CMP"@) == 4410704);
    assert(mnemonic_key("CMN"@) == 4410702);
    assert(mnemonic_key("ORR"@) == 5198418);
    assert(mnemonic_key("MUL"@) == 5068108);
    assert(mnemonic_key("BIC"@) == 4344131);
    assert(mnemonic_key("MVN"@) == 5068366);
    assert((ins >> 6) & 0xf < 16) by (bit_vector);
    assert(mnemonic_key(thumb_alu_text(op1)) == thumb_alu_mnemonic_key(op1));
    assert(mnemonic_key(thumb_alu_text(op2)) == thumb_alu_mnemonic_key(op2));
    assert(mnemonic_key(thumb_alu_text((ins >> 6) & 0xf)) == thumb_alu_mnemonic_key((ins >> 6) & 0xf));
    crate::arm7tdmi::thumb::lemma_alu_register(c, b, ins);
}

} // verus!

verus! {

/// The two letters of a condition suffix as one number (0 when empty).
spec fn cond_key(t: Seq<char>) -> int {
    if t.len() < 2 {
        0
    } else {
        t[0] as int * 256 + t[1] as int
    }
}

/// `cond_key` of the suffix of each condition.
spec fn cond_suffix_key(cond: u8) -> int {
    if cond == 0 {
        17745
    } else if cond == 1 {
        20037
    } else if cond == 2 {
        17235
    } else if cond == 3 {
        17219
    } else if cond == 4 {
        19785
    } else if cond == 5 {
        20556
    } else if cond == 6 {
        22099
    } else if cond == 7 {
        22083
    } else if cond == 8 {
        18505
    } else if cond == 9 {
        19539
    } else if cond == 10 {
        18245
    } else if cond == 11 {
        19540
    } else if cond == 12 {
        18260
    } else if cond == 13 {
        19525
    } else {
        0
    }
}

/// The condition suffixes are pairwise distinct, and each names the test
/// the processor makes of the N, Z, C and V flags: EQ `Z`, NE `!Z`, CS `C`,
/// CC `!C`, MI `N`, PL `!N`, VS `V`, VC `!V`, HI `C && !Z`, LS `!C || Z`,
/// GE `N == V`, LT `N != V`, GT `!Z && N == V`, LE `Z || N != V`; the
/// empty suffix (always) holds whatever the flags.
pub proof fn lemma_condition_suffixes(c1: u8, c2: u8, cpsr: u32)
    requires
        c1 < 16,
        c2 < 16,
    ensures
        c1 != c2 && (c1 < 0xe || c2 < 0xe) ==> cond_text(c1) != cond_text(c2),
        ({
            let t = cond_text(c1);
            let h = crate::arm7tdmi::cond_holds(cpsr, c1);
            let n = bit32(cpsr, 31);
            let z = bit32(cpsr, 30);
            let c = bit32(cpsr, 29);
            let v = bit32(cpsr, 28);
            &&& t == "EQ"@ ==> h == z
            &&& t == "NE"@ ==> h == !z
            &&& t == "CS"@ ==> h == c
            &&& t == "CC"@ ==> h == !c
            &&& t == "MI"@ ==> h == n
            &&& t == "PL"@ ==> h == !n
            &&& t == "VS"@ ==> h == v
            &&& t == "VC"@ ==> h == !v
            &&& t == "HI"@ ==> h == (c && !z)
            &&& t == "LS"@ ==> h == (!c || z)
            &&& t == "GE"@ ==> h == (n == v)
            &&& t == "LT"@ ==> h == (n != v)
            &&& t == "GT"@ ==> h == (!z && n == v)
            &&& t == "LE"@ ==> h == (z || n != v)
            &&& t == ""@ ==> h
        }),
{
    reveal_strlit("EQ");
    reveal_strlit("NE");
    reveal_strlit("CS");
    reveal_strlit("CC");
    reveal_strlit("MI");
    reveal_strlit("PL");
    reveal_strlit("VS");
    reveal_strlit("VC");
    reveal_strlit("HI");
    reveal_strlit("LS");
    reveal_strlit("GE");
    reveal_strlit("LT");
    reveal_strlit("GT");
    reveal_strlit("LE");
    reveal_strlit("");
    assert(cond_key("EQ"@) == 17745);
    assert(cond_key("NE"@) == 20037);
    assert(cond_key("CS"@) == 17235);
    assert(cond_key("CC"@) == 17219);
    assert(cond_key("MI"@) == 19785);
    assert(cond_key("PL"@) == 20556);
    assert(cond_key("VS"@) == 22099);
    assert(cond_key("VC"@) == 22083);
    assert(cond_key("HI"@) == 18505);
    assert(cond_key("LS"@) == 19539);
    assert(cond_key("GE"@) == 18245);
    assert(cond_key("LT"@) == 19540);
    assert(cond_key("GT"@) == 18260);
    assert(cond_key("LE"@) == 19525);
    assert(cond_key(""@) == 0);
    assert(cond_key(cond_text(c1)) == cond_suffix_key(c1));
    assert(cond_key(cond_text(c2)) == cond_suffix_key(c2));
}

} // verus!
