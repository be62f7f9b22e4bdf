use gba_rustmulator::arm7tdmi::cpu::CPU;
use gba_rustmulator::debugging::disassembling::{
    can_disassemble_arm, disassemble_arm, disassemble_cond, disassemble_instruction, disassemble_thumb,
    get_register_list,
};
use gba_rustmulator::debugging::listing::follow_program_counter;
use gba_rustmulator::system::SystemBus;

#[test]
fn condition_suffixes() {
    assert_eq!(disassemble_cond(0x0), "EQ");
    assert_eq!(disassemble_cond(0x9), "LS");
    assert_eq!(disassemble_cond(0xd), "LE");
    assert_eq!(disassemble_cond(0xe), "");
    assert_eq!(disassemble_cond(0xf), "");
}

#[test]
fn register_lists_collapse_runs() {
    assert_eq!(get_register_list(0b1110_1101, true), "{ R0, R2-R3, R5-R7 }");
    assert_eq!(get_register_list(0x0000, true), "{  }");
    assert_eq!(get_register_list(0xc001, false), "{ R0, R14-R15 }");
    assert_eq!(get_register_list(0xffff, false), "{ R0-R15 }");
    // only the low byte counts in THUMB code
    assert_eq!(get_register_list(0x0180, true), "{ R7 }");
}

#[test]
fn thumb_instructions() {
    assert_eq!(disassemble_thumb(0x202A), "MOV R0, #42");
    assert_eq!(disassemble_thumb(0x1CC1), "ADD R1, R0, #3");
    assert_eq!(disassemble_thumb(0x1A41), "SUB R1, R0, R1");
    assert_eq!(disassemble_thumb(0x004A), "LSL R2, R1, #1");
    assert_eq!(disassemble_thumb(0x4248), "NEG R0, R1");
    assert_eq!(disassemble_thumb(0x4770), "BX R14");
    assert_eq!(disassemble_thumb(0x4687), "MOV R15, R0");
    assert_eq!(disassemble_thumb(0x4801), "LDR R0, [PC, #1]");
    assert_eq!(disassemble_thumb(0x5888), "LDR R0, [R1, R2]");
    assert_eq!(disassemble_thumb(0x5E88), "LDSH R0, [R1, R2]");
    assert_eq!(disassemble_thumb(0x6848), "LDR R0, [R1, #1]");
    assert_eq!(disassemble_thumb(0x8848), "LDRH R0, [R1, #1]");
    assert_eq!(disassemble_thumb(0x9801), "LDR R0, SP, #4");
    assert_eq!(disassemble_thumb(0xA802), "ADD R0, SP, #2");
    assert_eq!(disassemble_thumb(0xB082), "SUB SP, #8");
    assert_eq!(disassemble_thumb(0xB403), "PUSH { R0-R1 }");
    assert_eq!(disassemble_thumb(0xB5F0), "PUSH { R4-R7 }, LR");
    assert_eq!(disassemble_thumb(0xBD00), "POP {  }, PC");
    assert_eq!(disassemble_thumb(0xC103), "STMIA R1!, { R0-R1 }");
    assert_eq!(disassemble_thumb(0xDF00), "SWI");
    assert_eq!(disassemble_thumb(0xD0FE), "BEQ Offset: -4");
    assert_eq!(disassemble_thumb(0xDE01), "UNDEFINED Offset: 2");
    assert_eq!(disassemble_thumb(0xE002), "B Offset: #4");
    assert_eq!(disassemble_thumb(0xF7FF), "BL Target: #-4096 + ");
    assert_eq!(disassemble_thumb(0xF802), "#4");
}

#[test]
fn arm_instructions() {
    assert_eq!(disassemble_arm(0xE12F_FF1E), "BX  R14");
    assert_eq!(disassemble_arm(0xEA00_0002), "B  #2");
    assert_eq!(disassemble_arm(0x0B00_0010), "BL EQ #16");
    assert_eq!(disassemble_arm(0xE3A0_0005), "MOV  R0, #5");
    assert_eq!(disassemble_arm(0xE090_1000), "ADDS  R1,R0, R0, LSL, #0");
    assert_eq!(disassemble_arm(0xE150_0001), "CMP  R0, R1, LSL, #0");
    assert_eq!(disassemble_arm(0xE3A0_1403), "MOV  R1, #50331648");
    assert_eq!(disassemble_arm(0xE002_0190), "MUL  R2, R0, R1");
    assert_eq!(disassemble_arm(0xE591_2000), "LDR  R2, [R1, #+0]");
    assert_eq!(disassemble_arm(0xE4D1_3001), "LDRB  R3, [R1], #+1");
    assert_eq!(disassemble_arm(0xE8BD_0003), "LDMIA  R13!, { R0-R1 }");
    assert_eq!(disassemble_arm(0xEF00_0000), "SWI");
    assert_eq!(disassemble_arm(0xE10F_0000), "MRS  R0, SPSR");
    assert_eq!(disassemble_arm(0xE129_F000), "MSR  CPSR_fc, R0");
    assert_eq!(disassemble_arm(0xE1C1_00B2), "STRH  #2");
    assert_eq!(disassemble_arm(0xE181_00B2), "STRH  R2");
}

#[test]
fn arm_multiplies_without_an_opcode_are_refused() {
    assert!(!can_disassemble_arm(0xE040_0090));
    assert!(can_disassemble_arm(0xE002_0190));
}

#[test]
fn instruction_at_the_program_counter() {
    let mut bios = vec![0u8; 0x4000];
    bios[0] = 0x2A;
    bios[1] = 0x20;
    let bus = SystemBus::new(bios);
    let mut cpu = CPU::new();
    cpu.set_flag_t(true);
    assert_eq!(disassemble_instruction(&cpu, &bus), Some(String::from("MOV R0, #42")));
    cpu.set_flag_t(false);
    assert_eq!(disassemble_instruction(&cpu, &bus), Some(String::from("AND EQ R2,R0, R10, LSR, #0")));
}

#[test]
fn listing_follows_the_program_counter_until_the_breakpoint() {
    assert_eq!(follow_program_counter(true, false, 0x100, 0x200), (0x100, true));
    assert_eq!(follow_program_counter(false, false, 0x100, 0x200), (0x200, false));
    assert_eq!(follow_program_counter(false, true, 0x100, 0x200), (0x100, false));
    assert_eq!(follow_program_counter(false, true, 0x200, 0x200), (0x200, true));
}
