use gba_rustmulator::arm7tdmi::alu::{add_carry, rotate_right, shift_by_immediate, sub_borrow};
use gba_rustmulator::arm7tdmi::arm::{arm_instruction_defined, execute_arm};
use gba_rustmulator::arm7tdmi::cpu::CPU;
use gba_rustmulator::arm7tdmi::psr::PSR;
use gba_rustmulator::arm7tdmi::thumb::operate_thumb;
use gba_rustmulator::arm7tdmi::{
    can_decode, cond_passed, decode, sign_extend, CpuResult, EExceptionType, EOperatingMode, EShiftType,
};
use gba_rustmulator::system::SystemBus;

fn new_bus() -> SystemBus {
    SystemBus::new(vec![0u8; 0x4000])
}

#[test]
fn sign_extend_reads_twos_complement() {
    assert_eq!(sign_extend(0xff, 8), -1);
    assert_eq!(sign_extend(0x7f, 8), 127);
    assert_eq!(sign_extend(0x80, 8), -128);
    assert_eq!(sign_extend(0x7ff, 11), -1);
    assert_eq!(sign_extend(0x400, 11), -1024);
    assert_eq!(sign_extend(0x00ff_fffe, 24), -2);
}

#[test]
fn psr_flags_read_back() {
    let mut psr = PSR::new();
    assert_eq!(psr.get_value(), 0x1f);
    psr.set_n(true);
    psr.set_c(true);
    assert!(psr.get_n());
    assert!(psr.get_c());
    assert!(!psr.get_z());
    assert!(!psr.get_v());
    assert_eq!(psr.get_value(), 0xa000_001f);
    psr.set_n(false);
    assert_eq!(psr.get_value(), 0x2000_001f);
    assert_eq!(psr.get_mode_bits(), 0x1f);
}

#[test]
fn lower_or_same_and_less_or_equal() {
    let mut cpu = CPU::new();
    // all flags clear: unsigned lower, signed greater
    assert!(cond_passed(&cpu, 0x9));
    assert!(!cond_passed(&cpu, 0x8));
    assert!(!cond_passed(&cpu, 0xd));
    assert!(cond_passed(&cpu, 0xc));
    // carry set, zero clear: unsigned higher
    cpu.get_mut_cpsr().set_c(true);
    assert!(!cond_passed(&cpu, 0x9));
    assert!(cond_passed(&cpu, 0x8));
    // N != V: signed less than
    cpu.get_mut_cpsr().set_v(true);
    assert!(cond_passed(&cpu, 0xd));
    assert!(!cond_passed(&cpu, 0xc));
}

#[test]
fn condition_codes() {
    let mut cpu = CPU::new();
    // Z set, everything else clear
    cpu.get_mut_cpsr().set_z(true);
    assert!(cond_passed(&cpu, 0x0));
    assert!(!cond_passed(&cpu, 0x1));
    assert!(cond_passed(&cpu, 0x9));
    assert!(!cond_passed(&cpu, 0x8));
    assert!(cond_passed(&cpu, 0xa));
    assert!(!cond_passed(&cpu, 0xc));
    assert!(cond_passed(&cpu, 0xd));
    assert!(cond_passed(&cpu, 0xe));
    assert!(cond_passed(&cpu, 0xf));
    cpu.get_mut_cpsr().set_n(true);
    assert!(cond_passed(&cpu, 0xb));
    assert!(!cond_passed(&cpu, 0xa));
}

#[test]
fn alu_carries_and_overflows() {
    assert_eq!(add_carry(0xffff_ffff, 1, false), (0, true, false));
    assert_eq!(add_carry(0x7fff_ffff, 1, false), (0x8000_0000, false, true));
    assert_eq!(add_carry(1, 2, true), (4, false, false));
    assert_eq!(sub_borrow(5, 3, false), (2, true, false));
    assert_eq!(sub_borrow(0, 1, false), (0xffff_ffff, false, false));
    assert_eq!(sub_borrow(0x8000_0000, 1, false), (0x7fff_ffff, true, true));
    assert_eq!(rotate_right(1, 1), 0x8000_0000);
    assert_eq!(rotate_right(0x1234_5678, 8), 0x7812_3456);
    assert_eq!(shift_by_immediate(EShiftType::LSR, 0x8000_0000, 0, false), (0, true));
    assert_eq!(shift_by_immediate(EShiftType::ASR, 0x8000_0000, 0, false), (0xffff_ffff, true));
    assert_eq!(shift_by_immediate(EShiftType::LSL, 0x8000_0001, 1, false), (2, true));
    assert_eq!(shift_by_immediate(EShiftType::ROR, 0x3, 0, true), (0x8000_0001, true));
}

#[test]
fn banked_registers_are_separate() {
    let mut cpu = CPU::new();
    cpu.set_register_value(13, 0x0300_7f00);
    cpu.set_operating_mode(EOperatingMode::IrqMode);
    assert_eq!(cpu.get_operating_mode(), EOperatingMode::IrqMode);
    assert_eq!(cpu.get_register_value(13), 0);
    cpu.set_register_value(13, 0x0300_7fa0);
    cpu.set_register_value(0, 7);
    cpu.set_operating_mode(EOperatingMode::UserMode);
    assert_eq!(cpu.get_register_value(13), 0x0300_7f00);
    assert_eq!(cpu.get_register_value(0), 7);
    cpu.set_operating_mode(EOperatingMode::FiqMode);
    assert_eq!(cpu.get_register_value(8), 0);
    assert_eq!(cpu.get_register_value(0), 7);
}

#[test]
fn program_counter_reads_ahead() {
    let mut cpu = CPU::new();
    cpu.set_register_value(15, 0x100);
    assert_eq!(cpu.get_current_pc(), 0x100);
    assert_eq!(cpu.get_register_value(15), 0x108);
    cpu.get_mut_cpsr().set_t(true);
    assert_eq!(cpu.get_register_value(15), 0x104);
    let regs = cpu.get_registers();
    assert_eq!(regs.len(), 16);
    assert_eq!(regs[15], 0x100);
}

#[test]
fn taking_an_interrupt() {
    let mut cpu = CPU::new();
    cpu.set_register_value(15, 0x200);
    cpu.get_mut_cpsr().set_c(true);
    cpu.exception(EExceptionType::Irq);
    assert_eq!(cpu.get_operating_mode(), EOperatingMode::IrqMode);
    assert_eq!(cpu.get_current_pc(), 0x18);
    assert_eq!(cpu.get_register_value(14), 0x204);
    assert!(cpu.get_cpsr().get_i());
    assert!(!cpu.get_cpsr().get_t());
    assert_eq!(cpu.get_spsr(EOperatingMode::IrqMode).get_value(), 0x2000_001f);
    cpu.restore_cpsr_from_spsr();
    assert_eq!(cpu.get_operating_mode(), EOperatingMode::SystemMode);
    assert_eq!(cpu.get_cpsr().get_value(), 0x2000_001f);
}

#[test]
fn arm_data_processing() {
    let mut cpu = CPU::new();
    let mut bus = new_bus();
    // MOV R0, #5
    assert_eq!(execute_arm(&mut cpu, &mut bus, 0xE3A0_0005), CpuResult::Continue);
    assert_eq!(cpu.get_register_value(0), 5);
    // ADDS R1, R0, R0
    execute_arm(&mut cpu, &mut bus, 0xE090_1000);
    assert_eq!(cpu.get_register_value(1), 10);
    assert!(!cpu.get_cpsr().get_z());
    // SUBS R2, R0, R0
    execute_arm(&mut cpu, &mut bus, 0xE050_2000);
    assert_eq!(cpu.get_register_value(2), 0);
    assert!(cpu.get_cpsr().get_z());
    assert!(cpu.get_cpsr().get_c());
    // MVN R3, #0
    execute_arm(&mut cpu, &mut bus, 0xE3E0_3000);
    assert_eq!(cpu.get_register_value(3), 0xffff_ffff);
    // MUL R2, R0, R1
    execute_arm(&mut cpu, &mut bus, 0xE002_0190);
    assert_eq!(cpu.get_register_value(2), 50);
}

#[test]
fn arm_condition_failure_changes_nothing() {
    let mut cpu = CPU::new();
    let mut bus = new_bus();
    // MOVEQ R0, #1 with Z clear
    assert_eq!(execute_arm(&mut cpu, &mut bus, 0x03A0_0001), CpuResult::Continue);
    assert_eq!(cpu.get_register_value(0), 0);
    assert_eq!(cpu.get_cpsr().get_value(), 0x1f);
}

#[test]
fn arm_branches() {
    let mut cpu = CPU::new();
    let mut bus = new_bus();
    // B +8 words ahead: PC = 0 + 8 + 2 * 4
    assert_eq!(execute_arm(&mut cpu, &mut bus, 0xEA00_0002), CpuResult::FlushPipeline);
    assert_eq!(cpu.get_current_pc(), 16);
    // BL to the next-but-one instruction
    assert_eq!(execute_arm(&mut cpu, &mut bus, 0xEB00_0000), CpuResult::FlushPipeline);
    assert_eq!(cpu.get_current_pc(), 24);
    assert_eq!(cpu.get_register_value(14), 20);
    // B -2 words: offset 0xfffffe
    cpu.set_register_value(15, 0x100);
    execute_arm(&mut cpu, &mut bus, 0xEAFF_FFFE);
    assert_eq!(cpu.get_current_pc(), 0x100);
}

#[test]
fn arm_load_and_store() {
    let mut cpu = CPU::new();
    let mut bus = new_bus();
    execute_arm(&mut cpu, &mut bus, 0xE3A0_0005); // MOV R0, #5
    execute_arm(&mut cpu, &mut bus, 0xE3A0_1403); // MOV R1, #0x03000000
    assert_eq!(cpu.get_register_value(1), 0x0300_0000);
    execute_arm(&mut cpu, &mut bus, 0xE581_0000); // STR R0, [R1]
    assert_eq!(bus.read_32(0x0300_0000), 5);
    execute_arm(&mut cpu, &mut bus, 0xE591_2000); // LDR R2, [R1]
    assert_eq!(cpu.get_register_value(2), 5);
    execute_arm(&mut cpu, &mut bus, 0xE5C1_3004); // STRB R3, [R1, #4]
    assert_eq!(bus.read_8(0x0300_0004), 0);
}

#[test]
fn arm_software_interrupt() {
    let mut cpu = CPU::new();
    let mut bus = new_bus();
    assert_eq!(execute_arm(&mut cpu, &mut bus, 0xEF00_0000), CpuResult::FlushPipeline);
    assert_eq!(cpu.get_operating_mode(), EOperatingMode::SupervisorMode);
    assert_eq!(cpu.get_current_pc(), 0x08);
    assert_eq!(cpu.get_register_value(14), 4);
}

#[test]
fn arm_undefined_multiply_is_refused() {
    let cpu = CPU::new();
    // opcode 2 in the multiply class does not exist
    assert!(!arm_instruction_defined(&cpu, 0xE040_0090));
    assert!(arm_instruction_defined(&cpu, 0xE002_0190));
}

#[test]
fn thumb_arithmetic() {
    let mut cpu = CPU::new();
    let mut bus = new_bus();
    cpu.set_flag_t(true);
    operate_thumb(0x202A, &mut cpu, &mut bus); // MOV R0, #42
    assert_eq!(cpu.get_register_value(0), 42);
    operate_thumb(0x1CC1, &mut cpu, &mut bus); // ADD R1, R0, #3
    assert_eq!(cpu.get_register_value(1), 45);
    operate_thumb(0x004A, &mut cpu, &mut bus); // LSL R2, R1, #1
    assert_eq!(cpu.get_register_value(2), 90);
    operate_thumb(0x282A, &mut cpu, &mut bus); // CMP R0, #42
    assert!(cpu.get_cpsr().get_z());
    assert!(cpu.get_cpsr().get_c());
    operate_thumb(0x4248, &mut cpu, &mut bus); // NEG R0, R1
    assert_eq!(cpu.get_register_value(0), (-45i32) as u32);
    assert!(cpu.get_cpsr().get_n());
}

#[test]
fn thumb_push_then_pop() {
    let mut cpu = CPU::new();
    let mut bus = new_bus();
    cpu.set_flag_t(true);
    cpu.set_register_value(13, 0x0300_7f00);
    operate_thumb(0x202A, &mut cpu, &mut bus); // MOV R0, #42
    operate_thumb(0x212D, &mut cpu, &mut bus); // MOV R1, #45
    operate_thumb(0xB403, &mut cpu, &mut bus); // PUSH {R0, R1}
    assert_eq!(cpu.get_register_value(13), 0x0300_7ef8);
    assert_eq!(bus.read_32(0x0300_7ef8), 42);
    assert_eq!(bus.read_32(0x0300_7efc), 45);
    operate_thumb(0xBC0C, &mut cpu, &mut bus); // POP {R2, R3}
    assert_eq!(cpu.get_register_value(2), 42);
    assert_eq!(cpu.get_register_value(3), 45);
    assert_eq!(cpu.get_register_value(13), 0x0300_7f00);
}

#[test]
fn thumb_branches() {
    let mut cpu = CPU::new();
    let mut bus = new_bus();
    cpu.set_flag_t(true);
    cpu.set_register_value(15, 0x100);
    operate_thumb(0xE002, &mut cpu, &mut bus); // B +4
    assert_eq!(cpu.get_current_pc(), 0x108);
    operate_thumb(0xF000, &mut cpu, &mut bus); // BL, first half
    assert_eq!(cpu.get_register_value(14), 0x10c);
    cpu.set_register_value(15, 0x10a);
    operate_thumb(0xF802, &mut cpu, &mut bus); // BL, second half
    assert_eq!(cpu.get_current_pc(), 0x110);
    assert_eq!(cpu.get_register_value(14), 0x10d);
    operate_thumb(0xDF00, &mut cpu, &mut bus); // SWI
    assert_eq!(cpu.get_operating_mode(), EOperatingMode::SupervisorMode);
    assert!(!cpu.get_cpsr().get_t());
    assert_eq!(cpu.get_current_pc(), 0x08);
}

#[test]
fn decode_runs_the_instruction_at_the_program_counter() {
    let mut bios = vec![0u8; 0x4000];
    // MOV R0, #5 at address 0
    bios[0] = 0x05;
    bios[1] = 0x00;
    bios[2] = 0xA0;
    bios[3] = 0xE3;
    let mut bus = SystemBus::new(bios);
    let mut cpu = CPU::new();
    assert!(can_decode(&cpu, &bus));
    decode(&mut cpu, &mut bus);
    assert_eq!(cpu.get_register_value(0), 5);
    assert_eq!(cpu.get_current_pc(), 0);
}

#[test]
fn saved_status_registers_change_in_place() {
    let mut cpu = CPU::new();
    cpu.get_mut_spsr(EOperatingMode::IrqMode).set_value(0x8000_0010);
    assert_eq!(cpu.get_spsr(EOperatingMode::IrqMode).get_value(), 0x8000_0010);
    assert_eq!(cpu.get_cpsr().get_value(), 0x1f);
    cpu.get_mut_spsr(EOperatingMode::FiqMode).set_c(true);
    assert!(cpu.get_spsr(EOperatingMode::FiqMode).get_c());
    assert!(!cpu.get_spsr(EOperatingMode::IrqMode).get_c());
    // User and System mode have no saved PSR: the CPSR stands in
    cpu.get_mut_spsr(EOperatingMode::UserMode).set_n(true);
    assert!(cpu.get_cpsr().get_n());
}
