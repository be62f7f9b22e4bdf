use gba_rustmulator::arm7tdmi::cpu::CPU;
use gba_rustmulator::arm7tdmi::thumb::execute_thumb;
use gba_rustmulator::arm7tdmi::{CpuResult, EOperatingMode};
use gba_rustmulator::debugging::previews::{sprite_preview, tiles_preview};
use gba_rustmulator::ppu::{SpriteEntry, PPU, VRAM_SIZE};
use gba_rustmulator::debugging::disassembling::disassemble_fetched;
use gba_rustmulator::system::{
    debug_step, run_frame, tick, FrameEnd, SystemBus, Tick, TraceEntry, CYCLES_PER_FRAME,
};

/// A BIOS image holding `MOV R0, #5` at 0 and `B .` (a branch to itself) at 4.
fn arm(pc: u32, instruction: u32) -> TraceEntry {
    TraceEntry { pc, instruction, thumb: false }
}

fn looping_bios() -> Vec<u8> {
    let mut bios = vec![0u8; 0x4000];
    bios[0..4].copy_from_slice(&0xE3A0_0005u32.to_le_bytes());
    bios[4..8].copy_from_slice(&0xEAFF_FFFEu32.to_le_bytes());
    bios
}

#[test]
fn step_moves_past_an_instruction_but_not_past_a_branch() {
    let mut bus = SystemBus::new(looping_bios());
    let mut cpu = CPU::new();
    cpu.step(&mut bus);
    assert_eq!(cpu.get_register_value(0), 5);
    assert_eq!(cpu.get_current_pc(), 4);
    cpu.step(&mut bus);
    assert_eq!(cpu.get_current_pc(), 4);
}

#[test]
fn tick_executes_one_instruction() {
    let mut bus = SystemBus::new(looping_bios());
    let mut cpu = CPU::new();
    assert_eq!(tick(&mut cpu, &mut bus, 1), Tick::Executed(arm(0, 0xE3A0_0005)));
    assert_eq!(cpu.get_register_value(0), 5);
    assert_eq!(bus.ppu.get_vcount(), 0);
    assert_eq!(tick(&mut cpu, &mut bus, 1232 * 3), Tick::Executed(arm(4, 0xEAFF_FFFE)));
    assert_eq!(bus.ppu.get_vcount(), 3);
}

#[test]
fn tick_waits_while_halted() {
    let mut bus = SystemBus::new(looping_bios());
    let mut cpu = CPU::new();
    bus.write_8(0x0400_0301, 0);
    assert_eq!(tick(&mut cpu, &mut bus, 1), Tick::Halted);
    assert_eq!(cpu.get_register_value(0), 0);
    assert_eq!(cpu.get_current_pc(), 0);
}

#[test]
fn v_blank_interrupt_wakes_the_processor() {
    let mut bus = SystemBus::new(looping_bios());
    let mut cpu = CPU::new();
    bus.write_16(0x0400_0208, 1); // IME
    bus.write_16(0x0400_0200, 1); // IE: V-Blank
    bus.write_16(0x0400_0004, 0x8); // DISPSTAT: V-Blank IRQ enable
    bus.write_8(0x0400_0301, 0); // HALT
    assert_eq!(tick(&mut cpu, &mut bus, 197_119), Tick::Halted);
    assert_eq!(tick(&mut cpu, &mut bus, 197_120), Tick::Executed(arm(0x18, 0)));
    assert!(bus.io_regs.get_if().get_v_blank());
    assert_eq!(cpu.get_operating_mode(), EOperatingMode::IrqMode);
    assert!(bus.ppu.get_disp_stat().get_v_blank());
}

#[test]
fn tick_refuses_an_undefined_instruction() {
    let mut bios = vec![0u8; 0x4000];
    bios[0..4].copy_from_slice(&0xE040_0090u32.to_le_bytes());
    let mut bus = SystemBus::new(bios);
    let mut cpu = CPU::new();
    assert_eq!(tick(&mut cpu, &mut bus, 1), Tick::Undefined);
    assert_eq!(cpu.get_current_pc(), 0);
}

#[test]
fn frame_stops_at_the_breakpoint() {
    let mut bus = SystemBus::new(looping_bios());
    let mut cpu = CPU::new();
    let (last, end, log) = run_frame(&mut cpu, &mut bus, 0, Some(4), true);
    assert_eq!(last, 1);
    assert_eq!(end, FrameEnd::Breakpoint);
    assert_eq!(log, vec![arm(0, 0xE3A0_0005)]);
    assert_eq!(cpu.get_current_pc(), 4);
}

#[test]
fn frame_runs_every_cycle() {
    let mut bus = SystemBus::new(looping_bios());
    let mut cpu = CPU::new();
    let (last, end, log) = run_frame(&mut cpu, &mut bus, 0, None, true);
    assert_eq!(end, FrameEnd::Completed);
    assert_eq!(last, 1);
    assert_eq!(log.len(), CYCLES_PER_FRAME as usize + 1);
    assert_eq!(log[0], arm(0, 0xE3A0_0005));
    assert!(log[1..].iter().all(|&e| e == arm(4, 0xEAFF_FFFE)));
    let (last, end, log) = run_frame(&mut cpu, &mut bus, last, None, false);
    assert_eq!((last, end), (2, FrameEnd::Completed));
    assert!(log.is_empty());
}

#[test]
fn frame_ends_at_an_undefined_instruction() {
    let mut bios = looping_bios();
    bios[4..8].copy_from_slice(&0xE040_0090u32.to_le_bytes());
    let mut bus = SystemBus::new(bios);
    let mut cpu = CPU::new();
    let (last, end, log) = run_frame(&mut cpu, &mut bus, 10, None, true);
    assert_eq!((last, end), (12, FrameEnd::Undefined));
    assert_eq!(log, vec![arm(0, 0xE3A0_0005)]);
    assert_eq!(cpu.get_current_pc(), 4);
}

#[test]
fn frame_cycle_wraps() {
    let mut bus = SystemBus::new(looping_bios());
    let mut cpu = CPU::new();
    let (last, end, _) = run_frame(&mut cpu, &mut bus, CYCLES_PER_FRAME - 1, Some(4), false);
    assert_eq!((last, end), (0, FrameEnd::Breakpoint));
}

#[test]
fn debug_step_executes_even_when_halted() {
    let mut bus = SystemBus::new(looping_bios());
    let mut cpu = CPU::new();
    bus.write_8(0x0400_0301, 0);
    assert_eq!(debug_step(&mut cpu, &mut bus, 5), Some(6));
    assert_eq!(cpu.get_register_value(0), 5);
    assert_eq!(cpu.get_current_pc(), 4);
    assert_eq!(debug_step(&mut cpu, &mut bus, CYCLES_PER_FRAME - 1), Some(0));
}

#[test]
fn debug_step_refuses_an_undefined_instruction() {
    let mut bios = vec![0u8; 0x4000];
    bios[0..4].copy_from_slice(&0xE040_0090u32.to_le_bytes());
    let mut bus = SystemBus::new(bios);
    let mut cpu = CPU::new();
    assert_eq!(debug_step(&mut cpu, &mut bus, 1232 * 2 - 1), None);
    assert_eq!(cpu.get_current_pc(), 0);
    assert_eq!(bus.ppu.get_vcount(), 2);
}

#[test]
fn thumb_results_say_whether_the_program_counter_moved() {
    let mut cpu = CPU::new();
    let mut bus = SystemBus::new(vec![0u8; 0x4000]);
    cpu.get_mut_cpsr().set_t(true);
    cpu.set_register_value(15, 0x100);
    assert_eq!(execute_thumb(0x2005, &mut cpu, &mut bus), CpuResult::Continue); // MOV R0, #5
    assert_eq!(cpu.get_register_value(0), 5);
    assert_eq!(cpu.get_current_pc(), 0x100);
    assert_eq!(execute_thumb(0xE002, &mut cpu, &mut bus), CpuResult::FlushPipeline); // B +4
    assert_eq!(cpu.get_current_pc(), 0x108);
}

#[test]
fn tile_sheet_shows_video_ram_in_palette_colors() {
    let mut ppu = PPU::new();
    ppu.write_16(0x0600_0000, 0x0003);
    ppu.write_16(0x0500_0006, 0x001f);
    ppu.write_16(0x0601_0000, 0x0002);
    ppu.write_16(0x0500_0204, 0x03e0);
    let sheet = tiles_preview(&ppu).unwrap();
    assert_eq!(sheet.len(), VRAM_SIZE * 3);
    assert_eq!(&sheet[0..3], &[255, 0, 0]);
    assert_eq!(&sheet[3..6], &[0, 0, 0]);
    // pixel (0, 256) shows byte 0x10000, the first object tile
    assert_eq!(&sheet[65536 * 3..65536 * 3 + 3], &[0, 255, 0]);
    ppu.write_16(0x0400_0000, 0x0007);
    assert_eq!(tiles_preview(&ppu), None);
}

#[test]
fn sprite_picture_uses_the_object_palette() {
    let mut ppu = PPU::new();
    ppu.write_16(0x0601_0000, 0x0021);
    ppu.write_16(0x0500_0202, 0x001f);
    ppu.write_16(0x0500_0204, 0x7c00);
    let picture = sprite_preview(&ppu, SpriteEntry(0)).unwrap();
    assert_eq!(picture.len(), 8 * 8 * 3);
    assert_eq!(&picture[0..6], &[255, 0, 0, 0, 0, 255]);
    assert_eq!(&picture[6..9], &[0, 0, 0]);
    // a 32x8 object of 256-color tiles
    let wide = SpriteEntry((1 << 14) | (1 << 30) | (1 << 13));
    assert_eq!(sprite_preview(&ppu, wide).unwrap().len(), 32 * 8 * 3);
    // shape 3 is prohibited
    assert_eq!(sprite_preview(&ppu, SpriteEntry(3 << 14)), None);
}

#[test]
fn fetched_instructions_disassemble_by_state() {
    assert_eq!(disassemble_fetched(0x2005, true).unwrap(), "MOV R0, #5");
    assert_eq!(disassemble_fetched(0xEF00_0000, false).unwrap(), "SWI");
    assert_eq!(disassemble_fetched(0xE040_0090, false), None);
}
