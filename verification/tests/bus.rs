use gba_rustmulator::system::io::IORegisters;
use gba_rustmulator::system::SystemBus;

fn new_bus() -> SystemBus {
    let mut bios = vec![0u8; 0x4000];
    bios[0] = 0x11;
    bios[1] = 0x22;
    bios[2] = 0x33;
    bios[3] = 0x44;
    SystemBus::new(bios)
}

#[test]
fn work_ram_reads_back_what_was_written() {
    let mut bus = new_bus();
    bus.write_32(0x0200_0010, 0xdead_beef);
    assert_eq!(bus.read_32(0x0200_0010), 0xdead_beef);
    assert_eq!(bus.read_16(0x0200_0010), 0xbeef);
    assert_eq!(bus.read_16(0x0200_0012), 0xdead);
    assert_eq!(bus.read_8(0x0200_0013), 0xde);
    bus.write_8(0x0300_0001, 0x7f);
    assert_eq!(bus.read_8(0x0300_0001), 0x7f);
    assert_eq!(bus.read_16(0x0300_0000), 0x7f00);
    bus.write_16(0x0300_7ffe, 0x1234);
    assert_eq!(bus.read_16(0x0300_7ffe), 0x1234);
}

#[test]
fn work_ram_is_mirrored() {
    let mut bus = new_bus();
    bus.write_32(0x0300_0000, 0x0102_0304);
    // on-chip work RAM repeats every 32 KiB
    assert_eq!(bus.read_32(0x0300_8000), 0x0102_0304);
    bus.write_8(0x0204_0005, 9);
    // on-board work RAM repeats every 256 KiB
    assert_eq!(bus.read_8(0x0200_0005), 9);
}

#[test]
fn bios_is_read_only_and_little_endian() {
    let mut bus = new_bus();
    assert_eq!(bus.read_32(0), 0x4433_2211);
    assert_eq!(bus.read_16(2), 0x4433);
    bus.write_8(0, 0xff);
    assert_eq!(bus.read_8(0), 0x11);
    // beyond 16 KiB the BIOS region reads zero
    assert_eq!(bus.read_32(0x4000), 0);
}

#[test]
fn empty_cartridge_slot_reads_the_open_bus() {
    let bus = new_bus();
    assert_eq!(bus.read_16(0x0800_0010), 0x0008);
    assert_eq!(bus.read_8(0x0800_0020), 0x10);
}

#[test]
fn cartridge_rom_is_visible_in_every_wait_state_window() {
    let mut rom = vec![0u8; 0x100_0000];
    rom[4] = 0xaa;
    rom[5] = 0xbb;
    let bus = SystemBus::new_with_cartridge(vec![0u8; 0x4000], rom);
    assert_eq!(bus.read_16(0x0800_0004), 0xbbaa);
    assert_eq!(bus.read_16(0x0a00_0004), 0xbbaa);
    assert_eq!(bus.read_16(0x0c00_0004), 0xbbaa);
}

#[test]
fn interrupt_acknowledge_clears_request_bits() {
    let mut bus = new_bus();
    bus.io_regs.get_mut_if().set_v_blank(true);
    bus.io_regs.get_mut_if().set_h_blank(true);
    assert_eq!(bus.read_16(0x0400_0202), 0x3);
    bus.write_16(0x0400_0202, 0x1);
    assert_eq!(bus.read_16(0x0400_0202), 0x2);
    assert!(bus.io_regs.get_if().get_h_blank());
    assert!(!bus.io_regs.get_if().get_v_blank());
}

#[test]
fn interrupt_enable_and_master_enable() {
    let mut bus = new_bus();
    bus.write_16(0x0400_0200, 0x0005);
    assert_eq!(bus.read_16(0x0400_0200), 0x0005);
    assert_eq!(bus.io_regs.get_ie().0, 0x0005);
    bus.write_16(0x0400_0208, 1);
    assert!(bus.io_regs.get_ime());
    assert_eq!(bus.read_16(0x0400_0208), 1);
}

#[test]
fn io_registers_power_on() {
    let io = IORegisters::new();
    assert_eq!(io.get_sound_bias().0, 0x200);
    assert!(!io.get_ime());
    assert!(!io.get_is_stop());
    assert_eq!(io.read_16(0x0400_0088), 0x200);
}

#[test]
fn halt_register_halts() {
    let mut bus = new_bus();
    bus.write_8(0x0400_0301, 0);
    assert!(bus.io_regs.halted);
}

#[test]
fn word_write_at_ie_acknowledges_if() {
    let mut io = IORegisters::new();
    io.get_mut_if().set_v_blank(true);
    io.get_mut_if().set_h_blank(true);
    assert_eq!(io.get_if().0, 0x0003);
    io.write_32(0x0400_0200, 0x0001_0004);
    assert_eq!(io.get_ie().0, 0x0004);
    assert_eq!(io.get_if().0, 0x0002);
    let mut bus = new_bus();
    bus.io_regs.get_mut_if().set_v_blank(true);
    bus.write_32(0x0400_0200, 0x0001_0000);
    assert_eq!(bus.io_regs.get_ie().0, 0);
    assert_eq!(bus.io_regs.get_if().0, 0);
}

#[test]
fn byte_writes_reach_only_their_mirror() {
    let mut bus = new_bus();
    bus.write_8(0x0000_0000, 0xff);
    assert_eq!(bus.read_8(0x0000_0000), 0x11);
    bus.write_8(0x0200_0010, 0x5a);
    assert_eq!(bus.read_8(0x0200_0010), 0x5a);
    assert_eq!(bus.read_8(0x0204_0010), 0x5a);
    assert_eq!(bus.read_8(0x0200_0011), 0);
    assert_eq!(bus.read_8(0x0300_0010), 0);
    bus.write_8(0x0E00_0001, 0x77);
    assert_eq!(bus.read_8(0x0E01_0001), 0x77);
    assert_eq!(bus.read_8(0x0E00_0000), 0);
}
