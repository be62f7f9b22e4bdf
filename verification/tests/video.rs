use gba_rustmulator::ppu::{Color, EVideoMode, PPU, SCREEN_TOTAL_PIXELS};
use gba_rustmulator::system::SystemBus;

fn new_bus() -> SystemBus {
    SystemBus::new(vec![0u8; 0x4000])
}

fn pixel(frame: &[u8], index: usize) -> (u8, u8, u8) {
    (frame[3 * index], frame[3 * index + 1], frame[3 * index + 2])
}

#[test]
fn colors_expand_five_bit_channels() {
    let c = Color::new(0x7fff);
    assert_eq!((c.get_red(), c.get_green(), c.get_blue()), (255, 255, 255));
    let c = Color::new(0x0010);
    assert_eq!(c.get_red(), 0x84);
    assert_eq!(c.get_green(), 0);
    let c = Color::new(0x7c00);
    assert_eq!(c.get_blue(), 255);
    assert_eq!(Color::zeroed().get_value(), 0);
    assert_eq!(Color::new(0x7fff).get_value(), 0x7fff);
}

#[test]
fn display_registers_read_back() {
    let mut ppu = PPU::new();
    ppu.write_16(0x0400_0000, 0x0403);
    assert_eq!(ppu.read_16(0x0400_0000), 0x0403);
    assert_eq!(ppu.get_disp_cnt().get_bg_mode(), Some(EVideoMode::Mode3));
    ppu.write_16(0x0400_0008, 0x1c84);
    assert_eq!(ppu.get_bg_cnt(0).get_map_data_address(), 0x1c * 0x800);
    assert_eq!(ppu.get_bg_cnt(0).get_tile_data_address(), 0x4000);
    assert!(ppu.get_bg_cnt(0).get_is_256_palette());
    ppu.write_16(0x0400_0010, 0xffff);
    assert_eq!(ppu.get_bg_hofs(0), 0x1ff);
}

#[test]
fn vertical_counter_follows_the_cycle_and_is_read_only() {
    let mut ppu = PPU::new();
    ppu.step(1232 * 5);
    assert_eq!(ppu.get_vcount(), 5);
    ppu.write_16(0x0400_0006, 0x0042);
    assert_eq!(ppu.get_vcount(), 5);
    assert_eq!(ppu.step(197120), (false, true));
    assert!(ppu.get_disp_stat().get_v_blank());
}

#[test]
fn palette_writes_through_the_bus() {
    let mut bus = new_bus();
    bus.write_16(0x0500_0002, 0x001f);
    let c = bus.ppu.get_palette_color(1);
    assert_eq!((c.get_red(), c.get_green(), c.get_blue()), (255, 0, 0));
    assert_eq!(bus.read_16(0x0500_0002), 0x7fff);
}

#[test]
fn forced_blank_shows_white() {
    let mut bus = new_bus();
    bus.write_16(0x0400_0000, 0x0080);
    let frame = bus.ppu.render().unwrap();
    assert_eq!(frame.len(), SCREEN_TOTAL_PIXELS * 3);
    assert!(frame.iter().all(|b| *b == 255));
}

#[test]
fn empty_mode_0_shows_the_backdrop() {
    let mut bus = new_bus();
    bus.write_16(0x0500_0000, 0x001f);
    let frame = bus.ppu.render().unwrap();
    assert_eq!(pixel(&frame, 0), (255, 0, 0));
    assert_eq!(pixel(&frame, SCREEN_TOTAL_PIXELS - 1), (255, 0, 0));
}

#[test]
fn mode_4_draws_the_frame_buffer() {
    let mut bus = new_bus();
    bus.write_16(0x0400_0000, 0x0404);
    bus.write_16(0x0500_0002, 0x7c00);
    bus.write_16(0x0600_0000, 0x0001);
    let frame = bus.ppu.render().unwrap();
    assert_eq!(pixel(&frame, 0), (0, 0, 255));
    assert_eq!(pixel(&frame, 1), (0, 0, 0));
}

#[test]
fn text_background_draws_a_tile() {
    let mut bus = new_bus();
    // Mode 0 with background 0, map at screen block 8, 16-color tiles at 0
    bus.write_16(0x0400_0000, 0x0100);
    bus.write_16(0x0400_0008, 0x0800);
    bus.write_16(0x0600_4000, 0x0001);
    bus.write_16(0x0600_0020, 0x0021);
    bus.write_16(0x0500_0002, 0x001f);
    bus.write_16(0x0500_0004, 0x03e0);
    let frame = bus.ppu.render().unwrap();
    assert_eq!(pixel(&frame, 0), (255, 0, 0));
    assert_eq!(pixel(&frame, 1), (0, 255, 0));
    assert_eq!(pixel(&frame, 2), (0, 0, 0));
    // the next tile row of the same tile is transparent
    assert_eq!(pixel(&frame, 240), (0, 0, 0));
}

#[test]
fn sprite_with_prohibited_shape_cannot_be_drawn() {
    let mut bus = new_bus();
    bus.write_16(0x0400_0000, 0x1000);
    // object 0: shape 3
    bus.write_16(0x0700_0000, 0xc000);
    assert!(bus.ppu.render().is_none());
}

#[test]
fn sprite_draws_over_the_backdrop() {
    let mut bus = new_bus();
    // objects on, one-dimensional mapping
    bus.write_16(0x0400_0000, 0x1040);
    // object 0 at (0, 0), 8x8, 16 colors, tile 0, palette 0; all others hidden
    let mut i = 1;
    while i < 128 {
        bus.write_16(0x0700_0000 + 8 * i, 0x0200);
        i += 1;
    }
    // first texel row of tile 0 of the object tiles: pixel 0 uses color 1
    bus.write_16(0x0601_0000, 0x0001);
    bus.write_16(0x0500_0202, 0x03e0);
    let frame = bus.ppu.render().unwrap();
    assert_eq!(pixel(&frame, 0), (0, 255, 0));
    assert_eq!(pixel(&frame, 1), (0, 0, 0));
    assert_eq!(pixel(&frame, 8), (0, 0, 0));
}
