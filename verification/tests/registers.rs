use gba_rustmulator::arm7tdmi::psr::PSR;
use gba_rustmulator::ppu::{
    BackgroundControl, BackgroundMap, DisplayStatus, EBlendMode, ESpriteMode, SpriteEntry, PPU,
};
use gba_rustmulator::system::io::{IORegisters, SoundBias};

#[test]
fn window_registers_split_into_fields() {
    let mut ppu = PPU::new();
    ppu.write_16(0x0400_0040, 0x10F0);
    ppu.write_16(0x0400_0044, 0x20A0);
    let w = ppu.get_win_dimensions(0);
    assert_eq!((w.get_x1(), w.get_x2(), w.get_y1(), w.get_y2()), (0x10, 0xF0, 0x20, 0xA0));
    let w = ppu.get_win_dimensions(1);
    assert_eq!((w.get_x1(), w.get_x2(), w.get_y1(), w.get_y2()), (0, 0, 0, 0));

    ppu.write_16(0x0400_0048, 0x2a13);
    let win_in = ppu.get_win_in();
    assert!(win_in.get_win_bg_enabled(0, 0));
    assert!(win_in.get_win_bg_enabled(0, 1));
    assert!(!win_in.get_win_bg_enabled(0, 2));
    assert!(win_in.get_win_obj_enabled(0));
    assert!(!win_in.get_win_blend_enabled(0));
    assert!(win_in.get_win_bg_enabled(1, 1));
    assert!(win_in.get_win_bg_enabled(1, 3));
    assert!(!win_in.get_win_obj_enabled(1));
    assert!(win_in.get_win_blend_enabled(1));

    ppu.write_16(0x0400_004a, 0x0305);
    let win_out = ppu.get_win_out();
    assert!(win_out.get_outside_win_bg_enabled(0));
    assert!(!win_out.get_outside_win_bg_enabled(1));
    assert!(win_out.get_outside_win_bg_enabled(2));
    assert!(win_out.get_obj_win_bg_enabled(0));
    assert!(win_out.get_obj_win_bg_enabled(1));
    assert!(!win_out.get_obj_win_bg_enabled(2));
}

#[test]
fn blending_registers_split_into_fields() {
    let mut ppu = PPU::new();
    ppu.write_16(0x0400_0050, 0x0244);
    let blend = ppu.get_blend_control();
    assert!(blend.get_blend_bg_source(2));
    assert!(!blend.get_blend_bg_source(1));
    assert!(blend.get_blend_bg_target(1));
    assert!(!blend.get_blend_bg_target(2));
    assert_eq!(blend.get_blend_mode(), EBlendMode::AlphaBlending);
    ppu.write_16(0x0400_0050, 0x00c0);
    assert_eq!(ppu.get_blend_control().get_blend_mode(), EBlendMode::Darken);
    ppu.write_16(0x0400_0050, 0x0000);
    assert_eq!(ppu.get_blend_control().get_blend_mode(), EBlendMode::NoBlend);

    ppu.write_16(0x0400_0052, 0x0a06);
    assert_eq!(ppu.get_blend_alpha().0, 0x0a06);
    ppu.write_16(0x0400_0054, 0x001f);
    assert_eq!(ppu.get_blend_brightness(), 0xf);
    ppu.write_16(0x0400_004c, 0x1234);
    assert_eq!(ppu.get_mosaic().0, 0x1234);
}

#[test]
fn palette_ram_holds_colors() {
    let mut ppu = PPU::new();
    ppu.write_16(0x0500_0002, 0x7fff);
    let colors = ppu.get_palettes_colors();
    assert_eq!(colors.len(), 512);
    assert_eq!(colors[1].get_value(), 0x7fff);
    assert_eq!(colors[0].get_value(), 0);
}

#[test]
fn small_registers_split_into_fields() {
    let map = BackgroundMap(0xfc05);
    assert_eq!(map.get_tile_number(), 5);
    assert!(map.get_h_flip());
    assert!(map.get_v_flip());
    assert_eq!(map.get_palette_number(), 0xf);
    assert!(!BackgroundMap(0x03ff).get_h_flip());
    assert_eq!(BackgroundMap(0x03ff).get_tile_number(), 0x3ff);

    assert_eq!(DisplayStatus(0x2a00).get_v_count_trigger(), 0x2a);
    assert_eq!(BackgroundControl(0x0003).get_bg_priority(), 3);

    assert_eq!(SpriteEntry(0).get_sprite_mode(), Some(ESpriteMode::Normal));
    assert_eq!(SpriteEntry(1 << 10).get_sprite_mode(), Some(ESpriteMode::SemiTransparent));
    assert_eq!(SpriteEntry(2 << 10).get_sprite_mode(), Some(ESpriteMode::ObjWindow));
    assert_eq!(SpriteEntry(3 << 10).get_sprite_mode(), None);

    let psr = PSR::from_value(0xF000_0010);
    assert!(psr.get_n() && psr.get_z() && psr.get_c() && psr.get_v());
    assert_eq!(psr.get_mode_bits(), 0x10);
    assert_eq!(psr.get_value(), 0xF000_0010);
}

#[test]
fn sound_bias_splits_into_fields() {
    let bias = SoundBias(0x4200);
    assert_eq!(bias.get_bias_level(), 0x100);
    assert_eq!(bias.get_amplitude_res(), 1);
    let io = IORegisters::new();
    assert_eq!(io.get_sound_bias().get_bias_level(), 0x100);
    assert_eq!(io.get_sound_bias().get_amplitude_res(), 0);
}

#[test]
fn object_attributes_read_as_entries() {
    let mut ppu = PPU::new();
    ppu.write_32(0x0700_0008, 0x4010_2020);
    ppu.write_16(0x0700_000c, 0x0123);
    let sprites = ppu.get_sprites();
    assert_eq!(sprites.len(), 128);
    assert_eq!(sprites[0].0, 0);
    assert_eq!(sprites[1].0, 0x0000_0123_4010_2020);
    assert_eq!(sprites[1].get_tile_index(), 0x123);
    assert_eq!(sprites[1].get_x_coord(), 0x10);
    assert_eq!(sprites[1].get_y_coord(), 0x20);
    assert_eq!(sprites[1].get_size(), (16, 16));
}

#[test]
fn video_memory_reads_back_what_was_written() {
    let mut ppu = PPU::new();
    ppu.write_16(0x0600_1234, 0xbeef);
    assert_eq!(ppu.read_16(0x0600_1234), 0xbeef);
    ppu.write_32(0x0601_7ffc, 0x1234_5678);
    assert_eq!(ppu.read_32(0x0601_7ffc), 0x1234_5678);
    // the last 32 KiB of the 128 KiB window mirror the object tiles
    assert_eq!(ppu.read_32(0x0601_fffc), 0x1234_5678);
    ppu.write_32(0x0700_03fe, 0xcafe_f00d);
    assert_eq!(ppu.read_32(0x0700_03fe), 0xcafe_f00d);
    assert_eq!(ppu.read_16(0x0700_0000), 0xcafe);
    // a byte written to the background area fills the whole half-word
    ppu.write_8(0x0600_1235, 0x00);
    assert_eq!(ppu.read_16(0x0600_1234), 0x0000);
}

#[test]
fn video_ram_byte_writes_fill_the_half_word() {
    let mut ppu = PPU::new();
    ppu.write_8(0x0600_0011, 0xAB);
    assert_eq!(ppu.read_16(0x0600_0010), 0xABAB);
    assert_eq!(ppu.read_16(0x0600_0012), 0);
    ppu.write_8(0x0600_ffff, 0x12);
    assert_eq!(ppu.read_16(0x0600_fffe), 0x1212);
    // in the tiled modes the object tiles take no byte writes
    ppu.write_8(0x0601_0000, 0x34);
    assert_eq!(ppu.read_16(0x0601_0000), 0);
    // in the bitmap modes the background reaches 0x13FFF
    ppu.write_16(0x0400_0000, 0x0003);
    ppu.write_8(0x0601_0000, 0x34);
    assert_eq!(ppu.read_16(0x0601_0000), 0x3434);
    ppu.write_8(0x0601_4000, 0x56);
    assert_eq!(ppu.read_16(0x0601_4000), 0);
}

#[test]
fn word_writes_act_as_two_half_word_writes() {
    for address in [0x0400_0008u32, 0x0400_0028, 0x0500_03fc, 0x0601_7ffc, 0x0700_0010] {
        let mut by_word = PPU::new();
        let mut by_halves = PPU::new();
        by_word.write_32(address, 0x0abc_1234);
        by_halves.write_16(address, 0x1234);
        by_halves.write_16(address + 2, 0x0abc);
        for k in 0..4 {
            assert_eq!(by_word.read_8(address + k), by_halves.read_8(address + k));
        }
        assert_eq!(by_word.read_32(address), by_halves.read_32(address));
    }
}
