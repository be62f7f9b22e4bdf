//! The picture processing unit: display registers, palette RAM, video RAM
//! and object attribute memory.
use vstd::prelude::*;

use crate::arm7tdmi::{sign_extend, sign_extended};
use crate::bits::bit16;
use crate::ppu::regs::PpuRegisters;

pub mod regs;
pub mod render;

verus! {

pub const PPU_REGISTERS_END: u32 = 0x56;
pub const SCREEN_TOTAL_PIXELS: usize = 38400;
pub const SPRITE_TILES_START_ADDRESS: usize = 0x10000;
pub const SPRITE_PALETTE_START_INDEX: usize = 0x100;

pub const PALETTE_RAM_SIZE: usize = 1024;
pub const VRAM_SIZE: usize = 0x1_8000;
pub const VRAM_MIRRORED_SIZE: usize = 0x2_0000;
pub const OAM_SIZE: usize = 1024;

/// Background video modes.
#[derive(Debug, Copy, Clone, PartialEq, Eq, Structural)]
pub enum EVideoMode {
    Mode0,
    Mode1,
    Mode2,
    Mode3,
    Mode4,
    Mode5,
}

/// Color special effects.
#[derive(Debug, Copy, Clone, PartialEq, Eq, Structural)]
pub enum EBlendMode {
    NoBlend,
    AlphaBlending,
    Lighten,
    Darken,
}

/// Object modes.
#[derive(Debug, Copy, Clone, PartialEq, Eq, Structural)]
pub enum ESpriteMode {
    Normal,
    SemiTransparent,
    ObjWindow,
}

/// A 5-bit color channel expanded to 8 bits (the top bits repeated below).
pub open spec fn expand5(c: u16) -> u8 {
    (((c & 0x1f) << 3) | ((c & 0x1f) >> 2)) as u8
}

/// An 8-bit intensity scaled back to 5 bits, rounding down.
pub open spec fn reduce8(c: u8) -> u16 {
    ((c as nat * 31) / 255) as u16
}

/// A palette color: the three channels of a BGR555 value, each expanded to
/// 8 bits.
#[derive(Debug, Copy, Clone)]
pub struct Color {
    pub red: u8,
    pub green: u8,
    pub blue: u8,
}

impl Color {
    /// The color a BGR555 half-word stands for (bit 15 is ignored).
    pub open spec fn spec_new(data: u16) -> Color {
        Color { red: expand5(data), green: expand5(data >> 5), blue: expand5(data >> 10) }
    }

    /// The half-word read back from palette RAM: the red intensity scaled to
    /// five bits, in each of the three channel fields.
    pub open spec fn spec_value(self) -> u16 {
        let v = reduce8(self.red);
        v | (v << 5) | (v << 10)
    }

    pub fn new(data: u16) -> (r: Self)
        ensures
            r == Self::spec_new(data),
    {
        let r = data & 0x1f;
        let g = (data >> 5) & 0x1f;
        let b = (data >> 10) & 0x1f;
        proof {
            lemma_channel_bits(data, 0);
            lemma_channel_bits(data >> 5, 0);
            lemma_channel_bits(data >> 10, 0);
        }
        Self {
            red: ((r << 3) | (r >> 2)) as u8,
            green: ((g << 3) | (g >> 2)) as u8,
            blue: ((b << 3) | (b >> 2)) as u8,
        }
    }

    pub fn zeroed() -> (r: Self)
        ensures
            r == Self::spec_new(0),
    {
        proof {
            lemma_channel_bits(0, 0);
        }
        Self { red: 0, green: 0, blue: 0 }
    }

    /// Red intensity, 0..=255.
    pub fn get_red(&self) -> (r: u8)
        ensures
            r == self.red,
    {
        self.red
    }

    /// Green intensity, 0..=255.
    pub fn get_green(&self) -> (r: u8)
        ensures
            r == self.green,
    {
        self.green
    }

    /// Blue intensity, 0..=255.
    pub fn get_blue(&self) -> (r: u8)
        ensures
            r == self.blue,
    {
        self.blue
    }

    pub fn get_value(&self) -> (r: u16)
        ensures
            r == self.spec_value(),
    {
        let v: u16 = (self.red as u32 * 31 / 255) as u16;
        proof {
            assert(v <= 31);
            lemma_channel_bits(0, v);
        }
        v | (v << 5) | (v << 10)
    }
}

/// Bit facts about channels: an expanded channel fits a byte, three equal
/// 5-bit fields fit 15 bits, and the extreme channels.
proof fn lemma_channel_bits(x: u16, v: u16)
    by (bit_vector)
    ensures
        (((x & 0x1f) << 3) | ((x & 0x1f) >> 2)) <= 0xff,
        v <= 31 ==> (v | (v << 5) | (v << 10)) <= 0x7fff,
        expand5(0) == 0,
        expand5(0u16 >> 5) == 0,
        expand5(0u16 >> 10) == 0,
        expand5(0x7fff) == 255,
        (31u16 | (31u16 << 5) | (31u16 << 10)) == 0x7fff,
        (0u16 | (0u16 << 5) | (0u16 << 10)) == 0,
{
}

/// Expanding a channel and reducing it back is exact for the extremes, so
/// black and white round-trip through palette RAM.
pub proof fn lemma_color_extremes()
    ensures
        Color::spec_new(0).spec_value() == 0,
        Color::spec_new(0x7fff).spec_value() == 0x7fff,
{
    lemma_channel_bits(0x7fff, 31);
}

/// Window boundaries: the horizontal and vertical extents as two bytes
/// each (x1/y1 in the high byte, x2/y2 in the low byte).
#[derive(Debug, Copy, Clone)]
pub struct WindowDimensions {
    pub h: u16,
    pub v: u16,
}

impl WindowDimensions {
    pub fn new() -> (r: Self)
        ensures
            r.h == 0 && r.v == 0,
    {
        Self { h: 0, v: 0 }
    }

    pub fn get_x1(&self) -> (r: u8)
        ensures
            r == (self.h >> 8) as u8,
    {
        (self.h >> 8) as u8
    }

    pub fn get_x2(&self) -> (r: u8)
        ensures
            r == (self.h & 0xff) as u8,
    {
        (self.h & 0xff) as u8
    }

    pub fn get_y1(&self) -> (r: u8)
        ensures
            r == (self.v >> 8) as u8,
    {
        (self.v >> 8) as u8
    }

    pub fn get_y2(&self) -> (r: u8)
        ensures
            r == (self.v & 0xff) as u8,
    {
        (self.v & 0xff) as u8
    }
}

fn bit_u16(v: u16, i: u16) -> (r: bool)
    requires
        i < 16,
    ensures
        r == bit16(v, i),
{
    (v >> i) & 1 == 1
}

fn bit_u64(v: u64, i: u64) -> (r: bool)
    requires
        i < 64,
    ensures
        r == ((v >> i) & 1 == 1),
{
    (v >> i) & 1 == 1
}

/// A masked value never exceeds its mask.
pub proof fn lemma_u64_and_le(v: u64, m: u64)
    ensures
        v & m <= m,
{
    crate::bits::lemma_and_le_u64(v, m);
}

/// One object (sprite) attribute entry: 64 bits from OAM.
#[derive(Debug, Clone, Copy)]
pub struct SpriteEntry(pub u64);

/// Width and height in pixels of an object from its shape and size fields;
/// `None` for the prohibited shape 3.
pub open spec fn sprite_dimensions(shape: u64, size: u64) -> Option<(usize, usize)> {
    let value = shape * 4 + size;
    if value == 0 { Some((8, 8)) }
    else if value == 1 { Some((16, 16)) }
    else if value == 2 { Some((32, 32)) }
    else if value == 3 { Some((64, 64)) }
    else if value == 4 { Some((16, 8)) }
    else if value == 5 { Some((32, 8)) }
    else if value == 6 { Some((64, 16)) }
    else if value == 7 { Some((64, 32)) }
    else if value == 8 { Some((8, 16)) }
    else if value == 9 { Some((8, 32)) }
    else if value == 10 { Some((16, 32)) }
    else if value == 11 { Some((32, 64)) }
    else { None }
}

impl SpriteEntry {
    pub open spec fn shape(self) -> u64 {
        ((self.0 >> 14) & 3)
    }

    pub open spec fn size(self) -> u64 {
        ((self.0 >> 30) & 3)
    }

    /// Vertical position: 0..=159 on screen, 160..=255 read as -96..=-1.
    pub fn get_y_coord(&self) -> (r: i32)
        ensures
            r == (if (self.0 & 0xff) >= 160 { (self.0 & 0xff) - 256 } else { (self.0 & 0xff) as int }),
    {
        proof {
            lemma_u64_and_le(self.0, 0xff);
        }
        let y = (self.0 & 0xff) as i32;
        if y >= 160 {
            y - 256
        } else {
            y
        }
    }

    /// The object mode; `None` for the prohibited value 3.
    pub fn get_sprite_mode(&self) -> (r: Option<ESpriteMode>)
        ensures
            r == (if ((self.0 >> 10) & 3) == 0 {
                Some(ESpriteMode::Normal)
            } else if ((self.0 >> 10) & 3) == 1 {
                Some(ESpriteMode::SemiTransparent)
            } else if ((self.0 >> 10) & 3) == 2 {
                Some(ESpriteMode::ObjWindow)
            } else {
                None
            }),
    {
        proof {
            lemma_u64_and_le(self.0 >> 10, 3);
        }
        let m = (self.0 >> 10) & 3;
        if m == 0 {
            Some(ESpriteMode::Normal)
        } else if m == 1 {
            Some(ESpriteMode::SemiTransparent)
        } else if m == 2 {
            Some(ESpriteMode::ObjWindow)
        } else {
            None
        }
    }

    /// Width and height in pixels.
    pub fn get_size(&self) -> (r: (usize, usize))
        requires
            self.shape() != 3,
        ensures
            Some(r) == sprite_dimensions(self.shape(), self.size()),
    {
        proof {
            lemma_u64_and_le(self.0 >> 14, 3);
            lemma_u64_and_le(self.0 >> 30, 3);
        }
        let shape = (self.0 >> 14) & 3;
        let size = (self.0 >> 30) & 3;
        let value = shape * 4 + size;
        match value {
            0 => (8, 8),
            1 => (16, 16),
            2 => (32, 32),
            3 => (64, 64),
            4 => (16, 8),
            5 => (32, 8),
            6 => (64, 16),
            7 => (64, 32),
            8 => (8, 16),
            9 => (8, 32),
            10 => (16, 32),
            _ => (32, 64),
        }
    }

    /// Horizontal position, a 9-bit signed value.
    pub fn get_x_coord(&self) -> (r: i32)
        ensures
            r == sign_extended(((self.0 >> 16) & 0x1ff) as u32, 9),
    {
        proof {
            lemma_u64_and_le(self.0 >> 16, 0x1ff);
        }
        let raw = ((self.0 >> 16) & 0x1ff) as u32;
        proof {
            vstd::arithmetic::power2::lemma2_to64();
        }
        sign_extend(raw, 9)
    }

    pub fn get_is_affine(&self) -> (r: bool)
        ensures
            r == ((self.0 >> 8) & 1 == 1),
    {
        bit_u64(self.0, 8)
    }

    pub fn get_is_virtual_double_sized(&self) -> (r: bool)
        ensures
            r == ((self.0 >> 9) & 1 == 1),
    {
        bit_u64(self.0, 9)
    }

    pub fn get_is_256_palette(&self) -> (r: bool)
        ensures
            r == ((self.0 >> 13) & 1 == 1),
    {
        bit_u64(self.0, 13)
    }

    pub fn get_affine_matrix_index(&self) -> (r: usize)
        ensures
            r == ((self.0 >> 25) & 0x1f),
    {
        proof {
            lemma_u64_and_le(self.0 >> 25, 0x1f);
        }
        ((self.0 >> 25) & 0x1f) as usize
    }

    pub fn get_tile_index(&self) -> (r: usize)
        ensures
            r == ((self.0 >> 32) & 0x3ff),
    {
        proof {
            lemma_u64_and_le(self.0 >> 32, 0x3ff);
        }
        ((self.0 >> 32) & 0x3ff) as usize
    }

    pub fn get_palette_number(&self) -> (r: u8)
        ensures
            r == ((self.0 >> 44) & 0xf),
    {
        proof {
            lemma_u64_and_le(self.0 >> 44, 0xf);
        }
        ((self.0 >> 44) & 0xf) as u8
    }

    pub fn get_affine_data(&self) -> (r: FixedPoint16Bit)
        ensures
            r.0 == (self.0 >> 48) as u16,
    {
        FixedPoint16Bit((self.0 >> 48) as u16)
    }
}

/// An 8.8 signed fixed-point number.
#[derive(Debug, Clone, Copy)]
pub struct FixedPoint16Bit(pub u16);

impl FixedPoint16Bit {
    pub fn from(value: u16) -> (r: Self)
        ensures
            r.0 == value,
    {
        Self(value)
    }

    pub fn get_fractional(&self) -> (r: u8)
        ensures
            r == (self.0 & 0xff) as u8,
    {
        (self.0 & 0xff) as u8
    }

    /// The integer part (bits 15..8, signed).
    pub fn get_integer(&self) -> (r: i32)
        ensures
            r == sign_extended((self.0 >> 8) as u32, 8),
    {
        proof {
            vstd::arithmetic::power2::lemma2_to64();
            crate::bits::lemma_top_bits(0, self.0, 0);
        }
        sign_extend((self.0 >> 8) as u32, 8)
    }

    /// The whole value in 1/256 units (signed).
    pub fn get_value(&self) -> (r: i32)
        ensures
            r == sign_extended(self.0 as u32, 16),
    {
        proof {
            vstd::arithmetic::power2::lemma2_to64();
        }
        sign_extend(self.0 as u32, 16)
    }
}

/// A 20.8 signed fixed-point number in the low 28 bits of a word.
#[derive(Debug, Clone, Copy)]
pub struct FixedPoint28Bit(pub u32);

impl FixedPoint28Bit {
    pub fn get_fractional(&self) -> (r: u8)
        ensures
            r == (self.0 & 0xff) as u8,
    {
        (self.0 & 0xff) as u8
    }

    /// The integer part (bits 27..8, signed).
    pub fn get_integer(&self) -> (r: i32)
        ensures
            r == sign_extended((self.0 >> 8) & 0xf_ffff, 20),
    {
        let x = self.0;
        proof {
            vstd::arithmetic::power2::lemma2_to64();
            crate::bits::lemma_and_le_u32(x >> 8, 0xf_ffff);
        }
        sign_extend((x >> 8) & 0xf_ffff, 20)
    }

    /// The whole value in 1/256 units (bits 27..0, signed).
    pub fn get_value(&self) -> (r: i32)
        ensures
            r == sign_extended(self.0 & 0xfff_ffff, 28),
    {
        let x = self.0;
        proof {
            vstd::arithmetic::power2::lemma2_to64();
            vstd::arithmetic::power2::lemma2_to64_rest();
            crate::bits::lemma_and_le_u32(x, 0xfff_ffff);
        }
        sign_extend(x & 0xfff_ffff, 28)
    }
}

/// The affine transform of a rotation/scaling background.
#[derive(Debug, Clone, Copy)]
pub struct BackgroundAffineMatrix {
    pub pa: FixedPoint16Bit,
    pub pb: FixedPoint16Bit,
    pub pc: FixedPoint16Bit,
    pub pd: FixedPoint16Bit,
    pub x: FixedPoint28Bit,
    pub y: FixedPoint28Bit,
}

impl BackgroundAffineMatrix {
    pub fn new() -> (r: Self)
        ensures
            r.pa.0 == 0 && r.pb.0 == 0 && r.pc.0 == 0 && r.pd.0 == 0 && r.x.0 == 0 && r.y.0 == 0,
    {
        Self {
            pa: FixedPoint16Bit(0),
            pb: FixedPoint16Bit(0),
            pc: FixedPoint16Bit(0),
            pd: FixedPoint16Bit(0),
            x: FixedPoint28Bit(0),
            y: FixedPoint28Bit(0),
        }
    }

    pub fn get_pa(&self) -> (r: &FixedPoint16Bit)
        ensures
            *r == self.pa,
    {
        &self.pa
    }

    pub fn get_pb(&self) -> (r: &FixedPoint16Bit)
        ensures
            *r == self.pb,
    {
        &self.pb
    }

    pub fn get_pc(&self) -> (r: &FixedPoint16Bit)
        ensures
            *r == self.pc,
    {
        &self.pc
    }

    pub fn get_pd(&self) -> (r: &FixedPoint16Bit)
        ensures
            *r == self.pd,
    {
        &self.pd
    }

    pub fn get_x(&self) -> (r: &FixedPoint28Bit)
        ensures
            *r == self.x,
    {
        &self.x
    }

    pub fn get_y(&self) -> (r: &FixedPoint28Bit)
        ensures
            *r == self.y,
    {
        &self.y
    }
}

/// The video mode of a three-bit mode field; `None` for 6 and 7.
pub open spec fn video_mode_of(b: u16) -> Option<EVideoMode> {
    if b == 0 { Some(EVideoMode::Mode0) }
    else if b == 1 { Some(EVideoMode::Mode1) }
    else if b == 2 { Some(EVideoMode::Mode2) }
    else if b == 3 { Some(EVideoMode::Mode3) }
    else if b == 4 { Some(EVideoMode::Mode4) }
    else if b == 5 { Some(EVideoMode::Mode5) }
    else { None }
}

fn video_mode_from(b: u16) -> (r: Option<EVideoMode>)
    ensures
        r == video_mode_of(b),
{
    if b == 0 { Some(EVideoMode::Mode0) }
    else if b == 1 { Some(EVideoMode::Mode1) }
    else if b == 2 { Some(EVideoMode::Mode2) }
    else if b == 3 { Some(EVideoMode::Mode3) }
    else if b == 4 { Some(EVideoMode::Mode4) }
    else if b == 5 { Some(EVideoMode::Mode5) }
    else { None }
}

/// LCD Control (Read/Write)
#[derive(Debug, Clone, Copy)]
pub struct DisplayControl(pub u16);

impl DisplayControl {
    pub fn get_bg_mode(&self) -> (r: Option<EVideoMode>)
        ensures
            r == video_mode_of(self.0 & 7),
    {
        video_mode_from(self.0 & 7)
    }

    pub fn get_display_frame_1(&self) -> (r: bool)
        ensures
            r == bit16(self.0, 4),
    {
        bit_u16(self.0, 4)
    }

    pub fn get_sprite_1d_mapping(&self) -> (r: bool)
        ensures
            r == bit16(self.0, 6),
    {
        bit_u16(self.0, 6)
    }

    pub fn get_forced_blank(&self) -> (r: bool)
        ensures
            r == bit16(self.0, 7),
    {
        bit_u16(self.0, 7)
    }

    /// Whether background `bg` is displayed.
    pub fn get_screen_display_bg(&self, bg: usize) -> (r: bool)
        requires
            bg < 8,
        ensures
            r == bit16(self.0, (8 + bg) as u16),
    {
        bit_u16(self.0, (8 + bg) as u16)
    }

    pub fn get_screen_display_sprites(&self) -> (r: bool)
        ensures
            r == bit16(self.0, 12),
    {
        bit_u16(self.0, 12)
    }
}

/// General LCD Status (Read/Write)
#[derive(Debug, Clone, Copy)]
pub struct DisplayStatus(pub u16);

impl DisplayStatus {
    /// The low three bits read as a video mode field.
    pub fn get_bg_mode(&self) -> (r: Option<EVideoMode>)
        ensures
            r == video_mode_of(self.0 & 7),
    {
        video_mode_from(self.0 & 7)
    }

    pub fn get_v_blank(&self) -> (r: bool)
        ensures
            r == bit16(self.0, 0),
    {
        bit_u16(self.0, 0)
    }

    pub fn get_h_blank(&self) -> (r: bool)
        ensures
            r == bit16(self.0, 1),
    {
        bit_u16(self.0, 1)
    }

    pub fn get_v_counter_flag(&self) -> (r: bool)
        ensures
            r == bit16(self.0, 2),
    {
        bit_u16(self.0, 2)
    }

    pub fn get_v_blank_irq(&self) -> (r: bool)
        ensures
            r == bit16(self.0, 3),
    {
        bit_u16(self.0, 3)
    }

    pub fn get_h_blank_irq(&self) -> (r: bool)
        ensures
            r == bit16(self.0, 4),
    {
        bit_u16(self.0, 4)
    }

    pub fn get_v_counter_irq(&self) -> (r: bool)
        ensures
            r == bit16(self.0, 5),
    {
        bit_u16(self.0, 5)
    }

    /// The scanline that raises the V-counter flag.
    pub fn get_v_count_trigger(&self) -> (r: u8)
        ensures
            r == (self.0 >> 8) as u8,
    {
        (self.0 >> 8) as u8
    }
}

/// BG Control (R/W)
#[derive(Debug, Clone, Copy)]
pub struct BackgroundControl(pub u16);

impl BackgroundControl {
    pub fn get_bg_priority(&self) -> (r: u8)
        ensures
            r == (self.0 & 3) as u8,
    {
        (self.0 & 3) as u8
    }

    /// Start of the tile data in VRAM (units of 16 KiB).
    pub fn get_tile_data_address(&self) -> (r: usize)
        ensures
            r == ((self.0 >> 2) & 3) * 0x4000,
    {
        ((self.0 >> 2) & 3) as usize * 0x4000
    }

    /// Start of the tile map in VRAM (units of 2 KiB).
    pub fn get_map_data_address(&self) -> (r: usize)
        ensures
            r == ((self.0 >> 8) & 0x1f) * 0x800,
    {
        ((self.0 >> 8) & 0x1f) as usize * 0x800
    }

    pub fn get_is_256_palette(&self) -> (r: bool)
        ensures
            r == bit16(self.0, 7),
    {
        bit_u16(self.0, 7)
    }

    pub fn get_overflow_wraparound(&self) -> (r: bool)
        ensures
            r == bit16(self.0, 13),
    {
        bit_u16(self.0, 13)
    }

    pub fn get_size(&self) -> (r: u8)
        ensures
            r == (self.0 >> 14) as u8,
    {
        (self.0 >> 14) as u8
    }
}

/// Control of Inside of Window(s) (R/W)
#[derive(Debug, Clone, Copy)]
pub struct WinIn(pub u16);

impl WinIn {
    pub fn get_win_bg_enabled(&self, win: usize, bg: usize) -> (r: bool)
        requires
            win * 8 + bg < 16,
        ensures
            r == bit16(self.0, (win * 8 + bg) as u16),
    {
        bit_u16(self.0, (win * 8 + bg) as u16)
    }

    pub fn get_win_obj_enabled(&self, win: usize) -> (r: bool)
        requires
            win < 2,
        ensures
            r == bit16(self.0, (win * 8 + 4) as u16),
    {
        bit_u16(self.0, (win * 8 + 4) as u16)
    }

    pub fn get_win_blend_enabled(&self, win: usize) -> (r: bool)
        requires
            win < 2,
        ensures
            r == bit16(self.0, (win * 8 + 5) as u16),
    {
        bit_u16(self.0, (win * 8 + 5) as u16)
    }
}

/// Control of Outside of Windows & Inside of OBJ Window (R/W)
#[derive(Debug, Clone, Copy)]
pub struct WinOut(pub u16);

impl WinOut {
    pub fn get_outside_win_bg_enabled(&self, bg: usize) -> (r: bool)
        requires
            bg < 16,
        ensures
            r == bit16(self.0, bg as u16),
    {
        bit_u16(self.0, bg as u16)
    }

    pub fn get_obj_win_bg_enabled(&self, bg: usize) -> (r: bool)
        requires
            bg < 8,
        ensures
            r == bit16(self.0, (8 + bg) as u16),
    {
        bit_u16(self.0, (8 + bg) as u16)
    }
}

/// Mosaic Size (W)
#[derive(Debug, Clone, Copy)]
pub struct Mosaic(pub u16);

/// Color Special Effects Selection (R/W)
#[derive(Debug, Clone, Copy)]
pub struct BlendControl(pub u16);

impl BlendControl {
    pub fn get_blend_bg_source(&self, bg: usize) -> (r: bool)
        requires
            bg < 16,
        ensures
            r == bit16(self.0, bg as u16),
    {
        bit_u16(self.0, bg as u16)
    }

    pub fn get_blend_mode(&self) -> (r: EBlendMode)
        ensures
            r == (if (self.0 >> 6) & 3 == 0 {
                EBlendMode::NoBlend
            } else if (self.0 >> 6) & 3 == 1 {
                EBlendMode::AlphaBlending
            } else if (self.0 >> 6) & 3 == 2 {
                EBlendMode::Lighten
            } else {
                EBlendMode::Darken
            }),
    {
        let m = (self.0 >> 6) & 3;
        if m == 0 {
            EBlendMode::NoBlend
        } else if m == 1 {
            EBlendMode::AlphaBlending
        } else if m == 2 {
            EBlendMode::Lighten
        } else {
            EBlendMode::Darken
        }
    }

    pub fn get_blend_bg_target(&self, bg: usize) -> (r: bool)
        requires
            bg < 8,
        ensures
            r == bit16(self.0, (8 + bg) as u16),
    {
        bit_u16(self.0, (8 + bg) as u16)
    }
}

/// Alpha Blending Coefficients (R/W)
#[derive(Debug, Clone, Copy)]
pub struct BlendAlpha(pub u16);

/// An entry of a text background's tile map.
#[derive(Debug, Clone, Copy)]
pub struct BackgroundMap(pub u16);

impl BackgroundMap {
    pub fn get_tile_number(&self) -> (r: usize)
        ensures
            r == self.0 & 0x3ff,
    {
        (self.0 & 0x3ff) as usize
    }

    pub fn get_h_flip(&self) -> (r: bool)
        ensures
            r == bit16(self.0, 10),
    {
        bit_u16(self.0, 10)
    }

    pub fn get_v_flip(&self) -> (r: bool)
        ensures
            r == bit16(self.0, 11),
    {
        bit_u16(self.0, 11)
    }

    pub fn get_palette_number(&self) -> (r: usize)
        ensures
            r == self.0 >> 12,
    {
        (self.0 >> 12) as usize
    }
}

/// The VRAM offset an address maps to: VRAM is mirrored every 128 KiB, and
/// within each mirror the last 32 KiB repeat the 32 KiB before them.
pub open spec fn vram_offset(address: u32) -> int {
    let clamped = (address & 0x1_ffff) as int;
    if VRAM_SIZE <= clamped < VRAM_MIRRORED_SIZE {
        clamped - (VRAM_MIRRORED_SIZE - VRAM_SIZE)
    } else {
        clamped
    }
}

fn compute_vram_address(address: u32) -> (r: usize)
    ensures
        r == vram_offset(address),
        r < VRAM_SIZE,
{
    let clamped_address = (address & 0x1_ffff) as usize;
    proof {
        crate::bits::lemma_and_le_u32(address, 0x1_ffff);
    }
    if VRAM_SIZE <= clamped_address && clamped_address < VRAM_MIRRORED_SIZE {
        clamped_address - (VRAM_MIRRORED_SIZE - VRAM_SIZE)
    } else {
        clamped_address
    }
}

} // verus!

verus! {

/// Two bytes as a little-endian half-word.
pub open spec fn le16(b0: u8, b1: u8) -> u16 {
    (b0 as u16) | ((b1 as u16) << 8)
}

/// Four bytes as a little-endian word.
pub open spec fn le32(b0: u8, b1: u8, b2: u8, b3: u8) -> u32 {
    (b0 as u32) | ((b1 as u32) << 8) | ((b2 as u32) << 16) | ((b3 as u32) << 24)
}

/// Eight bytes as a little-endian double word.
pub open spec fn le64(s: Seq<u8>, base: int) -> u64 {
    (s[base] as u64) | ((s[base + 1] as u64) << 8) | ((s[base + 2] as u64) << 16) | ((s[base + 3]
        as u64) << 24) | ((s[base + 4] as u64) << 32) | ((s[base + 5] as u64) << 40) | ((s[base
        + 6] as u64) << 48) | ((s[base + 7] as u64) << 56)
}

pub fn le16_of(b0: u8, b1: u8) -> (r: u16)
    ensures
        r == le16(b0, b1),
{
    (b0 as u16) | ((b1 as u16) << 8)
}

pub fn le32_of(b0: u8, b1: u8, b2: u8, b3: u8) -> (r: u32)
    ensures
        r == le32(b0, b1, b2, b3),
{
    (b0 as u32) | ((b1 as u32) << 8) | ((b2 as u32) << 16) | ((b3 as u32) << 24)
}

/// The memory-mapped region an address falls in (its top byte).
pub open spec fn region(address: u32) -> u32 {
    address & 0xff00_0000
}

/// The last video RAM offset of the background area, which byte writes
/// reach: 64 KiB in the tiled modes, 80 KiB in the bitmap modes.
pub open spec fn bg_vram_end(disp_cnt: u16) -> int {
    match video_mode_of(disp_cnt & 7) {
        Some(EVideoMode::Mode3) | Some(EVideoMode::Mode4) | Some(EVideoMode::Mode5) => 0x1_3fff,
        _ => 0xffff,
    }
}

/// The abstract state of the picture processing unit.
#[verifier::ext_equal]
pub struct PpuView {
    pub regs: PpuRegisters,
    /// 512 palette entries (background palettes, then object palettes).
    pub palette: Seq<Color>,
    pub vram: Seq<u8>,
    pub oam: Seq<u8>,
}

/// The palette index addressed by a byte address in palette RAM.
pub open spec fn palette_index(address: u32) -> int {
    ((address & 0x3ff) / 2) as int
}

impl PpuView {
    /// Power-on state: registers zero, palette black, VRAM and OAM zero.
    pub open spec fn power_on() -> PpuView {
        PpuView {
            regs: PpuRegisters::spec_zeroed(),
            palette: Seq::new(512, |i: int| Color::spec_new(0)),
            vram: Seq::new(VRAM_SIZE as nat, |i: int| 0u8),
            oam: Seq::new(OAM_SIZE as nat, |i: int| 0u8),
        }
    }

    pub open spec fn wf(self) -> bool {
        &&& self.palette.len() == 512
        &&& self.vram.len() == VRAM_SIZE
        &&& self.oam.len() == OAM_SIZE
    }

    pub open spec fn vram_at(self, address: u32) -> u8 {
        self.vram[vram_offset(address)]
    }

    pub open spec fn oam_at(self, address: u32) -> u8 {
        self.oam[(address & 0x3ff) as int]
    }

    pub open spec fn read_8(self, address: u32) -> u8 {
        let r = region(address);
        if r == 0x0400_0000 {
            self.regs.spec_read_8(address & 0x00ff_ffff)
        } else if r == 0x0500_0000 {
            let shift: u32 = ((address & 1) * 8) as u32;
            ((self.palette[palette_index(address)].spec_value() >> shift) & 0xff) as u8
        } else if r == 0x0600_0000 {
            self.vram_at(address)
        } else if r == 0x0700_0000 {
            self.oam_at(address)
        } else {
            0
        }
    }

    /// A byte written to palette RAM, or to the background area of video
    /// RAM (see `bg_vram_end`), is stored in both bytes of the addressed
    /// half-word; byte writes to the object area of video RAM and to object
    /// attribute memory are ignored.
    pub open spec fn write_8(self, address: u32, value: u8) -> PpuView {
        let r = region(address);
        if r == 0x0400_0000 {
            PpuView { regs: self.regs.spec_write_8(address & 0x00ff_ffff, value), ..self }
        } else if r == 0x0500_0000 {
            PpuView {
                palette: self.palette.update(
                    palette_index(address),
                    Color::spec_new(((value as u16) * 0x101) as u16),
                ),
                ..self
            }
        } else if r == 0x0600_0000 && vram_offset(address) <= bg_vram_end(self.regs.disp_cnt) {
            let at = vram_offset(address) - vram_offset(address) % 2;
            PpuView { vram: self.vram.update(at, value).update(at + 1, value), ..self }
        } else {
            self
        }
    }

    pub open spec fn read_16(self, address: u32) -> u16 {
        let r = region(address);
        if r == 0x0400_0000 {
            self.regs.spec_read_16(address & 0x00ff_ffff)
        } else if r == 0x0500_0000 {
            self.palette[palette_index(address)].spec_value()
        } else if r == 0x0600_0000 {
            le16(self.vram_at(address), self.vram_at(address.wrapping_add(1)))
        } else if r == 0x0700_0000 {
            le16(self.oam_at(address), self.oam_at(address.wrapping_add(1)))
        } else {
            0
        }
    }

    pub open spec fn write_16(self, address: u32, value: u16) -> PpuView {
        let r = region(address);
        if r == 0x0400_0000 {
            PpuView { regs: self.regs.spec_write_16(address & 0x00ff_ffff, value), ..self }
        } else if r == 0x0500_0000 {
            PpuView {
                palette: self.palette.update(palette_index(address), Color::spec_new(value)),
                ..self
            }
        } else if r == 0x0600_0000 {
            PpuView {
                vram: self.vram.update(vram_offset(address), value as u8).update(
                    vram_offset(address.wrapping_add(1)),
                    (value >> 8) as u8,
                ),
                ..self
            }
        } else if r == 0x0700_0000 {
            PpuView {
                oam: self.oam.update((address & 0x3ff) as int, value as u8).update(
                    (address.wrapping_add(1) & 0x3ff) as int,
                    (value >> 8) as u8,
                ),
                ..self
            }
        } else {
            self
        }
    }

    /// A word read from palette RAM joins two consecutive entries (the
    /// entry after the last one is the first, as palette RAM repeats).
    pub open spec fn read_32(self, address: u32) -> u32 {
        let r = region(address);
        if r == 0x0400_0000 {
            self.regs.spec_read_32(address & 0x00ff_ffff)
        } else if r == 0x0500_0000 {
            let i = palette_index(address);
            self.palette[i].spec_value() as u32 | ((self.palette[(i + 1) % 512].spec_value() as u32)
                << 16)
        } else if r == 0x0600_0000 {
            le32(
                self.vram_at(address),
                self.vram_at(address.wrapping_add(1)),
                self.vram_at(address.wrapping_add(2)),
                self.vram_at(address.wrapping_add(3)),
            )
        } else if r == 0x0700_0000 {
            le32(
                self.oam_at(address),
                self.oam_at(address.wrapping_add(1)),
                self.oam_at(address.wrapping_add(2)),
                self.oam_at(address.wrapping_add(3)),
            )
        } else {
            0
        }
    }

    pub open spec fn write_32(self, address: u32, value: u32) -> PpuView {
        let r = region(address);
        if r == 0x0400_0000 {
            PpuView { regs: self.regs.spec_write_32(address & 0x00ff_ffff, value), ..self }
        } else if r == 0x0500_0000 {
            let i = palette_index(address);
            PpuView {
                palette: self.palette.update(i, Color::spec_new(value as u16)).update(
                    (i + 1) % 512,
                    Color::spec_new((value >> 16) as u16),
                ),
                ..self
            }
        } else if r == 0x0600_0000 {
            PpuView {
                vram: self.vram.update(vram_offset(address), value as u8).update(
                    vram_offset(address.wrapping_add(1)),
                    (value >> 8) as u8,
                ).update(vram_offset(address.wrapping_add(2)), (value >> 16) as u8).update(
                    vram_offset(address.wrapping_add(3)),
                    (value >> 24) as u8,
                ),
                ..self
            }
        } else if r == 0x0700_0000 {
            PpuView {
                oam: self.oam.update((address & 0x3ff) as int, value as u8).update(
                    (address.wrapping_add(1) & 0x3ff) as int,
                    (value >> 8) as u8,
                ).update((address.wrapping_add(2) & 0x3ff) as int, (value >> 16) as u8).update(
                    (address.wrapping_add(3) & 0x3ff) as int,
                    (value >> 24) as u8,
                ),
                ..self
            }
        } else {
            self
        }
    }
}

/// Bit facts behind the video memory law: the bytes of an access follow
/// each other round the 128 KiB video RAM window and the 1 KiB object
/// attribute memory, and splitting a word or half-word into bytes and
/// joining them is exact.
proof fn lemma_video_access_bits(address: u32, value: u32)
    by (bit_vector)
    requires
        address < 0xffff_fff0,
    ensures
        ((address + 1) as u32 & 0x1_ffff) == ((address & 0x1_ffff) + 1) % 0x2_0000,
        ((address + 2) as u32 & 0x1_ffff) == ((address & 0x1_ffff) + 2) % 0x2_0000,
        ((address + 3) as u32 & 0x1_ffff) == ((address & 0x1_ffff) + 3) % 0x2_0000,
        ((address + 1) as u32 & 0x3ff) == ((address & 0x3ff) + 1) % 0x400,
        ((address + 2) as u32 & 0x3ff) == ((address & 0x3ff) + 2) % 0x400,
        ((address + 3) as u32 & 0x3ff) == ((address & 0x3ff) + 3) % 0x400,
        le16(value as u16 as u8, ((value as u16) >> 8) as u8) == value as u16,
        le32(value as u8, (value >> 8) as u8, (value >> 16) as u8, (value >> 24) as u8) == value,
{
}

/// A half-word or a word written to video RAM or to object attribute
/// memory reads back unchanged, at any address (the bytes of one access
/// never land on the same cell, mirrors included).
pub proof fn lemma_video_memory_read_after_write(p: PpuView, address: u32, value: u32)
    requires
        p.wf(),
        region(address) == 0x0600_0000 || region(address) == 0x0700_0000,
    ensures
        p.write_16(address, value as u16).read_16(address) == value as u16,
        p.write_32(address, value).read_32(address) == value,
{
    assert(address < 0x0800_0000) by (bit_vector)
        requires
            address & 0xff00_0000 == 0x0600_0000 || address & 0xff00_0000 == 0x0700_0000,
    ;
    lemma_video_access_bits(address, value);
    let a1 = address.wrapping_add(1);
    let a2 = address.wrapping_add(2);
    let a3 = address.wrapping_add(3);
    assert(a1 == (address + 1) as u32 && a2 == (address + 2) as u32 && a3 == (address + 3) as u32);
    crate::bits::lemma_and_le_u32(address, 0x1_ffff);
    crate::bits::lemma_and_le_u32(address, 0x3ff);
    let h = value as u16;
    if region(address) == 0x0700_0000 {
        let w = p.write_16(address, h);
        assert(w.oam_at(address) == h as u8 && w.oam_at(a1) == (h >> 8) as u8);
        let x = p.write_32(address, value);
        assert(x.oam_at(address) == value as u8);
        assert(x.oam_at(a1) == (value >> 8) as u8);
        assert(x.oam_at(a2) == (value >> 16) as u8);
        assert(x.oam_at(a3) == (value >> 24) as u8);
    } else {
        let o0 = vram_offset(address);
        let o1 = vram_offset(a1);
        let o2 = vram_offset(a2);
        let o3 = vram_offset(a3);
        assert(o0 != o1 && o0 != o2 && o0 != o3 && o1 != o2 && o1 != o3 && o2 != o3);
        let w = p.write_16(address, h);
        assert(w.vram_at(address) == h as u8 && w.vram_at(a1) == (h >> 8) as u8);
        let x = p.write_32(address, value);
        assert(x.vram_at(address) == value as u8);
        assert(x.vram_at(a1) == (value >> 8) as u8);
        assert(x.vram_at(a2) == (value >> 16) as u8);
        assert(x.vram_at(a3) == (value >> 24) as u8);
    }
}

/// Bit facts behind the word-write law: an aligned word never crosses a
/// region, a palette or object attribute line, and its halves split into
/// the same bytes as the word.
proof fn lemma_word_halves_bits(address: u32, value: u32)
    by (bit_vector)
    requires
        address & 3 == 0,
    ensures
        ((address + 2) as u32 & 0xff00_0000) == address & 0xff00_0000,
        ((address + 2) as u32 & 0x00ff_ffff) == (address & 0x00ff_ffff) + 2,
        (address & 0x00ff_ffff) & 3 == 0,
        ((address + 2) as u32 & 0x3ff) == (address & 0x3ff) + 2,
        (address & 0x3ff) <= 0x3fc,
        (address & 0x3ff) & 1 == 0,
        address <= 0xffff_fffc,
        (value as u16) as u8 == value as u8,
        ((value as u16) >> 8) as u8 == (value >> 8) as u8,
        ((value >> 16) as u16) as u8 == (value >> 16) as u8,
        (((value >> 16) as u16) >> 8) as u8 == (value >> 24) as u8,
{
}

/// A word written at an address that is a multiple of four acts as two
/// half-word writes, the low half at the address and then the high half
/// two bytes above, in every region.
pub proof fn lemma_word_write_is_two_half_word_writes(p: PpuView, address: u32, value: u32)
    requires
        address % 4 == 0,
    ensures
        p.write_32(address, value) == p.write_16(address, value as u16).write_16(
            (address + 2) as u32,
            (value >> 16) as u16,
        ),
{
    assert(address % 4 == 0 ==> address & 3 == 0) by (bit_vector);
    lemma_word_halves_bits(address, value);
    let a2 = (address + 2) as u32;
    let addr = address & 0x00ff_ffff;
    assert(addr % 4 == 0) by (bit_vector)
        requires
            addr & 3 == 0,
    ;
    assert(address.wrapping_add(1) == (address + 1) as u32);
    assert(address.wrapping_add(2) == a2);
    assert(address.wrapping_add(3) == (address + 3) as u32);
    assert(a2.wrapping_add(1) == (address + 3) as u32);
    let w = p.write_32(address, value);
    let h = p.write_16(address, value as u16).write_16(a2, (value >> 16) as u16);
    let r = region(address);
    if r == 0x0400_0000 {
        assert(w.regs == h.regs);
    } else if r == 0x0500_0000 {
        assert(palette_index(a2) == palette_index(address) + 1);
        assert(w.palette =~= h.palette);
    } else if r == 0x0600_0000 {
        assert(w.vram =~= h.vram);
    } else if r == 0x0700_0000 {
        assert(w.oam =~= h.oam);
    }
    assert(w =~= h);
}

/// Status flags after `step(cycle)`: the scanline counter, the V-counter
/// match flag and the blanking flags; and the (H-blank, V-blank) interrupt
/// signals it returns.
pub open spec fn step_vcount(cycle: u32) -> u8 {
    (cycle / 1232) as u8
}

pub open spec fn step_status(stat: u16, cycle: u32) -> u16 {
    let flagged = crate::bits::with_bit16(stat, 2, step_vcount(cycle) == (stat >> 8) as u8);
    if cycle % 280896 == 0 {
        crate::bits::with_bit16(flagged, 0, false)
    } else if cycle == 197120 {
        crate::bits::with_bit16(flagged, 0, true)
    } else if cycle % 1232 == 0 {
        crate::bits::with_bit16(flagged, 1, false)
    } else if cycle.wrapping_sub(960) % 1232 == 0 {
        crate::bits::with_bit16(flagged, 1, true)
    } else {
        flagged
    }
}

pub open spec fn step_signals(cycle: u32) -> (bool, bool) {
    if cycle % 280896 == 0 {
        (false, false)
    } else if cycle == 197120 {
        (false, true)
    } else if cycle % 1232 == 0 {
        (false, false)
    } else if cycle.wrapping_sub(960) % 1232 == 0 {
        (true, false)
    } else {
        (false, false)
    }
}

fn with_bit_u16(v: u16, i: u16, b: bool) -> (r: u16)
    requires
        i < 16,
    ensures
        r == crate::bits::with_bit16(v, i, b),
{
    if b {
        v | (1u16 << i)
    } else {
        v & !(1u16 << i)
    }
}

/// The picture processing unit.
pub struct PPU {
    regs: PpuRegisters,
    palette_ram: Vec<Color>,
    vram: Vec<u8>,
    oam: Vec<u8>,
}

impl View for PPU {
    type V = PpuView;

    closed spec fn view(&self) -> PpuView {
        PpuView { regs: self.regs, palette: self.palette_ram@, vram: self.vram@, oam: self.oam@ }
    }
}

impl PPU {
    pub fn new() -> (r: Self)
        ensures
            r@.wf(),
            r@ == PpuView::power_on(),
    {
        let palette_ram = vec![Color::zeroed(); PALETTE_RAM_SIZE / 2];
        let vram = vec![0u8; VRAM_SIZE];
        let oam = vec![0u8; OAM_SIZE];
        let r = Self { regs: PpuRegisters::zeroed(), palette_ram, vram, oam };
        proof {
            assert(r@.palette =~= Seq::new(512, |i: int| Color::spec_new(0)));
            assert(r@.vram =~= Seq::new(VRAM_SIZE as nat, |i: int| 0u8));
            assert(r@.oam =~= Seq::new(OAM_SIZE as nat, |i: int| 0u8));
        }
        r
    }

    pub fn get_disp_cnt(&self) -> (r: DisplayControl)
        ensures
            r.0 == self@.regs.disp_cnt,
    {
        DisplayControl(self.regs.disp_cnt)
    }

    pub fn get_disp_stat(&self) -> (r: DisplayStatus)
        ensures
            r.0 == self@.regs.disp_stat,
    {
        DisplayStatus(self.regs.disp_stat)
    }

    pub fn get_vcount(&self) -> (r: u8)
        ensures
            r == self@.regs.v_count,
    {
        self.regs.v_count
    }

    pub fn set_vcount(&mut self, value: u8)
        ensures
            final(self)@ == (PpuView { regs: PpuRegisters { v_count: value, ..old(self)@.regs }, ..old(self)@ }),
    {
        self.regs.v_count = value
    }

    /// Control register of background `index`.
    pub fn get_bg_cnt(&self, index: usize) -> (r: BackgroundControl)
        requires
            index < 4,
        ensures
            r.0 == (if index == 0 { self@.regs.bg0_cnt } else if index == 1 { self@.regs.bg1_cnt }
            else if index == 2 { self@.regs.bg2_cnt } else { self@.regs.bg3_cnt }),
    {
        BackgroundControl(
            if index == 0 {
                self.regs.bg0_cnt
            } else if index == 1 {
                self.regs.bg1_cnt
            } else if index == 2 {
                self.regs.bg2_cnt
            } else {
                self.regs.bg3_cnt
            },
        )
    }

    /// Horizontal scroll of background `index` (nine bits).
    pub fn get_bg_hofs(&self, index: usize) -> (r: u16)
        requires
            index < 4,
        ensures
            r == (if index == 0 { self@.regs.bg0_hofs } else if index == 1 { self@.regs.bg1_hofs }
            else if index == 2 { self@.regs.bg2_hofs } else { self@.regs.bg3_hofs }) & 0x01ff,
    {
        (if index == 0 {
            self.regs.bg0_hofs
        } else if index == 1 {
            self.regs.bg1_hofs
        } else if index == 2 {
            self.regs.bg2_hofs
        } else {
            self.regs.bg3_hofs
        }) & 0x01ff
    }

    /// Vertical scroll of background `index` (nine bits).
    pub fn get_bg_vofs(&self, index: usize) -> (r: u16)
        requires
            index < 4,
        ensures
            r == (if index == 0 { self@.regs.bg0_vofs } else if index == 1 { self@.regs.bg1_vofs }
            else if index == 2 { self@.regs.bg2_vofs } else { self@.regs.bg3_vofs }) & 0x01ff,
    {
        (if index == 0 {
            self.regs.bg0_vofs
        } else if index == 1 {
            self.regs.bg1_vofs
        } else if index == 2 {
            self.regs.bg2_vofs
        } else {
            self.regs.bg3_vofs
        }) & 0x01ff
    }

    /// Affine transform of background 2 (`index` 0) or 3 (`index` 1).
    pub fn get_bg_affine_matrix(&self, index: usize) -> (r: BackgroundAffineMatrix)
        requires
            index < 2,
        ensures
            index == 0 ==> r.pa.0 == self@.regs.bg2_pa && r.pb.0 == self@.regs.bg2_pb && r.pc.0
                == self@.regs.bg2_pc && r.pd.0 == self@.regs.bg2_pd && r.x.0 == self@.regs.bg2_x
                && r.y.0 == self@.regs.bg2_y,
            index == 1 ==> r.pa.0 == self@.regs.bg3_pa && r.pb.0 == self@.regs.bg3_pb && r.pc.0
                == self@.regs.bg3_pc && r.pd.0 == self@.regs.bg3_pd && r.x.0 == self@.regs.bg3_x
                && r.y.0 == self@.regs.bg3_y,
    {
        if index == 0 {
            BackgroundAffineMatrix {
                pa: FixedPoint16Bit(self.regs.bg2_pa),
                pb: FixedPoint16Bit(self.regs.bg2_pb),
                pc: FixedPoint16Bit(self.regs.bg2_pc),
                pd: FixedPoint16Bit(self.regs.bg2_pd),
                x: FixedPoint28Bit(self.regs.bg2_x),
                y: FixedPoint28Bit(self.regs.bg2_y),
            }
        } else {
            BackgroundAffineMatrix {
                pa: FixedPoint16Bit(self.regs.bg3_pa),
                pb: FixedPoint16Bit(self.regs.bg3_pb),
                pc: FixedPoint16Bit(self.regs.bg3_pc),
                pd: FixedPoint16Bit(self.regs.bg3_pd),
                x: FixedPoint28Bit(self.regs.bg3_x),
                y: FixedPoint28Bit(self.regs.bg3_y),
            }
        }
    }

    /// Boundaries of window `index`.
    pub fn get_win_dimensions(&self, index: usize) -> (r: WindowDimensions)
        requires
            index < 2,
        ensures
            r.h == (if index == 0 { self@.regs.win0_h } else { self@.regs.win1_h }),
            r.v == (if index == 0 { self@.regs.win0_v } else { self@.regs.win1_v }),
    {
        if index == 0 {
            WindowDimensions { h: self.regs.win0_h, v: self.regs.win0_v }
        } else {
            WindowDimensions { h: self.regs.win1_h, v: self.regs.win1_v }
        }
    }

    pub fn get_win_in(&self) -> (r: WinIn)
        ensures
            r.0 == self@.regs.win_in,
    {
        WinIn(self.regs.win_in)
    }

    pub fn get_win_out(&self) -> (r: WinOut)
        ensures
            r.0 == self@.regs.win_out,
    {
        WinOut(self.regs.win_out)
    }

    pub fn get_mosaic(&self) -> (r: Mosaic)
        ensures
            r.0 == self@.regs.mosaic,
    {
        Mosaic(self.regs.mosaic)
    }

    pub fn get_blend_control(&self) -> (r: BlendControl)
        ensures
            r.0 == self@.regs.bld_cnt,
    {
        BlendControl(self.regs.bld_cnt)
    }

    pub fn get_blend_alpha(&self) -> (r: BlendAlpha)
        ensures
            r.0 == self@.regs.bld_alpha,
    {
        BlendAlpha(self.regs.bld_alpha)
    }

    /// Brightness (Fade-In/Out) Coefficient (W)
    pub fn get_blend_brightness(&self) -> (r: u8)
        ensures
            r == (self@.regs.bld_y & 0xf) as u8,
    {
        (self.regs.bld_y & 0xf) as u8
    }

    /// Get all the colors currently in Palette RAM
    pub fn get_palettes_colors(&self) -> (r: &[Color])
        ensures
            r@ == self@.palette,
    {
        self.palette_ram.as_slice()
    }

    /// Palette entry `index`.
    pub fn get_palette_color(&self, index: usize) -> (r: Color)
        requires
            self@.wf(),
            index < 512,
        ensures
            r == self@.palette[index as int],
    {
        self.palette_ram[index]
    }

    /// Byte `index` of video RAM.
    pub(crate) fn vram_byte(&self, index: usize) -> (r: u8)
        requires
            self@.wf(),
            index < VRAM_SIZE,
        ensures
            r == self@.vram[index as int],
    {
        self.vram[index]
    }

    /// Get all the sprites currently in OAM
    pub fn get_sprites(&self) -> (r: Vec<SpriteEntry>)
        requires
            self@.wf(),
        ensures
            r@.len() == 128,
            forall|i: int| 0 <= i < 128 ==> (#[trigger] r@[i]).0 == le64(self@.oam, 8 * i),
    {
        let mut result: Vec<SpriteEntry> = Vec::new();
        let mut i: usize = 0;
        while i < 128
            invariant
                i <= 128,
                self@.wf(),
                result@.len() == i,
                forall|j: int| 0 <= j < i ==> (#[trigger] result@[j]).0 == le64(self@.oam, 8 * j),
            decreases 128 - i,
        {
            let b = 8 * i;
            let v: u64 = (self.oam[b] as u64) | ((self.oam[b + 1] as u64) << 8) | ((self.oam[b + 2]
                as u64) << 16) | ((self.oam[b + 3] as u64) << 24) | ((self.oam[b + 4] as u64) << 32)
                | ((self.oam[b + 5] as u64) << 40) | ((self.oam[b + 6] as u64) << 48) | ((self.oam[b
                + 7] as u64) << 56);
            result.push(SpriteEntry(v));
            i = i + 1;
        }
        result
    }

    /// Calculate PPU status based on provided cycle
    /// Returns (h_blank_irq, v_blank_irq)
    pub fn step(&mut self, current_cycle: u32) -> (r: (bool, bool))
        ensures
            final(self)@ == (PpuView {
                regs: PpuRegisters {
                    v_count: step_vcount(current_cycle),
                    disp_stat: step_status(old(self)@.regs.disp_stat, current_cycle),
                    ..old(self)@.regs
                },
                ..old(self)@
            }),
            r == step_signals(current_cycle),
    {
        let v_count = (current_cycle / 1232) as u8;
        self.set_vcount(v_count);
        let trigger = (self.regs.disp_stat >> 8) as u8;
        self.regs.disp_stat = with_bit_u16(self.regs.disp_stat, 2, v_count == trigger);
        if current_cycle % 280896 == 0 {
            // V-Blank end
            self.regs.disp_stat = with_bit_u16(self.regs.disp_stat, 0, false);
        } else if current_cycle == 197120 {
            // V-Blank
            self.regs.disp_stat = with_bit_u16(self.regs.disp_stat, 0, true);
            return (false, true);
        } else if current_cycle % 1232 == 0 {
            // H-Blank end
            self.regs.disp_stat = with_bit_u16(self.regs.disp_stat, 1, false);
        } else if current_cycle.wrapping_sub(960) % 1232 == 0 {
            // H-Blank
            self.regs.disp_stat = with_bit_u16(self.regs.disp_stat, 1, true);
            return (true, false);
        }
        (false, false)
    }
}

} // verus!

verus! {

impl PPU {
    pub fn read_8(&self, address: u32) -> (r: u8)
        requires
            self@.wf(),
        ensures
            r == self@.read_8(address),
    {
        let r = address & 0xff00_0000;
        if r == 0x0400_0000 {
            self.regs.read_8(address & 0x00ff_ffff)
        } else if r == 0x0500_0000 {
            proof {
                crate::bits::lemma_and_le_u32(address, 1);
                crate::bits::lemma_and_le_u32(address, 0x3ff);
            }
            let shift: u32 = (address & 1) * 8;
            let value = self.palette_ram[((address & 0x3ff) / 2) as usize].get_value();
            proof {
                crate::bits::lemma_and_le_u16(value >> shift, 0xff);
            }
            ((value >> shift) & 0xff) as u8
        } else if r == 0x0600_0000 {
            self.vram[compute_vram_address(address)]
        } else if r == 0x0700_0000 {
            proof {
                crate::bits::lemma_and_le_u32(address, 0x3ff);
            }
            self.oam[(address & 0x3ff) as usize]
        } else {
            0x0
        }
    }

    pub fn write_8(&mut self, address: u32, value: u8)
        requires
            old(self)@.wf(),
        ensures
            final(self)@ == old(self)@.write_8(address, value),
            final(self)@.wf(),
    {
        let r = address & 0xff00_0000;
        if r == 0x0400_0000 {
            self.regs.write_8(address & 0x00ff_ffff, value);
        } else if r == 0x0500_0000 {
            // Palette RAM writes the byte to both halves of the half-word.
            proof {
                crate::bits::lemma_and_le_u32(address, 0x3ff);
            }
            let color = Color::new((value as u16) * 0x101);
            self.palette_ram[((address & 0x3ff) / 2) as usize] = color;
        } else if r == 0x0600_0000 {
            // Byte writes reach only the background area of the current mode.
            let offset = compute_vram_address(address);
            let end_bg_offset: usize = match self.get_disp_cnt().get_bg_mode() {
                Some(EVideoMode::Mode3) | Some(EVideoMode::Mode4) | Some(EVideoMode::Mode5) => 0x1_3fff,
                _ => 0xffff,
            };
            if offset <= end_bg_offset {
                let at = offset - offset % 2;
                self.vram.set(at, value);
                self.vram.set(at + 1, value);
            }
        }
    }

    pub fn read_16(&self, address: u32) -> (r: u16)
        requires
            self@.wf(),
        ensures
            r == self@.read_16(address),
    {
        let r = address & 0xff00_0000;
        if r == 0x0400_0000 {
            self.regs.read_16(address & 0x00ff_ffff)
        } else if r == 0x0500_0000 {
            proof {
                crate::bits::lemma_and_le_u32(address, 0x3ff);
            }
            self.palette_ram[((address & 0x3ff) / 2) as usize].get_value()
        } else if r == 0x0600_0000 {
            le16_of(
                self.vram[compute_vram_address(address)],
                self.vram[compute_vram_address(address.wrapping_add(1))],
            )
        } else if r == 0x0700_0000 {
            proof {
                crate::bits::lemma_and_le_u32(address, 0x3ff);
                crate::bits::lemma_and_le_u32(address.wrapping_add(1), 0x3ff);
            }
            le16_of(
                self.oam[(address & 0x3ff) as usize],
                self.oam[(address.wrapping_add(1) & 0x3ff) as usize],
            )
        } else {
            0x0
        }
    }

    pub fn write_16(&mut self, address: u32, value: u16)
        requires
            old(self)@.wf(),
        ensures
            final(self)@ == old(self)@.write_16(address, value),
            final(self)@.wf(),
    {
        let r = address & 0xff00_0000;
        if r == 0x0400_0000 {
            self.regs.write_16(address & 0x00ff_ffff, value);
        } else if r == 0x0500_0000 {
            proof {
                crate::bits::lemma_and_le_u32(address, 0x3ff);
            }
            let color = Color::new(value);
            self.palette_ram[((address & 0x3ff) / 2) as usize] = color;
        } else if r == 0x0600_0000 {
            let a0 = compute_vram_address(address);
            let a1 = compute_vram_address(address.wrapping_add(1));
            self.vram[a0] = value as u8;
            self.vram[a1] = (value >> 8) as u8;
        } else if r == 0x0700_0000 {
            proof {
                crate::bits::lemma_and_le_u32(address, 0x3ff);
                crate::bits::lemma_and_le_u32(address.wrapping_add(1), 0x3ff);
            }
            self.oam[(address & 0x3ff) as usize] = value as u8;
            self.oam[(address.wrapping_add(1) & 0x3ff) as usize] = (value >> 8) as u8;
        }
    }

    pub fn read_32(&self, address: u32) -> (r: u32)
        requires
            self@.wf(),
        ensures
            r == self@.read_32(address),
    {
        let r = address & 0xff00_0000;
        if r == 0x0400_0000 {
            self.regs.read_32(address & 0x00ff_ffff)
        } else if r == 0x0500_0000 {
            proof {
                crate::bits::lemma_and_le_u32(address, 0x3ff);
            }
            let i = ((address & 0x3ff) / 2) as usize;
            self.palette_ram[i].get_value() as u32 | ((self.palette_ram[(i + 1) % 512].get_value()
                as u32) << 16)
        } else if r == 0x0600_0000 {
            le32_of(
                self.vram[compute_vram_address(address)],
                self.vram[compute_vram_address(address.wrapping_add(1))],
                self.vram[compute_vram_address(address.wrapping_add(2))],
                self.vram[compute_vram_address(address.wrapping_add(3))],
            )
        } else if r == 0x0700_0000 {
            proof {
                crate::bits::lemma_and_le_u32(address, 0x3ff);
                crate::bits::lemma_and_le_u32(address.wrapping_add(1), 0x3ff);
                crate::bits::lemma_and_le_u32(address.wrapping_add(2), 0x3ff);
                crate::bits::lemma_and_le_u32(address.wrapping_add(3), 0x3ff);
            }
            le32_of(
                self.oam[(address & 0x3ff) as usize],
                self.oam[(address.wrapping_add(1) & 0x3ff) as usize],
                self.oam[(address.wrapping_add(2) & 0x3ff) as usize],
                self.oam[(address.wrapping_add(3) & 0x3ff) as usize],
            )
        } else {
            0x0
        }
    }

    pub fn write_32(&mut self, address: u32, value: u32)
        requires
            old(self)@.wf(),
        ensures
            final(self)@ == old(self)@.write_32(address, value),
            final(self)@.wf(),
    {
        let r = address & 0xff00_0000;
        if r == 0x0400_0000 {
            self.regs.write_32(address & 0x00ff_ffff, value);
        } else if r == 0x0500_0000 {
            proof {
                crate::bits::lemma_and_le_u32(address, 0x3ff);
            }
            let i = ((address & 0x3ff) / 2) as usize;
            let color_lo = Color::new(value as u16);
            let color_hi = Color::new((value >> 16) as u16);
            self.palette_ram[i] = color_lo;
            self.palette_ram[(i + 1) % 512] = color_hi;
        } else if r == 0x0600_0000 {
            let a0 = compute_vram_address(address);
            let a1 = compute_vram_address(address.wrapping_add(1));
            let a2 = compute_vram_address(address.wrapping_add(2));
            let a3 = compute_vram_address(address.wrapping_add(3));
            self.vram[a0] = value as u8;
            self.vram[a1] = (value >> 8) as u8;
            self.vram[a2] = (value >> 16) as u8;
            self.vram[a3] = (value >> 24) as u8;
        } else if r == 0x0700_0000 {
            proof {
                crate::bits::lemma_and_le_u32(address, 0x3ff);
                crate::bits::lemma_and_le_u32(address.wrapping_add(1), 0x3ff);
                crate::bits::lemma_and_le_u32(address.wrapping_add(2), 0x3ff);
                crate::bits::lemma_and_le_u32(address.wrapping_add(3), 0x3ff);
            }
            self.oam[(address & 0x3ff) as usize] = value as u8;
            self.oam[(address.wrapping_add(1) & 0x3ff) as usize] = (value >> 8) as u8;
            self.oam[(address.wrapping_add(2) & 0x3ff) as usize] = (value >> 16) as u8;
            self.oam[(address.wrapping_add(3) & 0x3ff) as usize] = (value >> 24) as u8;
        }
    }
}

} // verus!

verus! {

/// Display timing over one frame of 228 lines of 1232 cycles: the line
/// counter goes up by one every 1232 cycles, staying below 228; V-Blank is
/// signalled once, as line 160 begins; H-Blank and V-Blank are never
/// signalled together.
pub proof fn lemma_display_timing(cycle: u32)
    requires
        cycle < 280_896,
    ensures
        step_vcount(cycle) < 228,
        cycle + 1232 < 280_896 ==> step_vcount((cycle + 1232) as u32) == step_vcount(cycle) + 1,
        step_signals(cycle).1 <==> cycle == 160 * 1232,
        !(step_signals(cycle).0 && step_signals(cycle).1),
{
    assert(cycle / 1232 < 228);
    assert(((cycle + 1232) as u32) / 1232 == cycle / 1232 + 1);
}

/// Bit facts: a 5-bit channel expanded to 8 bits is the channel times 8
/// plus its top three bits.
proof fn lemma_expand5_bits(d: u16)
    by (bit_vector)
    ensures
        ((((d & 0x1f) << 3) | ((d & 0x1f) >> 2)) as u8) as int == (d & 0x1f) as int * 8 + (d & 0x1f) as int
            / 4,
        (d >> 5) & 0x1f < 32,
{
}

/// A BGR555 color expands each 5-bit channel `x` to the 8-bit level
/// `8 * x + x / 4`: red from bits 4..0, green from bits 9..5, blue from
/// bits 14..10, so that 0 gives 0 and 31 gives 255.
pub proof fn lemma_color_channels(data: u16)
    ensures
        Color::spec_new(data).red as int == (data % 32) * 8 + (data % 32) / 4,
        Color::spec_new(data).green as int == ((data / 32) % 32) * 8 + ((data / 32) % 32) / 4,
        Color::spec_new(data).blue as int == ((data / 1024) % 32) * 8 + ((data / 1024) % 32) / 4,
{
    lemma_expand5_bits(data);
    lemma_expand5_bits(data >> 5);
    lemma_expand5_bits(data >> 10);
    assert(data & 0x1f == data % 32 && (data >> 5) & 0x1f == (data / 32) % 32 && (data >> 10) & 0x1f
        == (data / 1024) % 32) by (bit_vector);
}

} // verus!
