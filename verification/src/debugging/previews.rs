//! Pictures of video RAM for the debugger: every 64-byte tile as 256-color
//! pixels, and each object on its own.
use vstd::prelude::*;

use crate::bits::bit16;
use crate::ppu::render::{frame_bytes, sprite_bit, sprite_size};
use crate::ppu::{
    Color, EVideoMode, PpuView, SpriteEntry, PPU, SPRITE_PALETTE_START_INDEX, SPRITE_TILES_START_ADDRESS,
    VRAM_SIZE, video_mode_of,
};

verus! {

/// Where object tiles start in video RAM: 64 KiB in the tiled modes, 80
/// KiB in the bitmap modes.
pub open spec fn object_tiles_start(mode: EVideoMode) -> int {
    if mode == EVideoMode::Mode0 || mode == EVideoMode::Mode1 || mode == EVideoMode::Mode2 {
        SPRITE_TILES_START_ADDRESS as int
    } else {
        0x14000
    }
}

/// The video RAM byte shown at pixel `q` of the 256x384 tile sheet: tiles
/// of 8x8 bytes, 32 to a row.
pub open spec fn sheet_byte_index(q: int) -> int {
    let x = q % 256;
    let y = q / 256;
    ((y / 8) * 32 + x / 8) * 64 + (y % 8) * 8 + x % 8
}

/// The tile sheet: each byte of video RAM as a 256-color pixel, with the
/// object palettes for the object tiles.
pub open spec fn tile_sheet(p: PpuView, mode: EVideoMode) -> Seq<Color> {
    Seq::new(
        VRAM_SIZE as nat,
        |q: int|
            {
                let i = sheet_byte_index(q);
                let offset = if i >= object_tiles_start(mode) { 256int } else { 0int };
                p.palette[p.vram[i] as int + offset]
            },
    )
}

/// The tile sheet (256x384 pixels as red, green and blue bytes); `None`
/// when the display control holds no valid video mode.
pub fn tiles_preview(ppu: &PPU) -> (r: Option<Vec<u8>>)
    requires
        ppu@.wf(),
    ensures
        match video_mode_of(ppu@.regs.disp_cnt & 7) {
            None => r is None,
            Some(mode) => r matches Some(v) && v@ == frame_bytes(tile_sheet(ppu@, mode)),
        },
{
    let mode = match ppu.get_disp_cnt().get_bg_mode() {
        None => {
            return None;
        },
        Some(m) => m,
    };
    let objects_start: usize = match mode {
        EVideoMode::Mode0 | EVideoMode::Mode1 | EVideoMode::Mode2 => SPRITE_TILES_START_ADDRESS,
        _ => 0x14000,
    };
    let ghost sheet = tile_sheet(ppu@, mode);
    let mut out: Vec<u8> = Vec::new();
    let mut q: usize = 0;
    while q < VRAM_SIZE
        invariant
            ppu@.wf(),
            sheet == tile_sheet(ppu@, mode),
            objects_start == object_tiles_start(mode),
            q <= VRAM_SIZE,
            out@.len() == 3 * q,
            forall|n: int| 0 <= n < 3 * q ==> #[trigger] out@[n] == frame_bytes(sheet)[n],
        decreases VRAM_SIZE - q,
    {
        let x = q % 256;
        let y = q / 256;
        let i = ((y / 8) * 32 + x / 8) * 64 + (y % 8) * 8 + x % 8;
        proof {
            assert(i < VRAM_SIZE) by (nonlinear_arith)
                requires
                    x < 256,
                    y < 384,
                    i == ((y / 8) * 32 + x / 8) * 64 + (y % 8) * 8 + x % 8,
            ;
        }
        let offset: usize = if i >= objects_start { 256 } else { 0 };
        let c = ppu.get_palette_color(ppu.vram_byte(i) as usize + offset);
        proof {
            vstd::arithmetic::div_mod::lemma_fundamental_div_mod_converse(3 * q, 3, q as int, 0);
            vstd::arithmetic::div_mod::lemma_fundamental_div_mod_converse(3 * q + 1, 3, q as int, 1);
            vstd::arithmetic::div_mod::lemma_fundamental_div_mod_converse(3 * q + 2, 3, q as int, 2);
        }
        out.push(c.red);
        out.push(c.green);
        out.push(c.blue);
        q = q + 1;
    }
    proof {
        assert(out@ =~= frame_bytes(sheet));
    }
    Some(out)
}

} // verus!

verus! {

/// The picture of object `e`: its tiles as laid out in video RAM from
/// `start`, each pixel in its palette color (color 0 included).
pub open spec fn sprite_image(p: PpuView, e: SpriteEntry, one_d: bool, start: int) -> Seq<Color> {
    let (w, h) = sprite_size(e);
    Seq::new(
        (w * h) as nat,
        |q: int|
            {
                let x = q % w;
                let y = q / w;
                let color256 = sprite_bit(e, 13);
                let tile_length = if color256 { 64int } else { 32int };
                let row = if one_d { w / 8 } else if color256 { 16int } else { 32int };
                let tile_address = start + ((e.0 >> 32) & 0x3ff) * 32 + (x / 8 + (y / 8) * row)
                    * tile_length;
                let tp = x % 8 + (y % 8) * 8;
                if color256 {
                    p.palette[SPRITE_PALETTE_START_INDEX + p.read_8((0x0600_0000 + tile_address + tp) as u32)]
                } else {
                    let b = p.read_8((0x0600_0000 + tile_address + tp / 2) as u32);
                    let nibble = if tp % 2 == 0 { b & 0xf } else { b >> 4 };
                    p.palette[SPRITE_PALETTE_START_INDEX + ((e.0 >> 44) & 0xf) * 16 + nibble]
                }
            },
    )
}

/// An object of an allowed shape is 8 to 64 pixels wide and high.
proof fn lemma_sprite_size_bounds(e: SpriteEntry)
    requires
        e.shape() != 3,
    ensures
        8 <= sprite_size(e).0 <= 64,
        8 <= sprite_size(e).1 <= 64,
{
    crate::bits::lemma_and_le_u64(e.0 >> 14, 3);
    crate::bits::lemma_and_le_u64(e.0 >> 30, 3);
}

/// The color of pixel (`x`, `y`) of an object's picture; see `sprite_image`.
fn sprite_image_pixel(
    ppu: &PPU,
    e: SpriteEntry,
    one_d: bool,
    start: usize,
    width: usize,
    x: usize,
    y: usize,
) -> (r: Color)
    requires
        ppu@.wf(),
        e.shape() != 3,
        width == sprite_size(e).0,
        x < width,
        y < sprite_size(e).1,
        start <= 0x14000,
    ensures
        r == ({
            let color256 = sprite_bit(e, 13);
            let tile_length = if color256 { 64int } else { 32int };
            let row = if one_d { (width / 8) as int } else if color256 { 16int } else { 32int };
            let tile_address = start + ((e.0 >> 32) & 0x3ff) * 32 + (x / 8 + (y / 8) * row) * tile_length;
            let tp = x % 8 + (y % 8) * 8;
            if color256 {
                ppu@.palette[SPRITE_PALETTE_START_INDEX + ppu@.read_8((0x0600_0000 + tile_address + tp) as u32)]
            } else {
                let b = ppu@.read_8((0x0600_0000 + tile_address + tp / 2) as u32);
                let nibble = if tp % 2 == 0 { b & 0xf } else { b >> 4 };
                ppu@.palette[SPRITE_PALETTE_START_INDEX + ((e.0 >> 44) & 0xf) * 16 + nibble]
            }
        }),
{
    proof {
        lemma_sprite_size_bounds(e);
    }
    let color256 = e.get_is_256_palette();
    let tile_length: usize = if color256 { 64 } else { 32 };
    let row: usize = if one_d { width / 8 } else if color256 { 16 } else { 32 };
    proof {
        crate::bits::lemma_and_le_u64(e.0 >> 32, 0x3ff);
        crate::bits::lemma_and_le_u64(e.0 >> 44, 0xf);
        assert((y / 8) * row <= 7 * 32) by (nonlinear_arith)
            requires
                y < 64,
                row <= 32,
        ;
    }
    let tile_address = start + e.get_tile_index() * 32 + (x / 8 + (y / 8) * row) * tile_length;
    let tp = x % 8 + (y % 8) * 8;
    if color256 {
        let entry = ppu.read_8((0x0600_0000 + tile_address + tp) as u32);
        ppu.get_palette_color(SPRITE_PALETTE_START_INDEX + entry as usize)
    } else {
        let b = ppu.read_8((0x0600_0000 + tile_address + tp / 2) as u32);
        let nibble = if tp % 2 == 0 { b & 0xf } else { b >> 4 };
        proof {
            crate::bits::lemma_top_bits(0, 0, b);
        }
        ppu.get_palette_color(SPRITE_PALETTE_START_INDEX + e.get_palette_number() as usize * 16 + nibble as usize)
    }
}

/// The picture of object `e` (width times height pixels as red, green and
/// blue bytes), for the current video mode and tile mapping; `None` when the
/// display control holds no valid video mode or the object has the
/// prohibited shape.
pub fn sprite_preview(ppu: &PPU, e: SpriteEntry) -> (r: Option<Vec<u8>>)
    requires
        ppu@.wf(),
    ensures
        match video_mode_of(ppu@.regs.disp_cnt & 7) {
            None => r is None,
            Some(mode) => if e.shape() == 3 {
                r is None
            } else {
                r matches Some(v) && v@ == frame_bytes(
                    sprite_image(ppu@, e, bit16(ppu@.regs.disp_cnt, 6), object_tiles_start(mode)),
                )
            },
        },
{
    let dc = ppu.get_disp_cnt();
    let mode = match dc.get_bg_mode() {
        None => {
            return None;
        },
        Some(m) => m,
    };
    proof {
        crate::bits::lemma_and_le_u64(e.0 >> 14, 3);
    }
    if (e.0 >> 14) & 3 == 3 {
        return None;
    }
    let start: usize = match mode {
        EVideoMode::Mode0 | EVideoMode::Mode1 | EVideoMode::Mode2 => SPRITE_TILES_START_ADDRESS,
        _ => 0x14000,
    };
    let one_d = dc.get_sprite_1d_mapping();
    let (width, height) = e.get_size();
    proof {
        lemma_sprite_size_bounds(e);
        assert(width * height <= 64 * 64) by (nonlinear_arith)
            requires
                width <= 64,
                height <= 64,
        ;
    }
    let ghost image = sprite_image(ppu@, e, one_d, start as int);
    let total = width * height;
    let mut out: Vec<u8> = Vec::new();
    let mut q: usize = 0;
    while q < total
        invariant
            ppu@.wf(),
            e.shape() != 3,
            (width as int, height as int) == sprite_size(e),
            width > 0,
            total == width * height,
            start <= 0x14000,
            image == sprite_image(ppu@, e, one_d, start as int),
            image.len() == total,
            q <= total,
            out@.len() == 3 * q,
            forall|n: int| 0 <= n < 3 * q ==> #[trigger] out@[n] == frame_bytes(image)[n],
        decreases total - q,
    {
        let x = q % width;
        let y = q / width;
        proof {
            assert(y < height) by (nonlinear_arith)
                requires
                    q < width * height,
                    y == q / width,
                    width > 0,
            ;
        }
        let c = sprite_image_pixel(ppu, e, one_d, start, width, x, y);
        proof {
            vstd::arithmetic::div_mod::lemma_fundamental_div_mod_converse(3 * q, 3, q as int, 0);
            vstd::arithmetic::div_mod::lemma_fundamental_div_mod_converse(3 * q + 1, 3, q as int, 1);
            vstd::arithmetic::div_mod::lemma_fundamental_div_mod_converse(3 * q + 2, 3, q as int, 2);
        }
        out.push(c.red);
        out.push(c.green);
        out.push(c.blue);
        q = q + 1;
    }
    proof {
        assert(out@ =~= frame_bytes(image));
    }
    Some(out)
}

} // verus!
