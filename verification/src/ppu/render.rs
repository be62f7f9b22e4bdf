//! Composing a frame: the backdrop, the tiled, affine and bitmap
//! backgrounds of the current video mode, then the objects.
use vstd::prelude::*;

use crate::arm7tdmi::sign_extended;
use crate::bits::bit16;
use crate::ppu::{
    le16, le16_of, le64, sprite_dimensions, video_mode_of, Color, EVideoMode, PpuView, SpriteEntry,
    PPU, SCREEN_TOTAL_PIXELS, SPRITE_PALETTE_START_INDEX, SPRITE_TILES_START_ADDRESS, VRAM_SIZE,
};

verus! {

pub const SCREEN_WIDTH: usize = 240;

pub const SCREEN_HEIGHT: usize = 160;

/// The color every pixel shows while the display is force-blanked.
pub open spec fn white() -> Color {
    Color { red: 255, green: 255, blue: 255 }
}

/// A screen filled with the backdrop color (palette entry 0).
pub open spec fn backdrop(p: PpuView) -> Seq<Color> {
    Seq::new(SCREEN_TOTAL_PIXELS as nat, |k: int| p.palette[0])
}

/// Control register of background `i`.
pub open spec fn bg_cnt_of(p: PpuView, i: int) -> u16 {
    if i == 0 {
        p.regs.bg0_cnt
    } else if i == 1 {
        p.regs.bg1_cnt
    } else if i == 2 {
        p.regs.bg2_cnt
    } else {
        p.regs.bg3_cnt
    }
}

/// Horizontal scroll of background `i` (nine bits).
pub open spec fn bg_hofs_of(p: PpuView, i: int) -> int {
    ((if i == 0 {
        p.regs.bg0_hofs
    } else if i == 1 {
        p.regs.bg1_hofs
    } else if i == 2 {
        p.regs.bg2_hofs
    } else {
        p.regs.bg3_hofs
    }) & 0x1ff) as int
}

/// Vertical scroll of background `i` (nine bits).
pub open spec fn bg_vofs_of(p: PpuView, i: int) -> int {
    ((if i == 0 {
        p.regs.bg0_vofs
    } else if i == 1 {
        p.regs.bg1_vofs
    } else if i == 2 {
        p.regs.bg2_vofs
    } else {
        p.regs.bg3_vofs
    }) & 0x1ff) as int
}

/// Whether the display control enables background `i`.
pub open spec fn bg_displayed(p: PpuView, i: int) -> bool {
    bit16(p.regs.disp_cnt, (8 + i) as u16)
}

/// Start of a background's tile data in video RAM.
pub open spec fn tile_base(cnt: u16) -> int {
    ((cnt >> 2) & 3) * 0x4000
}

/// Start of a background's map in video RAM.
pub open spec fn map_base(cnt: u16) -> int {
    ((cnt >> 8) & 0x1f) * 0x800
}

/// Width in tiles of an affine background of size field `size`.
pub open spec fn affine_tiles(size: int) -> int {
    if size == 0 {
        16
    } else if size == 1 {
        32
    } else if size == 2 {
        64
    } else {
        128
    }
}

/// The transform of affine background `i` (2 or 3): the matrix entries and
/// the reference point, in 1/256 units.
pub open spec fn affine_params(p: PpuView, i: int) -> (int, int, int, int, int, int) {
    if i == 2 {
        (
            sign_extended(p.regs.bg2_pa as u32, 16),
            sign_extended(p.regs.bg2_pb as u32, 16),
            sign_extended(p.regs.bg2_pc as u32, 16),
            sign_extended(p.regs.bg2_pd as u32, 16),
            sign_extended(p.regs.bg2_x & 0xfff_ffff, 28),
            sign_extended(p.regs.bg2_y & 0xfff_ffff, 28),
        )
    } else {
        (
            sign_extended(p.regs.bg3_pa as u32, 16),
            sign_extended(p.regs.bg3_pb as u32, 16),
            sign_extended(p.regs.bg3_pc as u32, 16),
            sign_extended(p.regs.bg3_pd as u32, 16),
            sign_extended(p.regs.bg3_x & 0xfff_ffff, 28),
            sign_extended(p.regs.bg3_y & 0xfff_ffff, 28),
        )
    }
}

/// What affine background `i` shows at screen pixel (`sx`, `sy`): the
/// transformed point, wrapped around or clipped, selects a 256-color tile
/// from the map; color 0 is transparent.
pub open spec fn affine_pixel(p: PpuView, i: int, sx: int, sy: int) -> Option<Color> {
    let cnt = bg_cnt_of(p, i);
    let bg_tiles = affine_tiles((cnt >> 14) as int);
    let bg_size = bg_tiles * 8;
    let (pa, pb, pc, pd, x0, y0) = affine_params(p, i);
    let px = (x0 + pa * sx + pb * sy) / 256;
    let py = (y0 + pc * sx + pd * sy) / 256;
    if !bit16(cnt, 13) && (px < 0 || px >= bg_size || py < 0 || py >= bg_size) {
        None
    } else {
        let ux = ((px as u32) % (bg_size as u32)) as int;
        let uy = ((py as u32) % (bg_size as u32)) as int;
        let tile = ux / 8 + (uy / 8) * bg_tiles;
        let tile_number = p.vram[map_base(cnt) + tile] as int;
        let entry = p.vram[tile_base(cnt) + tile_number * 64 + ux % 8 + (uy % 8) * 8];
        if entry != 0 {
            Some(p.palette[entry as int])
        } else {
            None
        }
    }
}

/// The point of text background `i` (wrapped to the background's size)
/// that screen pixel (`sx`, `sy`) shows.
pub open spec fn text_point(p: PpuView, i: int, sx: int, sy: int) -> (int, int) {
    let size = (bg_cnt_of(p, i) >> 14) as int;
    let width = if size == 1 || size == 3 { 512int } else { 256int };
    let height = if size >= 2 { 512int } else { 256int };
    ((bg_hofs_of(p, i) + sx) % width, (bg_vofs_of(p, i) + sy) % height)
}

/// The map entry (counted in half-words) of the tile holding point
/// (`px`, `py`): 32x32-tile screen blocks, laid out left to right, then
/// top to bottom.
pub open spec fn map_tile_index(px: int, py: int) -> int {
    let tx = px / 8;
    let ty = py / 8;
    tx % 32 + (ty % 32) * 32 + (tx / 32 + ty / 32 * 2) * 0x400
}

/// For text background `i` at screen pixel (`sx`, `sy`): the video RAM
/// index of its map entry and the pixel's index within its tile.
pub open spec fn text_geometry(p: PpuView, i: int, sx: int, sy: int) -> (int, int) {
    let (px, py) = text_point(p, i, sx, sy);
    (map_base(bg_cnt_of(p, i)) + map_tile_index(px, py) * 2, px % 8 + (py % 8) * 8)
}

/// The map entry of text background `i` that covers screen pixel (`sx`, `sy`).
pub open spec fn text_map_entry(p: PpuView, i: int, sx: int, sy: int) -> u16 {
    let (a, _) = text_geometry(p, i, sx, sy);
    le16(p.vram[a], p.vram[a + 1])
}

/// The video RAM index of the byte holding the color of text background
/// `i` at screen pixel (`sx`, `sy`).
pub open spec fn text_address(p: PpuView, i: int, sx: int, sy: int) -> int {
    let cnt = bg_cnt_of(p, i);
    let (_, tp) = text_geometry(p, i, sx, sy);
    let tile_number = (text_map_entry(p, i, sx, sy) & 0x3ff) as int;
    if bit16(cnt, 7) {
        tile_base(cnt) + tile_number * 64 + tp
    } else {
        tile_base(cnt) + tile_number * 32 + tp / 2
    }
}

/// What text background `i` shows at screen pixel (`sx`, `sy`). A zero byte
/// is transparent; in 16-color mode the even pixel takes the low nibble and
/// the odd pixel the high one, from the palette the map entry names.
pub open spec fn text_pixel(p: PpuView, i: int, sx: int, sy: int) -> Option<Color> {
    let cnt = bg_cnt_of(p, i);
    let (_, tp) = text_geometry(p, i, sx, sy);
    let entry = p.vram[text_address(p, i, sx, sy)];
    if entry == 0 {
        None
    } else if bit16(cnt, 7) {
        Some(p.palette[entry as int])
    } else {
        let nibble = if tp % 2 == 0 { entry & 0xf } else { entry >> 4 };
        Some(p.palette[(text_map_entry(p, i, sx, sy) >> 12) * 16 + nibble])
    }
}

/// Whether background `i` is an affine one in video mode `mode`.
pub open spec fn is_affine_layer(mode: EVideoMode, i: int) -> bool {
    (i >= 2 && mode == EVideoMode::Mode1) || mode == EVideoMode::Mode2
}

/// What background `i` shows at screen pixel (`sx`, `sy`) in `mode`.
pub open spec fn layer_pixel(p: PpuView, mode: EVideoMode, i: int, sx: int, sy: int) -> Option<Color> {
    if is_affine_layer(mode, i) {
        affine_pixel(p, i, sx, sy)
    } else {
        text_pixel(p, i, sx, sy)
    }
}

/// `prev` with background `i` drawn over it.
pub open spec fn overlay_bg(prev: Seq<Color>, p: PpuView, mode: EVideoMode, i: int) -> Seq<Color> {
    Seq::new(
        prev.len(),
        |k: int|
            match layer_pixel(p, mode, i, k % 240, k / 240) {
                Some(c) => c,
                None => prev[k],
            },
    )
}

/// The backgrounds `lo .. hi` of a tiled mode drawn over the backdrop in
/// increasing order, each only if it is enabled.
pub open spec fn bg_layers(p: PpuView, mode: EVideoMode, lo: int, hi: int) -> Seq<Color>
    decreases hi - lo,
{
    if hi <= lo {
        backdrop(p)
    } else {
        let prev = bg_layers(p, mode, lo, hi - 1);
        if bg_displayed(p, hi - 1) {
            overlay_bg(prev, p, mode, hi - 1)
        } else {
            prev
        }
    }
}

/// The backgrounds a tiled mode can show: 0 to 3 in mode 0, 0 to 2 in mode
/// 1, 2 and 3 in mode 2.
pub open spec fn tiled_range(mode: EVideoMode) -> (int, int) {
    if mode == EVideoMode::Mode2 {
        (2, 4)
    } else if mode == EVideoMode::Mode1 {
        (0, 3)
    } else {
        (0, 4)
    }
}

/// Mode 4: each pixel a palette index from the frame buffer that the
/// display control selects.
pub open spec fn bitmap_frame(p: PpuView) -> Seq<Color> {
    let start = if bit16(p.regs.disp_cnt, 4) { 0xA000int } else { 0int };
    Seq::new(SCREEN_TOTAL_PIXELS as nat, |k: int| p.palette[p.vram[start + k] as int])
}

/// The backgrounds of `mode` over the backdrop. Modes 3 and 5 draw none.
pub open spec fn background_frame(p: PpuView, mode: EVideoMode) -> Seq<Color> {
    if mode == EVideoMode::Mode0 || mode == EVideoMode::Mode1 || mode == EVideoMode::Mode2 {
        bg_layers(p, mode, tiled_range(mode).0, tiled_range(mode).1)
    } else if mode == EVideoMode::Mode4 {
        bitmap_frame(p)
    } else {
        backdrop(p)
    }
}

} // verus!

verus! {

/// Screen pixel `k` is at column `k % 240`, row `k / 240`.
proof fn lemma_pixel_coords(k: int, sx: int, sy: int)
    requires
        0 <= sx < 240,
        k == sx + 240 * sy,
    ensures
        k % 240 == sx,
        k / 240 == sy,
{
    vstd::arithmetic::div_mod::lemma_fundamental_div_mod_converse(k, 240, sy, sx);
}

/// A `bits`-bit two's complement value lies in its signed range.
proof fn lemma_sign_extended_bounds(x: u32, bits: u8)
    requires
        1 <= bits <= 31,
        (x as int) < vstd::arithmetic::power2::pow2(bits as nat),
    ensures
        -vstd::arithmetic::power2::pow2((bits - 1) as nat) <= sign_extended(x, bits)
            < vstd::arithmetic::power2::pow2((bits - 1) as nat),
{
    vstd::arithmetic::power2::lemma_pow2_unfold(bits as nat);
}

/// `v` divided by 256, rounded down (an arithmetic shift right by 8).
fn floor_div_256(v: i32) -> (r: i32)
    ensures
        r as int == v as int / 256,
{
    if v >= 0 {
        ((v as u32) / 256) as i32
    } else {
        let w = (-(v + 1)) as u32;
        let q = w / 256;
        proof {
            vstd::arithmetic::div_mod::lemma_fundamental_div_mod(w as int, 256);
            vstd::arithmetic::div_mod::lemma_fundamental_div_mod_converse(
                v as int,
                256,
                -(q as int) - 1,
                255 - (w as int % 256),
            );
        }
        -(q as i32) - 1
    }
}

/// The map index of the tile holding point (`ux`, `uy`) of an affine
/// background `bg_tiles` tiles wide.
fn affine_tile(ux: u32, uy: u32, bg_tiles: u32) -> (r: usize)
    requires
        bg_tiles == 16 || bg_tiles == 32 || bg_tiles == 64 || bg_tiles == 128,
        ux < bg_tiles * 8,
        uy < bg_tiles * 8,
    ensures
        r == ux / 8 + (uy / 8) * bg_tiles,
        r < 16384,
{
    proof {
        assert((uy / 8) * bg_tiles <= (bg_tiles - 1) * bg_tiles) by (nonlinear_arith)
            requires
                uy / 8 < bg_tiles,
                bg_tiles > 0,
        ;
        assert((bg_tiles - 1) * bg_tiles + bg_tiles <= 16384) by (nonlinear_arith)
            requires
                0 < bg_tiles <= 128,
        ;
    }
    (ux / 8 + (uy / 8) * bg_tiles) as usize
}

/// What affine background `i` shows at (`sx`, `sy`); see `affine_pixel`.
fn affine_pixel_at(ppu: &PPU, i: usize, sx: i32, sy: i32) -> (r: Option<Color>)
    requires
        ppu@.wf(),
        2 <= i < 4,
        0 <= sx < 240,
        0 <= sy < 160,
    ensures
        r == affine_pixel(ppu@, i as int, sx as int, sy as int),
{
    let cnt = ppu.get_bg_cnt(i);
    let size = cnt.get_size();
    proof {
        crate::bits::lemma_top_bits(0, cnt.0, 0);
    }
    let bg_tiles: i32 = if size == 0 {
        16
    } else if size == 1 {
        32
    } else if size == 2 {
        64
    } else {
        128
    };
    let bg_size = bg_tiles * 8;
    let m = ppu.get_bg_affine_matrix(i - 2);
    let pa = m.get_pa().get_value();
    let pb = m.get_pb().get_value();
    let pc = m.get_pc().get_value();
    let pd = m.get_pd().get_value();
    let x0 = m.get_x().get_value();
    let y0 = m.get_y().get_value();
    proof {
        vstd::arithmetic::power2::lemma2_to64();
        lemma_sign_extended_bounds(m.pa.0 as u32, 16);
        lemma_sign_extended_bounds(m.pb.0 as u32, 16);
        lemma_sign_extended_bounds(m.pc.0 as u32, 16);
        lemma_sign_extended_bounds(m.pd.0 as u32, 16);
        let xx = m.x.0;
        let yy = m.y.0;
        crate::bits::lemma_and_le_u32(xx, 0xfff_ffff);
        crate::bits::lemma_and_le_u32(yy, 0xfff_ffff);
        lemma_sign_extended_bounds(xx & 0xfff_ffff, 28);
        lemma_sign_extended_bounds(yy & 0xfff_ffff, 28);
        assert(-32768 * 240 <= pa * sx <= 32768 * 240) by (nonlinear_arith)
            requires
                -32768 <= pa <= 32768,
                0 <= sx < 240,
        ;
        assert(-32768 * 240 <= pc * sx <= 32768 * 240) by (nonlinear_arith)
            requires
                -32768 <= pc <= 32768,
                0 <= sx < 240,
        ;
        assert(-32768 * 160 <= pb * sy <= 32768 * 160) by (nonlinear_arith)
            requires
                -32768 <= pb <= 32768,
                0 <= sy < 160,
        ;
        assert(-32768 * 160 <= pd * sy <= 32768 * 160) by (nonlinear_arith)
            requires
                -32768 <= pd <= 32768,
                0 <= sy < 160,
        ;
    }
    let px = floor_div_256(x0 + pa * sx + pb * sy);
    let py = floor_div_256(y0 + pc * sx + pd * sy);
    if !cnt.get_overflow_wraparound() && (px < 0 || px >= bg_size || py < 0 || py >= bg_size) {
        return None;
    }
    let ux = (px as u32) % (bg_size as u32);
    let uy = (py as u32) % (bg_size as u32);
    let tile = affine_tile(ux, uy, bg_tiles as u32);
    proof {
        let c = cnt.0;
        crate::bits::lemma_and_le_u16(c >> 8, 0x1f);
        crate::bits::lemma_and_le_u16(c >> 2, 3);
    }
    let tile_number = ppu.vram_byte(cnt.get_map_data_address() + tile) as usize;
    let tile_pixel = ((ux % 8) + (uy % 8) * 8) as usize;
    let entry = ppu.vram_byte(cnt.get_tile_data_address() + tile_number * 64 + tile_pixel);
    if entry != 0 {
        Some(ppu.get_palette_color(entry as usize))
    } else {
        None
    }
}

} // verus!

verus! {

fn text_position(ppu: &PPU, i: usize, sx: u32, sy: u32) -> (r: (u32, u32))
    requires
        i < 4,
        sx < 240,
        sy < 160,
    ensures
        (r.0 as int, r.1 as int) == text_point(ppu@, i as int, sx as int, sy as int),
        r.0 < 512,
        r.1 < 512,
{
    let cnt = ppu.get_bg_cnt(i);
    let size = cnt.get_size();
    proof {
        crate::bits::lemma_top_bits(0, cnt.0, 0);
    }
    let width: u32 = if size == 1 || size == 3 { 512 } else { 256 };
    let height: u32 = if size >= 2 { 512 } else { 256 };
    let hofs = ppu.get_bg_hofs(i);
    let vofs = ppu.get_bg_vofs(i);
    proof {
        let p = ppu@;
        let h = if i == 0 {
            p.regs.bg0_hofs
        } else if i == 1 {
            p.regs.bg1_hofs
        } else if i == 2 {
            p.regs.bg2_hofs
        } else {
            p.regs.bg3_hofs
        };
        let v = if i == 0 {
            p.regs.bg0_vofs
        } else if i == 1 {
            p.regs.bg1_vofs
        } else if i == 2 {
            p.regs.bg2_vofs
        } else {
            p.regs.bg3_vofs
        };
        crate::bits::lemma_and_le_u16(h, 0x01ff);
        crate::bits::lemma_and_le_u16(v, 0x01ff);
    }
    ((hofs as u32 + sx) % width, (vofs as u32 + sy) % height)
}

fn tile_index(px: u32, py: u32) -> (r: u32)
    requires
        px < 512,
        py < 512,
    ensures
        r == map_tile_index(px as int, py as int),
        r < 4096,
{
    let tx = px / 8;
    let ty = py / 8;
    tx % 32 + (ty % 32) * 32 + (tx / 32 + ty / 32 * 2) * 0x400
}

/// The map entry, the pixel's index in its tile, and the address of its
/// color byte, for text background `i` at (`sx`, `sy`).
fn text_lookup(ppu: &PPU, i: usize, sx: u32, sy: u32) -> (r: (u16, u32, usize))
    requires
        ppu@.wf(),
        i < 4,
        sx < 240,
        sy < 160,
    ensures
        r.0 == text_map_entry(ppu@, i as int, sx as int, sy as int),
        r.1 == text_geometry(ppu@, i as int, sx as int, sy as int).1,
        r.1 < 64,
        r.2 == text_address(ppu@, i as int, sx as int, sy as int),
{
    let cnt = ppu.get_bg_cnt(i);
    proof {
        let c = cnt.0;
        crate::bits::lemma_and_le_u16(c >> 8, 0x1f);
        crate::bits::lemma_and_le_u16(c >> 2, 3);
    }
    let (px, py) = text_position(ppu, i, sx, sy);
    let tile = tile_index(px, py);
    let a = cnt.get_map_data_address() + (tile as usize) * 2;
    let e = le16_of(ppu.vram_byte(a), ppu.vram_byte(a + 1));
    let tp = px % 8 + (py % 8) * 8;
    let tile_number = (e & 0x3ff) as usize;
    proof {
        crate::bits::lemma_and_le_u16(e, 0x3ff);
    }
    let address = if cnt.get_is_256_palette() {
        cnt.get_tile_data_address() + tile_number * 64 + tp as usize
    } else {
        cnt.get_tile_data_address() + tile_number * 32 + (tp / 2) as usize
    };
    (e, tp, address)
}

/// What text background `i` shows at (`sx`, `sy`), or `None` when its
/// color byte lies past the end of video RAM.
fn text_pixel_at(ppu: &PPU, i: usize, sx: u32, sy: u32) -> (r: Option<Option<Color>>)
    requires
        ppu@.wf(),
        i < 4,
        sx < 240,
        sy < 160,
    ensures
        r is None <==> text_address(ppu@, i as int, sx as int, sy as int) >= VRAM_SIZE,
        r matches Some(c) ==> c == text_pixel(ppu@, i as int, sx as int, sy as int),
{
    let (e, tp, address) = text_lookup(ppu, i, sx, sy);
    if address >= VRAM_SIZE {
        return None;
    }
    let entry = ppu.vram_byte(address);
    if entry == 0 {
        Some(None)
    } else if ppu.get_bg_cnt(i).get_is_256_palette() {
        Some(Some(ppu.get_palette_color(entry as usize)))
    } else {
        let nibble = if tp % 2 == 0 { entry & 0xf } else { entry >> 4 };
        proof {
            crate::bits::lemma_top_bits(0, 0, entry);
            crate::bits::lemma_top_bits(0, e, 0);
        }
        Some(Some(ppu.get_palette_color((e >> 12) as usize * 16 + nibble as usize)))
    }
}

/// Whether a background can be drawn without reading past video RAM
/// (affine backgrounds always can).
pub open spec fn bg_ok(p: PpuView, mode: EVideoMode, i: int) -> bool {
    is_affine_layer(mode, i) || forall|sx: int, sy: int|
        0 <= sx < 240 && 0 <= sy < 160 ==> #[trigger] text_address(p, i, sx, sy) < VRAM_SIZE
}

fn affine_layer(mode: EVideoMode, i: usize) -> (r: bool)
    ensures
        r == is_affine_layer(mode, i as int),
{
    match mode {
        EVideoMode::Mode1 => i >= 2,
        EVideoMode::Mode2 => true,
        _ => false,
    }
}

/// Draws background `i` of `mode` over `pixels`; `false` when it would read
/// past video RAM.
fn draw_background(ppu: &PPU, pixels: &mut Vec<Color>, mode: EVideoMode, i: usize) -> (ok: bool)
    requires
        ppu@.wf(),
        old(pixels)@.len() == SCREEN_TOTAL_PIXELS,
        i < 4,
        is_affine_layer(mode, i as int) ==> 2 <= i,
    ensures
        ok == bg_ok(ppu@, mode, i as int),
        final(pixels)@.len() == SCREEN_TOTAL_PIXELS,
        ok ==> final(pixels)@ == overlay_bg(old(pixels)@, ppu@, mode, i as int),
{
    let ghost prev = pixels@;
    let ghost p = ppu@;
    let affine = affine_layer(mode, i);
    let mut k: usize = 0;
    let mut sx: u32 = 0;
    let mut sy: u32 = 0;
    while k < SCREEN_TOTAL_PIXELS
        invariant
            ppu@ == p,
            p.wf(),
            i < 4,
            affine == is_affine_layer(mode, i as int),
            affine ==> 2 <= i,
            k <= SCREEN_TOTAL_PIXELS,
            sx < 240,
            k == sx + 240 * sy,
            prev.len() == SCREEN_TOTAL_PIXELS,
            pixels@.len() == SCREEN_TOTAL_PIXELS,
            forall|m: int|
                0 <= m < SCREEN_TOTAL_PIXELS ==> #[trigger] pixels@[m] == (if m < k {
                    overlay_bg(prev, p, mode, i as int)[m]
                } else {
                    prev[m]
                }),
            !affine ==> forall|m: int|
                0 <= m < k ==> #[trigger] text_address(p, i as int, m % 240, m / 240) < VRAM_SIZE,
        decreases SCREEN_TOTAL_PIXELS - k,
    {
        proof {
            lemma_pixel_coords(k as int, sx as int, sy as int);
        }
        let value = if affine {
            affine_pixel_at(ppu, i, sx as i32, sy as i32)
        } else {
            match text_pixel_at(ppu, i, sx, sy) {
                None => {
                    return false;
                },
                Some(v) => v,
            }
        };
        if let Some(c) = value {
            pixels.set(k, c);
        }
        k = k + 1;
        sx = sx + 1;
        if sx == 240 {
            sx = 0;
            sy = sy + 1;
        }
    }
    proof {
        assert(pixels@ =~= overlay_bg(prev, p, mode, i as int));
        if !affine {
            assert forall|x: int, y: int| 0 <= x < 240 && 0 <= y < 160 implies #[trigger] text_address(
                p,
                i as int,
                x,
                y,
            ) < VRAM_SIZE by {
                lemma_pixel_coords(x + 240 * y, x, y);
                assert(text_address(p, i as int, (x + 240 * y) % 240, (x + 240 * y) / 240) < VRAM_SIZE);
            }
        }
    }
    true
}

} // verus!

verus! {

/// Object `j` of object attribute memory.
pub open spec fn sprite_entry(p: PpuView, j: int) -> SpriteEntry {
    SpriteEntry(le64(p.oam, 8 * j))
}

/// Bit `b` of an object's attributes.
pub open spec fn sprite_bit(e: SpriteEntry, b: u64) -> bool {
    (e.0 >> b) & 1 == 1
}

/// An object is drawn when it is affine or its disable bit is clear.
pub open spec fn sprite_shown(e: SpriteEntry) -> bool {
    sprite_bit(e, 8) || !sprite_bit(e, 9)
}

/// Horizontal position (nine bits, signed).
pub open spec fn sprite_x(e: SpriteEntry) -> int {
    sign_extended(((e.0 >> 16) & 0x1ff) as u32, 9)
}

/// Vertical position: 0..=159, or 160..=255 read as -96..=-1.
pub open spec fn sprite_y(e: SpriteEntry) -> int {
    if (e.0 & 0xff) >= 160 {
        (e.0 & 0xff) - 256
    } else {
        (e.0 & 0xff) as int
    }
}

/// Width and height in pixels.
pub open spec fn sprite_size(e: SpriteEntry) -> (int, int) {
    let d = sprite_dimensions(e.shape(), e.size()).unwrap();
    (d.0 as int, d.1 as int)
}

/// Half the width and height of the box the object is drawn in (the whole
/// size when the double-size bit is set).
pub open spec fn sprite_half(e: SpriteEntry) -> (int, int) {
    let (w, h) = sprite_size(e);
    if sprite_bit(e, 9) {
        (w, h)
    } else {
        (w / 2, h / 2)
    }
}

/// Entry `n` (pa, pb, pc, pd) of the object's affine matrix, kept in the top
/// half-words of four consecutive attribute entries.
pub open spec fn sprite_affine_param(p: PpuView, e: SpriteEntry, n: int) -> int {
    sign_extended(((le64(p.oam, 8 * (((e.0 >> 25) & 0x1f) * 4 + n)) >> 48) as u16) as u32, 16)
}

/// The position of screen pixel (`sx`, `sy`) relative to the centre of the
/// object's box.
pub open spec fn sprite_offset(e: SpriteEntry, sx: int, sy: int) -> (int, int) {
    let (hw, hh) = sprite_half(e);
    (sx - sprite_x(e) - hw, sy - sprite_y(e) - hh)
}

/// The texel shown at offset (`x`, `y`): through the affine matrix for an
/// affine object, directly otherwise.
pub open spec fn sprite_texel(p: PpuView, e: SpriteEntry, x: int, y: int) -> (int, int) {
    let (w, h) = sprite_size(e);
    if sprite_bit(e, 8) {
        (
            w / 2 + (sprite_affine_param(p, e, 0) * x + sprite_affine_param(p, e, 1) * y) / 256,
            h / 2 + (sprite_affine_param(p, e, 2) * x + sprite_affine_param(p, e, 3) * y) / 256,
        )
    } else {
        (w / 2 + x, h / 2 + y)
    }
}

/// Whether the object's box covers screen pixel (`sx`, `sy`) with a texel
/// that lies inside the object.
pub open spec fn sprite_covers(p: PpuView, e: SpriteEntry, sx: int, sy: int) -> bool {
    let (w, h) = sprite_size(e);
    let (hw, hh) = sprite_half(e);
    let (x, y) = sprite_offset(e, sx, sy);
    let (px, py) = sprite_texel(p, e, x, y);
    -hw <= x < hw && -hh <= y < hh && 0 <= px < w && 0 <= py < h
}

/// The video RAM index of the byte holding the color of the object's texel
/// at screen pixel (`sx`, `sy`). Tiles follow one another along a row of the
/// object (one-dimensional mapping) or along a 32-tile-wide sheet.
pub open spec fn sprite_address(p: PpuView, e: SpriteEntry, one_d: bool, sx: int, sy: int) -> int {
    let (w, h) = sprite_size(e);
    let (x, y) = sprite_offset(e, sx, sy);
    let (px, py) = sprite_texel(p, e, x, y);
    let color256 = sprite_bit(e, 13);
    let tile_length = if color256 { 64int } else { 32int };
    let row = if one_d { w / 8 } else if color256 { 16int } else { 32int };
    let tile_address = SPRITE_TILES_START_ADDRESS + ((e.0 >> 32) & 0x3ff) * 32 + (px / 8 + (py / 8)
        * row) * tile_length;
    let tp = px % 8 + (py % 8) * 8;
    if color256 {
        tile_address + tp
    } else {
        tile_address + tp / 2
    }
}

/// What the object shows at screen pixel (`sx`, `sy`), using the object
/// palettes; color 0 is transparent.
pub open spec fn sprite_pixel(p: PpuView, e: SpriteEntry, one_d: bool, sx: int, sy: int) -> Option<Color> {
    if !sprite_covers(p, e, sx, sy) {
        None
    } else {
        let entry = p.vram[sprite_address(p, e, one_d, sx, sy)];
        let (x, y) = sprite_offset(e, sx, sy);
        let (px, py) = sprite_texel(p, e, x, y);
        let tp = px % 8 + (py % 8) * 8;
        if entry == 0 {
            None
        } else if sprite_bit(e, 13) {
            Some(p.palette[SPRITE_PALETTE_START_INDEX + entry])
        } else {
            let nibble = if tp % 2 == 0 { entry & 0xf } else { entry >> 4 };
            Some(p.palette[SPRITE_PALETTE_START_INDEX + ((e.0 >> 44) & 0xf) * 16 + nibble])
        }
    }
}

/// `prev` with an object drawn over it (when it is shown).
pub open spec fn overlay_sprite(prev: Seq<Color>, p: PpuView, e: SpriteEntry, one_d: bool) -> Seq<Color> {
    if sprite_shown(e) {
        Seq::new(
            prev.len(),
            |k: int|
                match sprite_pixel(p, e, one_d, k % 240, k / 240) {
                    Some(c) => c,
                    None => prev[k],
                },
        )
    } else {
        prev
    }
}

/// Objects 127 down to `j` drawn over `base`, so that object 0 ends up in
/// front.
pub open spec fn sprite_layers(p: PpuView, base: Seq<Color>, j: int, one_d: bool) -> Seq<Color>
    decreases 128 - j,
{
    if j >= 128 {
        base
    } else {
        overlay_sprite(sprite_layers(p, base, j + 1, one_d), p, sprite_entry(p, j), one_d)
    }
}

/// Whether an object can be drawn: its shape is not the prohibited one and
/// none of its texels lies past video RAM.
pub open spec fn sprite_ok(p: PpuView, e: SpriteEntry, one_d: bool) -> bool {
    sprite_shown(e) ==> {
        &&& e.shape() != 3
        &&& forall|sx: int, sy: int|
            0 <= sx < 240 && 0 <= sy < 160 && sprite_covers(p, e, sx, sy) ==> #[trigger] sprite_address(
                p,
                e,
                one_d,
                sx,
                sy,
            ) < VRAM_SIZE
    }
}

} // verus!

verus! {

/// The affine matrix of object `e`: entries pa, pb, pc, pd.
fn sprite_matrix(ppu: &PPU, sprites: &Vec<SpriteEntry>, e: SpriteEntry) -> (r: (i32, i32, i32, i32))
    requires
        sprites@.len() == 128,
        forall|m: int| 0 <= m < 128 ==> (#[trigger] sprites@[m]).0 == le64(ppu@.oam, 8 * m),
    ensures
        r.0 == sprite_affine_param(ppu@, e, 0),
        r.1 == sprite_affine_param(ppu@, e, 1),
        r.2 == sprite_affine_param(ppu@, e, 2),
        r.3 == sprite_affine_param(ppu@, e, 3),
        -32768 <= r.0 <= 32768,
        -32768 <= r.1 <= 32768,
        -32768 <= r.2 <= 32768,
        -32768 <= r.3 <= 32768,
{
    proof {
        let v = e.0;
        crate::bits::lemma_and_le_u64(v >> 25, 0x1f);
    }
    let base = e.get_affine_matrix_index() * 4;
    let a = sprites[base].get_affine_data();
    let b = sprites[base + 1].get_affine_data();
    let c = sprites[base + 2].get_affine_data();
    let d = sprites[base + 3].get_affine_data();
    proof {
        vstd::arithmetic::power2::lemma2_to64();
        lemma_sign_extended_bounds(a.0 as u32, 16);
        lemma_sign_extended_bounds(b.0 as u32, 16);
        lemma_sign_extended_bounds(c.0 as u32, 16);
        lemma_sign_extended_bounds(d.0 as u32, 16);
    }
    (a.get_value(), b.get_value(), c.get_value(), d.get_value())
}

/// The texel of object `e` shown at offset (`x`, `y`); see `sprite_texel`.
fn sprite_texel_at(ppu: &PPU, e: SpriteEntry, m: (i32, i32, i32, i32), x: i32, y: i32) -> (r: (i32, i32))
    requires
        e.shape() != 3,
        m.0 == sprite_affine_param(ppu@, e, 0),
        m.1 == sprite_affine_param(ppu@, e, 1),
        m.2 == sprite_affine_param(ppu@, e, 2),
        m.3 == sprite_affine_param(ppu@, e, 3),
        -32768 <= m.0 <= 32768,
        -32768 <= m.1 <= 32768,
        -32768 <= m.2 <= 32768,
        -32768 <= m.3 <= 32768,
        -128 <= x < 128,
        -128 <= y < 128,
    ensures
        (r.0 as int, r.1 as int) == sprite_texel(ppu@, e, x as int, y as int),
{
    let (w, h) = e.get_size();
    proof {
        assert(w <= 64 && h <= 64);
    }
    let x0 = (w / 2) as i32;
    let y0 = (h / 2) as i32;
    if e.get_is_affine() {
        let (pa, pb, pc, pd) = m;
        proof {
            assert(-32768 * 128 <= pa * x <= 32768 * 128) by (nonlinear_arith)
                requires
                    -32768 <= pa <= 32768,
                    -128 <= x < 128,
            ;
            assert(-32768 * 128 <= pb * y <= 32768 * 128) by (nonlinear_arith)
                requires
                    -32768 <= pb <= 32768,
                    -128 <= y < 128,
            ;
            assert(-32768 * 128 <= pc * x <= 32768 * 128) by (nonlinear_arith)
                requires
                    -32768 <= pc <= 32768,
                    -128 <= x < 128,
            ;
            assert(-32768 * 128 <= pd * y <= 32768 * 128) by (nonlinear_arith)
                requires
                    -32768 <= pd <= 32768,
                    -128 <= y < 128,
            ;
        }
        (x0 + floor_div_256(pa * x + pb * y), y0 + floor_div_256(pc * x + pd * y))
    } else {
        (x0 + x, y0 + y)
    }
}

/// The video RAM index of the color byte of texel (`px`, `py`) of object
/// `e`; see `sprite_address`.
fn sprite_texel_address(e: SpriteEntry, one_d: bool, px: i32, py: i32) -> (r: usize)
    requires
        e.shape() != 3,
        0 <= px < sprite_size(e).0,
        0 <= py < sprite_size(e).1,
    ensures
        r == ({
            let (w, h) = sprite_size(e);
            let color256 = sprite_bit(e, 13);
            let tile_length = if color256 { 64int } else { 32int };
            let row = if one_d { w / 8 } else if color256 { 16int } else { 32int };
            let tile_address = SPRITE_TILES_START_ADDRESS + ((e.0 >> 32) & 0x3ff) * 32 + (px / 8 + (
            py / 8) * row) * tile_length;
            let tp = px % 8 + (py % 8) * 8;
            if color256 {
                tile_address + tp
            } else {
                tile_address + tp / 2
            }
        }),
{
    let (w, h) = e.get_size();
    proof {
        assert(w <= 64 && h <= 64);
    }
    let color256 = e.get_is_256_palette();
    let tile_length: usize = if color256 { 64 } else { 32 };
    let row: usize = if one_d { w / 8 } else if color256 { 16 } else { 32 };
    let ux = px as usize;
    let uy = py as usize;
    proof {
        let v = e.0;
        crate::bits::lemma_and_le_u64(v >> 32, 0x3ff);
        assert((uy / 8) * row <= 7 * 32) by (nonlinear_arith)
            requires
                uy < 64,
                row <= 32,
        ;
    }
    let tile_address = SPRITE_TILES_START_ADDRESS + e.get_tile_index() * 32 + (ux / 8 + (uy / 8) * row)
        * tile_length;
    let tp = ux % 8 + (uy % 8) * 8;
    if color256 {
        tile_address + tp
    } else {
        tile_address + tp / 2
    }
}

} // verus!

verus! {

/// Half the width and height of the box object `e` is drawn in.
fn sprite_half_at(e: SpriteEntry) -> (r: (i32, i32))
    requires
        e.shape() != 3,
    ensures
        (r.0 as int, r.1 as int) == sprite_half(e),
        1 <= r.0 <= 64,
        1 <= r.1 <= 64,
{
    let (w, h) = e.get_size();
    if e.get_is_virtual_double_sized() {
        (w as i32, h as i32)
    } else {
        ((w / 2) as i32, (h / 2) as i32)
    }
}

/// What object `e` shows at screen pixel (`sx`, `sy`), or `None` when the
/// color byte of a covered pixel lies past video RAM.
fn sprite_pixel_at(
    ppu: &PPU,
    e: SpriteEntry,
    m: (i32, i32, i32, i32),
    one_d: bool,
    sx: i32,
    sy: i32,
) -> (r: Option<Option<Color>>)
    requires
        ppu@.wf(),
        e.shape() != 3,
        m.0 == sprite_affine_param(ppu@, e, 0),
        m.1 == sprite_affine_param(ppu@, e, 1),
        m.2 == sprite_affine_param(ppu@, e, 2),
        m.3 == sprite_affine_param(ppu@, e, 3),
        -32768 <= m.0 <= 32768,
        -32768 <= m.1 <= 32768,
        -32768 <= m.2 <= 32768,
        -32768 <= m.3 <= 32768,
        0 <= sx < 240,
        0 <= sy < 160,
    ensures
        r is None <==> (sprite_covers(ppu@, e, sx as int, sy as int) && sprite_address(
            ppu@,
            e,
            one_d,
            sx as int,
            sy as int,
        ) >= VRAM_SIZE),
        r matches Some(c) ==> c == sprite_pixel(ppu@, e, one_d, sx as int, sy as int),
{
    let (w, h) = e.get_size();
    let (hw, hh) = sprite_half_at(e);
    let xc = e.get_x_coord();
    let yc = e.get_y_coord();
    proof {
        vstd::arithmetic::power2::lemma2_to64();
        let v = e.0;
        crate::bits::lemma_and_le_u64(v >> 16, 0x1ff);
        lemma_sign_extended_bounds(((v >> 16) & 0x1ff) as u32, 9);
        crate::bits::lemma_and_le_u64(v, 0xff);
    }
    let x = sx - xc - hw;
    let y = sy - yc - hh;
    if x < -hw || x >= hw || y < -hh || y >= hh {
        return Some(None);
    }
    let (px, py) = sprite_texel_at(ppu, e, m, x, y);
    if px < 0 || px >= w as i32 || py < 0 || py >= h as i32 {
        return Some(None);
    }
    let address = sprite_texel_address(e, one_d, px, py);
    if address >= VRAM_SIZE {
        return None;
    }
    let entry = ppu.vram_byte(address);
    let tp = (px % 8 + (py % 8) * 8) as u32;
    if entry == 0 {
        Some(None)
    } else if e.get_is_256_palette() {
        Some(Some(ppu.get_palette_color(SPRITE_PALETTE_START_INDEX + entry as usize)))
    } else {
        let nibble = if tp % 2 == 0 { entry & 0xf } else { entry >> 4 };
        proof {
            crate::bits::lemma_top_bits(0, 0, entry);
        }
        proof {
            let v = e.0;
            crate::bits::lemma_and_le_u64(v >> 44, 0xf);
        }
        let palette = e.get_palette_number() as usize;
        Some(Some(ppu.get_palette_color(SPRITE_PALETTE_START_INDEX + palette * 16 + nibble as usize)))
    }
}

} // verus!

verus! {

/// Draws object `j` over `pixels` (when it is shown); `false` when its
/// shape is the prohibited one or a covered texel lies past video RAM.
fn draw_sprite(ppu: &PPU, pixels: &mut Vec<Color>, sprites: &Vec<SpriteEntry>, j: usize, one_d: bool) -> (ok: bool)
    requires
        ppu@.wf(),
        old(pixels)@.len() == SCREEN_TOTAL_PIXELS,
        j < 128,
        sprites@.len() == 128,
        forall|m: int| 0 <= m < 128 ==> (#[trigger] sprites@[m]).0 == le64(ppu@.oam, 8 * m),
    ensures
        ok == sprite_ok(ppu@, sprite_entry(ppu@, j as int), one_d),
        final(pixels)@.len() == SCREEN_TOTAL_PIXELS,
        ok ==> final(pixels)@ == overlay_sprite(old(pixels)@, ppu@, sprite_entry(ppu@, j as int), one_d),
{
    let e = sprites[j];
    let ghost prev = pixels@;
    let ghost p = ppu@;
    proof {
        assert(e == sprite_entry(p, j as int));
    }
    if !(e.get_is_affine() || !e.get_is_virtual_double_sized()) {
        return true;
    }
    proof {
        let v = e.0;
        crate::bits::lemma_and_le_u64(v >> 14, 3);
    }
    if (e.0 >> 14) & 3 == 3 {
        return false;
    }
    let m = sprite_matrix(ppu, sprites, e);
    let (_hw, hh) = sprite_half_at(e);
    let yc = e.get_y_coord();
    proof {
        let v = e.0;
        crate::bits::lemma_and_le_u64(v, 0xff);
    }
    let mut k: usize = 0;
    let mut sx: u32 = 0;
    let mut sy: u32 = 0;
    while k < SCREEN_TOTAL_PIXELS
        invariant
            ppu@ == p,
            p.wf(),
            e == sprite_entry(p, j as int),
            e.shape() != 3,
            sprite_shown(e),
            m.0 == sprite_affine_param(p, e, 0),
            m.1 == sprite_affine_param(p, e, 1),
            m.2 == sprite_affine_param(p, e, 2),
            m.3 == sprite_affine_param(p, e, 3),
            -32768 <= m.0 <= 32768,
            -32768 <= m.1 <= 32768,
            -32768 <= m.2 <= 32768,
            -32768 <= m.3 <= 32768,
            hh as int == sprite_half(e).1,
            1 <= hh <= 64,
            yc as int == sprite_y(e),
            -96 <= yc < 160,
            k <= SCREEN_TOTAL_PIXELS,
            sx < 240,
            k == sx + 240 * sy,
            prev.len() == SCREEN_TOTAL_PIXELS,
            pixels@.len() == SCREEN_TOTAL_PIXELS,
            forall|n: int|
                0 <= n < SCREEN_TOTAL_PIXELS ==> #[trigger] pixels@[n] == (if n < k {
                    overlay_sprite(prev, p, e, one_d)[n]
                } else {
                    prev[n]
                }),
            forall|n: int|
                0 <= n < k && sprite_covers(p, e, n % 240, n / 240) ==> #[trigger] sprite_address(
                    p,
                    e,
                    one_d,
                    n % 240,
                    n / 240,
                ) < VRAM_SIZE,
        decreases SCREEN_TOTAL_PIXELS - k,
    {
        if sx == 0 && (sy as i32 - yc - hh < -hh || sy as i32 - yc - hh >= hh) {
            // The object's box does not reach this row.
            proof {
                assert forall|n: int| k <= n < k + 240 implies #[trigger] (n / 240) == sy && n % 240 == n - k
                    && !sprite_covers(p, e, n % 240, n / 240) by {
                    lemma_pixel_coords(n, n - k, sy as int);
                }
            }
            k = k + 240;
            sy = sy + 1;
            continue;
        }
        proof {
            lemma_pixel_coords(k as int, sx as int, sy as int);
        }
        match sprite_pixel_at(ppu, e, m, one_d, sx as i32, sy as i32) {
            None => {
                proof {
                    assert(sprite_covers(p, e, sx as int, sy as int));
                    assert(sprite_address(p, e, one_d, sx as int, sy as int) >= VRAM_SIZE);
                    assert(!sprite_ok(p, e, one_d));
                }
                return false;
            },
            Some(value) => {
                if let Some(c) = value {
                    pixels.set(k, c);
                }
            },
        }
        k = k + 1;
        sx = sx + 1;
        if sx == 240 {
            sx = 0;
            sy = sy + 1;
        }
    }
    proof {
        assert(pixels@ =~= overlay_sprite(prev, p, e, one_d));
        assert forall|x: int, y: int|
            0 <= x < 240 && 0 <= y < 160 && sprite_covers(p, e, x, y) implies #[trigger] sprite_address(
            p,
            e,
            one_d,
            x,
            y,
        ) < VRAM_SIZE by {
            lemma_pixel_coords(x + 240 * y, x, y);
            assert(sprite_covers(p, e, (x + 240 * y) % 240, (x + 240 * y) / 240));
        }
    }
    true
}

} // verus!

verus! {

/// Whether every enabled background of a tiled mode can be drawn.
pub open spec fn backgrounds_ok(p: PpuView, mode: EVideoMode) -> bool {
    (mode == EVideoMode::Mode0 || mode == EVideoMode::Mode1 || mode == EVideoMode::Mode2) ==> forall|i: int|
        tiled_range(mode).0 <= i < tiled_range(mode).1 && bg_displayed(p, i) ==> #[trigger] bg_ok(p, mode, i)
}

/// Whether every object can be drawn.
pub open spec fn sprites_ok(p: PpuView) -> bool {
    forall|j: int| 0 <= j < 128 ==> #[trigger] sprite_ok(p, sprite_entry(p, j), bit16(p.regs.disp_cnt, 6))
}

/// The frame the display shows: all white while force-blanked; otherwise
/// the backgrounds of the video mode (none for an invalid mode) and then,
/// when enabled, the objects.
pub open spec fn frame(p: PpuView) -> Seq<Color> {
    let dc = p.regs.disp_cnt;
    if bit16(dc, 7) {
        Seq::new(SCREEN_TOTAL_PIXELS as nat, |k: int| white())
    } else {
        match video_mode_of(dc & 7) {
            None => backdrop(p),
            Some(mode) => {
                let f = background_frame(p, mode);
                if bit16(dc, 12) {
                    sprite_layers(p, f, 0, bit16(dc, 6))
                } else {
                    f
                }
            },
        }
    }
}

/// Whether the frame can be composed without reading past video RAM or
/// meeting an object of the prohibited shape.
pub open spec fn render_ok(p: PpuView) -> bool {
    let dc = p.regs.disp_cnt;
    !bit16(dc, 7) ==> match video_mode_of(dc & 7) {
        None => true,
        Some(mode) => backgrounds_ok(p, mode) && (bit16(dc, 12) ==> sprites_ok(p)),
    }
}

/// A frame as red, green and blue bytes, pixel after pixel.
pub open spec fn frame_bytes(f: Seq<Color>) -> Seq<u8> {
    Seq::new(
        3 * f.len(),
        |n: int|
            {
                let c = f[n / 3];
                if n % 3 == 0 {
                    c.red
                } else if n % 3 == 1 {
                    c.green
                } else {
                    c.blue
                }
            },
    )
}

/// A screen of one color.
fn filled(c: Color) -> (r: Vec<Color>)
    ensures
        r@ == Seq::new(SCREEN_TOTAL_PIXELS as nat, |k: int| c),
{
    let mut pixels: Vec<Color> = Vec::new();
    let mut k: usize = 0;
    while k < SCREEN_TOTAL_PIXELS
        invariant
            k <= SCREEN_TOTAL_PIXELS,
            pixels@.len() == k,
            forall|n: int| 0 <= n < k ==> #[trigger] pixels@[n] == c,
        decreases SCREEN_TOTAL_PIXELS - k,
    {
        pixels.push(c);
        k = k + 1;
    }
    proof {
        assert(pixels@ =~= Seq::new(SCREEN_TOTAL_PIXELS as nat, |k: int| c));
    }
    pixels
}

/// The mode 4 frame; see `bitmap_frame`.
fn bitmap(ppu: &PPU) -> (r: Vec<Color>)
    requires
        ppu@.wf(),
    ensures
        r@ == bitmap_frame(ppu@),
{
    let start: usize = if ppu.get_disp_cnt().get_display_frame_1() { 0xA000 } else { 0 };
    let mut pixels: Vec<Color> = Vec::new();
    let mut k: usize = 0;
    while k < SCREEN_TOTAL_PIXELS
        invariant
            ppu@.wf(),
            start == (if bit16(ppu@.regs.disp_cnt, 4) { 0xA000int } else { 0int }),
            k <= SCREEN_TOTAL_PIXELS,
            pixels@.len() == k,
            forall|n: int| 0 <= n < k ==> #[trigger] pixels@[n] == bitmap_frame(ppu@)[n],
        decreases SCREEN_TOTAL_PIXELS - k,
    {
        let entry = ppu.vram_byte(start + k);
        pixels.push(ppu.get_palette_color(entry as usize));
        k = k + 1;
    }
    proof {
        assert(pixels@ =~= bitmap_frame(ppu@));
    }
    pixels
}

/// A frame as red, green and blue bytes; see `frame_bytes`.
fn to_bytes(pixels: &Vec<Color>) -> (r: Vec<u8>)
    requires
        pixels@.len() == SCREEN_TOTAL_PIXELS,
    ensures
        r@ == frame_bytes(pixels@),
{
    let mut out: Vec<u8> = Vec::new();
    let mut k: usize = 0;
    while k < SCREEN_TOTAL_PIXELS
        invariant
            pixels@.len() == SCREEN_TOTAL_PIXELS,
            k <= SCREEN_TOTAL_PIXELS,
            out@.len() == 3 * k,
            forall|n: int| 0 <= n < 3 * k ==> #[trigger] out@[n] == frame_bytes(pixels@)[n],
        decreases SCREEN_TOTAL_PIXELS - k,
    {
        let c = pixels[k];
        proof {
            vstd::arithmetic::div_mod::lemma_fundamental_div_mod_converse(3 * k, 3, k as int, 0);
            vstd::arithmetic::div_mod::lemma_fundamental_div_mod_converse(3 * k + 1, 3, k as int, 1);
            vstd::arithmetic::div_mod::lemma_fundamental_div_mod_converse(3 * k + 2, 3, k as int, 2);
        }
        out.push(c.red);
        out.push(c.green);
        out.push(c.blue);
        k = k + 1;
    }
    proof {
        assert(out@ =~= frame_bytes(pixels@));
    }
    out
}

impl PPU {
    /// Composes the frame the display shows, as red, green and blue bytes
    /// (each 0..=255) for the 240x160 pixels, row after row; `None` when a
    /// background tile or an object lies past video RAM or an object has the
    /// prohibited shape.
    pub fn render(&self) -> (r: Option<Vec<u8>>)
        requires
            self@.wf(),
        ensures
            r is Some <==> render_ok(self@),
            r matches Some(v) ==> v@ == frame_bytes(frame(self@)),
    {
        let ghost p = self@;
        let dc = self.get_disp_cnt();
        if dc.get_forced_blank() {
            let pixels = filled(Color { red: 255, green: 255, blue: 255 });
            return Some(to_bytes(&pixels));
        }
        let mut pixels = filled(self.get_palette_color(0));
        proof {
            assert(pixels@ =~= backdrop(p));
        }
        match dc.get_bg_mode() {
            None => {},
            Some(mode) => {
                match mode {
                    EVideoMode::Mode0 | EVideoMode::Mode1 | EVideoMode::Mode2 => {
                        let (lo, hi): (usize, usize) = match mode {
                            EVideoMode::Mode2 => (2, 4),
                            EVideoMode::Mode1 => (0, 3),
                            _ => (0, 4),
                        };
                        let mut i = lo;
                        while i < hi
                            invariant
                                self@ == p,
                                p.wf(),
                                dc.0 == p.regs.disp_cnt,
                                !bit16(p.regs.disp_cnt, 7),
                                video_mode_of(p.regs.disp_cnt & 7) == Some(mode),
                                mode == EVideoMode::Mode0 || mode == EVideoMode::Mode1 || mode
                                    == EVideoMode::Mode2,
                                (lo as int, hi as int) == tiled_range(mode),
                                lo <= i <= hi,
                                pixels@ == bg_layers(p, mode, lo as int, i as int),
                                pixels@.len() == SCREEN_TOTAL_PIXELS,
                                forall|n: int|
                                    lo <= n < i && bg_displayed(p, n) ==> #[trigger] bg_ok(p, mode, n),
                            decreases hi - i,
                        {
                            if dc.get_screen_display_bg(i) {
                                if !draw_background(self, &mut pixels, mode, i) {
                                    proof {
                                        assert(!bg_ok(p, mode, i as int));
                                        assert(!backgrounds_ok(p, mode));
                                    }
                                    return None;
                                }
                            }
                            i = i + 1;
                        }
                    },
                    EVideoMode::Mode4 => {
                        pixels = bitmap(self);
                    },
                    _ => {},
                }
                if dc.get_screen_display_sprites() {
                    let sprites = self.get_sprites();
                    let one_d = dc.get_sprite_1d_mapping();
                    let ghost base = pixels@;
                    let mut j: usize = 128;
                    while j > 0
                        invariant
                            self@ == p,
                            p.wf(),
                            one_d == bit16(p.regs.disp_cnt, 6),
                            !bit16(p.regs.disp_cnt, 7),
                            bit16(p.regs.disp_cnt, 12),
                            video_mode_of(p.regs.disp_cnt & 7) == Some(mode),
                            sprites@.len() == 128,
                            forall|m: int| 0 <= m < 128 ==> (#[trigger] sprites@[m]).0 == le64(p.oam, 8 * m),
                            j <= 128,
                            pixels@ == sprite_layers(p, base, j as int, one_d),
                            pixels@.len() == SCREEN_TOTAL_PIXELS,
                            forall|n: int| j <= n < 128 ==> #[trigger] sprite_ok(p, sprite_entry(p, n), one_d),
                        decreases j,
                    {
                        j = j - 1;
                        if !draw_sprite(self, &mut pixels, &sprites, j, one_d) {
                            proof {
                                assert(!sprite_ok(p, sprite_entry(p, j as int), one_d));
                                assert(!sprites_ok(p));
                            }
                            return None;
                        }
                    }
                }
            },
        }
        Some(to_bytes(&pixels))
    }
}

} // verus!

verus! {

/// Bit facts: the top four bits of a little-endian half-word are the top
/// four of its high byte, and the two nibbles of a byte are its remainder
/// and quotient by 16.
proof fn lemma_nibble_bits(b0: u8, b1: u8, x: u8)
    by (bit_vector)
    ensures
        le16(b0, b1) >> 12 == (b1 >> 4) as u16,
        x & 0xf == x % 16,
        x >> 4 == x / 16,
{
}

/// In a 256-color text background, a pixel whose tile byte is not zero
/// shows the background palette entry that the byte names; a zero byte is
/// transparent, in either color mode.
pub proof fn lemma_text_256_color(p: PpuView, i: int, sx: int, sy: int)
    ensures
        ({
            let byte = p.vram[text_address(p, i, sx, sy)];
            &&& byte == 0 ==> text_pixel(p, i, sx, sy) is None
            &&& bit16(bg_cnt_of(p, i), 7) && byte != 0 ==> text_pixel(p, i, sx, sy) == Some(
                p.palette[byte as int],
            )
        }),
{
}

/// An object's palette bank (bits 15..12 of its third attribute, the
/// half-word at bits 47..32 of the entry) as the entry's bits 47..44.
proof fn lemma_object_bank_bits(e: u64)
    by (bit_vector)
    ensures
        (e >> 44) & 0xf == (((e >> 32) as u16) >> 12) as u64,
        ((e >> 32) as u16) >> 12 == ((e >> 32) as u16) / 4096,
{
}

/// An object pixel whose tile byte is not zero shows an object palette
/// color (palette entries 256 and up): in 256-color mode the entry the
/// byte names, in 16-color mode color `n` of the object palette bank named
/// by the top four bits of the third attribute (`n` the low nibble of the
/// byte for an even texel, the high one for an odd texel). A zero byte is
/// transparent.
pub proof fn lemma_object_palette(p: PpuView, e: SpriteEntry, one_d: bool, sx: int, sy: int)
    requires
        sprite_covers(p, e, sx, sy),
    ensures
        ({
            let byte = p.vram[sprite_address(p, e, one_d, sx, sy)];
            let (x, y) = sprite_offset(e, sx, sy);
            let (px, py) = sprite_texel(p, e, x, y);
            let odd = (px % 8 + (py % 8) * 8) % 2 == 1;
            let bank = (((e.0 >> 32) as u16) / 4096) as int;
            let n = (if odd { byte / 16 } else { byte % 16 }) as int;
            &&& byte == 0 ==> sprite_pixel(p, e, one_d, sx, sy) is None
            &&& sprite_bit(e, 13) && byte != 0 ==> sprite_pixel(p, e, one_d, sx, sy) == Some(
                p.palette[256 + byte as int],
            )
            &&& !sprite_bit(e, 13) && byte != 0 ==> sprite_pixel(p, e, one_d, sx, sy) == Some(
                p.palette[256 + bank * 16 + n],
            )
        }),
{
    let byte = p.vram[sprite_address(p, e, one_d, sx, sy)];
    lemma_nibble_bits(0, 0, byte);
    lemma_object_bank_bits(e.0);
}

/// In a 16-color text background, a pixel whose tile byte is not zero shows
/// color `n` of the 16-color palette bank that its map entry names (the top
/// four bits of the entry, that is of its high byte): palette entry
/// `bank * 16 + n`, where `n` is the low nibble of the byte for an even
/// pixel and the high nibble for an odd one.
pub proof fn lemma_text_16_color_palette_bank(p: PpuView, i: int, sx: int, sy: int)
    requires
        !bit16(bg_cnt_of(p, i), 7),
    ensures
        ({
            let (a, tp) = text_geometry(p, i, sx, sy);
            let byte = p.vram[text_address(p, i, sx, sy)];
            let bank = (p.vram[a + 1] / 16) as int;
            let n = (if tp % 2 == 0 { byte % 16 } else { byte / 16 }) as int;
            byte != 0 ==> text_pixel(p, i, sx, sy) == Some(p.palette[bank * 16 + n])
        }),
{
    let (a, tp) = text_geometry(p, i, sx, sy);
    let byte = p.vram[text_address(p, i, sx, sy)];
    lemma_nibble_bits(p.vram[a], p.vram[a + 1], byte);
    lemma_nibble_bits(p.vram[a], p.vram[a + 1], p.vram[a + 1]);
}

} // verus!
