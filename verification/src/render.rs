//! Frame composition for the PPU stub: the background, window and sprite
//! layers rendered into an RGBA buffer, one grey level per pixel.
use vstd::prelude::*;
use vstd::arithmetic::div_mod::{
    lemma_add_mod_noop_right, lemma_fundamental_div_mod, lemma_mod_add_multiples_vanish, lemma_fundamental_div_mod_converse,
};
use crate::bus::IoRegs;
use crate::ppu_stub::PpuStub;
use crate::gb_core::{Core, CoreView};

verus! {

/// The four DMG grey levels, lightest first.
pub open spec fn dmg_shade(level: u8) -> u8 {
    if level == 0 {
        0xFF
    } else if level == 1 {
        0xAA
    } else if level == 2 {
        0x55
    } else {
        0x00
    }
}

/// Grey level that palette register `pal` gives to colour index `color`:
/// colour `c` takes bits `2c..2c+1` of the register.
pub open spec fn palette_shade(pal: u8, color: u8) -> u8 {
    if color == 0 {
        dmg_shade(pal & 3)
    } else if color == 1 {
        dmg_shade((pal >> 2u8) & 3)
    } else if color == 2 {
        dmg_shade((pal >> 4u8) & 3)
    } else {
        dmg_shade((pal >> 6u8) & 3)
    }
}

/// Colour index (0..=3) of bit `bit` of a tile row stored as the planes `lo`, `hi`.
pub open spec fn tile_pixel(lo: u8, hi: u8, bit: u8) -> u8 {
    (((hi >> bit) & 1u8) << 1u8) | ((lo >> bit) & 1u8)
}

/// Bus address of row `row` of background tile `tile`; the signed addressing
/// mode places tile 0 at `0x9000` and tiles `0x80..=0xFF` below it.
pub open spec fn tile_row_addr(unsigned: bool, tile: u8, row: int) -> int {
    if unsigned {
        0x8000 + tile * 16 + row * 2
    } else if tile < 128 {
        0x9000 + tile * 16 + row * 2
    } else {
        0x9000 - (256 - tile) * 16 + row * 2
    }
}

/// Colour index at map-space position (`mx`, `my`), both in `0..256`, of the
/// tile map at `0x9C00` (`high_map`) or `0x9800`.
pub open spec fn map_pixel(vram: Seq<u8>, high_map: bool, unsigned: bool, mx: int, my: int) -> u8 {
    let map_addr = (if high_map { 0x9C00int } else { 0x9800int }) + (my / 8) * 32 + mx / 8;
    let tile = vram[map_addr - 0x8000];
    let row_addr = tile_row_addr(unsigned, tile, my % 8);
    tile_pixel(vram[row_addr - 0x8000], vram[row_addr + 1 - 0x8000], (7 - mx % 8) as u8)
}

/// Screen column `x` (below 65536) read as a signed 16-bit value.
pub open spec fn signed_column(x: int) -> int {
    if x < 32768 {
        x
    } else {
        x - 65536
    }
}

/// Whether the window layer covers screen pixel (`x`, `y`).
pub open spec fn window_covers(regs: Seq<u8>, x: int, y: int) -> bool {
    &&& regs[0x40] & 0x20 != 0
    &&& y % 256 >= regs[0x4A]
    &&& signed_column(x) >= regs[0x4B] - 7
}

/// Whether the background or the window paints screen pixel (`x`, `y`).
pub open spec fn layer_paints(regs: Seq<u8>, x: int, y: int) -> bool {
    window_covers(regs, x, y) || regs[0x40] & 0x01 != 0
}

/// Colour index of the background/window layer at screen pixel (`x`, `y`);
/// 0 where neither paints.
pub open spec fn layer_color(regs: Seq<u8>, vram: Seq<u8>, x: int, y: int) -> u8 {
    let lcdc = regs[0x40];
    if window_covers(regs, x, y) {
        map_pixel(
            vram,
            lcdc & 0x40 != 0,
            lcdc & 0x10 != 0,
            (signed_column(x) - (regs[0x4B] - 7)) % 256,
            y % 256 - regs[0x4A],
        )
    } else if lcdc & 0x01 != 0 {
        map_pixel(vram, lcdc & 0x08 != 0, lcdc & 0x10 != 0, (regs[0x43] + x) % 256, (regs[0x42] + y) % 256)
    } else {
        0
    }
}

/// Grey level of the background/window layer at screen pixel (`x`, `y`).
pub open spec fn layer_shade(regs: Seq<u8>, vram: Seq<u8>, x: int, y: int) -> u8 {
    if layer_paints(regs, x, y) {
        palette_shade(regs[0x47], layer_color(regs, vram, x, y))
    } else {
        0xFF
    }
}

/// Sprite height in lines selected by LCDC bit 2.
pub open spec fn sprite_height(lcdc: u8) -> int {
    if lcdc & 0x04 != 0 {
        16
    } else {
        8
    }
}

/// Line of sprite `k` that lands on screen line `y` (mod 256).
pub open spec fn sprite_row(oam: Seq<u8>, k: int, y: int) -> int {
    (y + 16 - oam[4 * k]) % 256
}

/// Column of sprite `k` that lands on screen column `x` (mod 256).
pub open spec fn sprite_col(oam: Seq<u8>, k: int, x: int) -> int {
    (x + 8 - oam[4 * k + 1]) % 256
}

/// Colour index of sprite `k` at screen pixel (`x`, `y`), honouring the flips.
pub open spec fn sprite_color(regs: Seq<u8>, vram: Seq<u8>, oam: Seq<u8>, k: int, x: int, y: int) -> u8 {
    let sh = sprite_height(regs[0x40]);
    let attrs = oam[4 * k + 3];
    let tile = oam[4 * k + 2];
    let row = sprite_row(oam, k, y);
    let col = sprite_col(oam, k, x);
    let eff_row = if attrs & 0x40 != 0 { sh - 1 - row } else { row };
    let base = if sh == 16 {
        0x8000 + (tile & 0xFE) * 16 + (eff_row % 8) * 2 + (eff_row / 8) * 32
    } else {
        0x8000 + tile * 16 + eff_row * 2
    };
    let bit = if attrs & 0x20 != 0 { col } else { 7 - col };
    tile_pixel(vram[base - 0x8000], vram[base + 1 - 0x8000], bit as u8)
}

/// Whether sprite `k` paints screen pixel (`x`, `y`): sprites are on, the
/// pixel lies in the sprite's box, its colour is not transparent, and it is
/// not hidden behind a non-zero background colour.
pub open spec fn sprite_draws(regs: Seq<u8>, vram: Seq<u8>, oam: Seq<u8>, k: int, x: int, y: int) -> bool {
    &&& regs[0x40] & 0x02 != 0
    &&& x < 256
    &&& y < 256
    &&& sprite_row(oam, k, y) < sprite_height(regs[0x40])
    &&& sprite_col(oam, k, x) < 8
    &&& sprite_color(regs, vram, oam, k, x, y) != 0
    &&& !(oam[4 * k + 3] & 0x80 != 0 && layer_color(regs, vram, x, y) != 0)
}

/// Grey level of sprite `k` for colour index `color` (OBP1 when attribute bit 4 is set).
pub open spec fn sprite_shade(regs: Seq<u8>, oam: Seq<u8>, k: int, color: u8) -> u8 {
    palette_shade(if oam[4 * k + 3] & 0x10 != 0 { regs[0x49] } else { regs[0x48] }, color)
}

/// Shade of the lowest-numbered sprite at or after `k` that paints (`x`, `y`).
pub open spec fn frontmost_sprite(regs: Seq<u8>, vram: Seq<u8>, oam: Seq<u8>, k: int, x: int, y: int) -> Option<u8>
    decreases 40 - k,
{
    if k >= 40 {
        None
    } else if sprite_draws(regs, vram, oam, k, x, y) {
        Some(sprite_shade(regs, oam, k, sprite_color(regs, vram, oam, k, x, y)))
    } else {
        frontmost_sprite(regs, vram, oam, k + 1, x, y)
    }
}

/// Final grey level of screen pixel (`x`, `y`): the front sprite, else the layer.
pub open spec fn pixel_shade(regs: Seq<u8>, vram: Seq<u8>, oam: Seq<u8>, x: int, y: int) -> u8 {
    match frontmost_sprite(regs, vram, oam, 0, x, y) {
        Some(s) => s,
        None => layer_shade(regs, vram, x, y),
    }
}

/// Whether any layer paints screen pixel (`x`, `y`): the background or the
/// window, or a visible sprite.
pub open spec fn pixel_painted(regs: Seq<u8>, vram: Seq<u8>, oam: Seq<u8>, x: int, y: int) -> bool {
    layer_paints(regs, x, y) || frontmost_sprite(regs, vram, oam, 0, x, y) is Some
}

/// Byte `i` of an RGBA buffer of `len` bytes (formerly `prev`) after a frame
/// of `w`×`h` pixels is rendered: whole 4-byte pixels start white and opaque,
/// a trailing partial pixel is left alone, and with the LCD on each of the
/// first `w*h` pixels carries its grey level in R, G and B.
pub open spec fn frame_byte(regs: Seq<u8>, vram: Seq<u8>, oam: Seq<u8>, w: int, h: int, len: int, prev: u8, i: int) -> u8 {
    if i >= 4 * (len / 4) {
        prev
    } else if regs[0x40] & 0x80 == 0 || i >= 4 * (w * h) || i % 4 == 3 {
        0xFF
    } else {
        pixel_shade(regs, vram, oam, (i / 4) % w, (i / 4) / w)
    }
}

/// Grey level of the test gradient at pixel (`x`, `y`): `(x + y) mod 256`
/// lifted by 32, saturating at white.
pub open spec fn gradient_shade(x: int, y: int) -> u8 {
    let v = (x + y) % 256;
    if v + 32 > 255 {
        255
    } else {
        (v + 32) as u8
    }
}

/// Byte `i` of a buffer (formerly `prev`) after the test gradient of
/// `w`×`h` RGBA pixels is written into its front.
pub open spec fn gradient_byte(w: int, h: int, prev: u8, i: int) -> u8 {
    if i >= 4 * (w * h) {
        prev
    } else if i % 4 == 3 {
        0xFF
    } else {
        gradient_shade((i / 4) % w, (i / 4) / w)
    }
}

/// Byte `4p + c` of a buffer lies in pixel `p`, channel `c`.
pub(crate) proof fn lemma_quad(p: int, c: int)
    requires
        p >= 0,
        0 <= c < 4,
    ensures
        (4 * p + c) / 4 == p,
        (4 * p + c) % 4 == c,
{
    lemma_fundamental_div_mod_converse(4 * p + c, 4, p, c);
}

/// Stepping a row-major pixel counter: column and row of `p + 1`.
pub(crate) proof fn lemma_next_pixel(p: int, w: int)
    requires
        p >= 0,
        w > 0,
    ensures
        p % w + 1 < w ==> (p + 1) % w == p % w + 1 && (p + 1) / w == p / w,
        p % w + 1 == w ==> (p + 1) % w == 0 && (p + 1) / w == p / w + 1,
{
    lemma_fundamental_div_mod(p, w);
    let q = p / w;
    let r = p % w;
    assert(w * q == q * w) by (nonlinear_arith);
    if r + 1 < w {
        lemma_fundamental_div_mod_converse(p + 1, w, q, r + 1);
    } else {
        assert((q + 1) * w == q * w + w) by (nonlinear_arith);
        lemma_fundamental_div_mod_converse(p + 1, w, q + 1, 0);
    }
}

/// Colour indices never exceed 3.
proof fn lemma_tile_pixel_bound()
    by (bit_vector)
    ensures
        forall|lo: u8, hi: u8, bit: u8| #[trigger] ((((hi >> bit) & 1u8) << 1u8) | ((lo >> bit) & 1u8)) <= 3,
{
}

/// Grey level for a palette level.
fn shade_of_level(level: u8) -> (r: u8)
    ensures
        r == dmg_shade(level),
{
    if level == 0 {
        0xFF
    } else if level == 1 {
        0xAA
    } else if level == 2 {
        0x55
    } else {
        0x00
    }
}

/// Grey level that palette register `pal` gives to colour index `color`.
fn palette_lookup(pal: u8, color: u8) -> (r: u8)
    ensures
        r == palette_shade(pal, color),
{
    if color == 0 {
        shade_of_level(pal & 3)
    } else if color == 1 {
        shade_of_level((pal >> 2u8) & 3)
    } else if color == 2 {
        shade_of_level((pal >> 4u8) & 3)
    } else {
        shade_of_level((pal >> 6u8) & 3)
    }
}

/// Colour index of bit `bit` of the tile row planes `lo`, `hi`.
pub(crate) fn tile_pixel_at(lo: u8, hi: u8, bit: u8) -> (r: u8)
    requires
        bit < 8,
    ensures
        r == tile_pixel(lo, hi, bit),
        r <= 3,
{
    proof {
        lemma_tile_pixel_bound();
    }
    (((hi >> bit) & 1u8) << 1u8) | ((lo >> bit) & 1u8)
}

/// Colour index at map-space position (`mx`, `my`) of one of the tile maps.
fn map_pixel_at(vram: &[u8; 0x2000], high_map: bool, unsigned: bool, mx: u8, my: u8) -> (r: u8)
    ensures
        r == map_pixel(vram@, high_map, unsigned, mx as int, my as int),
        r <= 3,
{
    let map_off: usize = (if high_map { 0x1C00usize } else { 0x1800usize }) + (my as usize / 8) * 32
        + mx as usize / 8;
    let tile = vram[map_off];
    let row2: usize = (my as usize % 8) * 2;
    let row_off: usize = if unsigned {
        tile as usize * 16 + row2
    } else if tile < 128 {
        0x1000 + tile as usize * 16 + row2
    } else {
        0x1000 - (256 - tile as usize) * 16 + row2
    };
    let lo = vram[row_off];
    let hi = vram[row_off + 1];
    let bit: u8 = 7 - mx % 8;
    tile_pixel_at(lo, hi, bit)
}

/// Background/window layer at screen pixel (`x`, `y`): whether it paints and
/// its colour index.
fn layer_at(io: &IoRegs, vram: &[u8; 0x2000], x: usize, y: usize) -> (r: (bool, u8))
    requires
        x < 65536,
    ensures
        r.0 == layer_paints(io.regs@, x as int, y as int),
        r.1 == layer_color(io.regs@, vram@, x as int, y as int),
        r.1 <= 3,
{
    let lcdc = io.regs[0x40];
    let line: u8 = (y % 256) as u8;
    let wy = io.regs[0x4A];
    let wx = io.regs[0x4B];
    let column: i32 = if x < 32768 { x as i32 } else { x as i32 - 65536 };
    let wx_adjusted: i32 = wx as i32 - 7;
    if lcdc & 0x20 != 0 && line >= wy && column >= wx_adjusted {
        let win_x = (column - wx_adjusted) as usize;
        let mx: u8 = (win_x % 256) as u8;
        let my: u8 = line - wy;
        (true, map_pixel_at(vram, lcdc & 0x40 != 0, lcdc & 0x10 != 0, mx, my))
    } else if lcdc & 0x01 != 0 {
        let mx: u8 = ((io.regs[0x43] as usize + x % 256) % 256) as u8;
        let my: u8 = ((io.regs[0x42] as usize + y % 256) % 256) as u8;
        proof {
            lemma_add_mod_noop_right(io.regs[0x43] as int, x as int, 256);
            lemma_add_mod_noop_right(io.regs[0x42] as int, y as int, 256);
        }
        (true, map_pixel_at(vram, lcdc & 0x08 != 0, lcdc & 0x10 != 0, mx, my))
    } else {
        (false, 0)
    }
}


/// Sprite `k` at screen pixel (`x`, `y`): whether it paints, and then its shade.
fn sprite_at(io: &IoRegs, vram: &[u8; 0x2000], oam: &[u8; 0xA0], k: usize, x: usize, y: usize, layer: u8) -> (r: (bool, u8))
    requires
        k < 40,
        layer == layer_color(io.regs@, vram@, x as int, y as int),
    ensures
        r.0 == sprite_draws(io.regs@, vram@, oam@, k as int, x as int, y as int),
        r.0 ==> r.1 == sprite_shade(io.regs@, oam@, k as int, sprite_color(io.regs@, vram@, oam@, k as int, x as int, y as int)),
{
    let lcdc = io.regs[0x40];
    if lcdc & 0x02 == 0 || x >= 256 || y >= 256 {
        return (false, 0);
    }
    let base = k * 4;
    let sh: usize = if lcdc & 0x04 != 0 { 16 } else { 8 };
    let row: usize = (y + 256 + 16 - oam[base] as usize) % 256;
    let col: usize = (x + 256 + 8 - oam[base + 1] as usize) % 256;
    proof {
        lemma_mod_add_multiples_vanish(y + 16 - oam@[4 * k as int], 256);
        lemma_mod_add_multiples_vanish(x + 8 - oam@[4 * k as int + 1], 256);
    }
    if row >= sh || col >= 8 {
        return (false, 0);
    }
    let attrs = oam[base + 3];
    let tile = oam[base + 2];
    let eff_row: usize = if attrs & 0x40 != 0 { sh - 1 - row } else { row };
    let off: usize = if sh == 16 {
        (tile & 0xFE) as usize * 16 + (eff_row % 8) * 2 + (eff_row / 8) * 32
    } else {
        tile as usize * 16 + eff_row * 2
    };
    let lo = vram[off];
    let hi = vram[off + 1];
    let bit: u8 = if attrs & 0x20 != 0 { col as u8 } else { (7 - col) as u8 };
    let color = tile_pixel_at(lo, hi, bit);
    if color == 0 {
        return (false, 0);
    }
    if attrs & 0x80 != 0 && layer != 0 {
        return (false, 0);
    }
    let pal = if attrs & 0x10 != 0 { io.regs[0x49] } else { io.regs[0x48] };
    (true, palette_lookup(pal, color))
}

/// Final grey level of screen pixel (`x`, `y`): sprites are composed back to
/// front (39 down to 0) over the background/window layer.
fn pixel_shade_at(io: &IoRegs, vram: &[u8; 0x2000], oam: &[u8; 0xA0], x: usize, y: usize) -> (r: u8)
    requires
        x < 65536,
    ensures
        r == pixel_shade(io.regs@, vram@, oam@, x as int, y as int),
{
    let (paints, color) = layer_at(io, vram, x, y);
    let mut shade: u8 = if paints { palette_lookup(io.regs[0x47], color) } else { 0xFF };
    let ghost base = layer_shade(io.regs@, vram@, x as int, y as int);
    let mut k: usize = 40;
    while k > 0
        invariant
            k <= 40,
            color == layer_color(io.regs@, vram@, x as int, y as int),
            shade == (match frontmost_sprite(io.regs@, vram@, oam@, k as int, x as int, y as int) {
                Some(s) => s,
                None => base,
            }),
        decreases k,
    {
        k = k - 1;
        let (draws, s) = sprite_at(io, vram, oam, k, x, y, color);
        if draws {
            shade = s;
        }
    }
    shade
}

/// Paints every whole 4-byte pixel of `out` with grey `shade`, fully opaque.
fn fill_solid(out: &mut [u8], shade: u8)
    ensures
        final(out)@.len() == old(out)@.len(),
        forall|i: int|
            0 <= i < old(out)@.len() ==> #[trigger] final(out)@[i] == (if i >= 4 * (old(out)@.len() / 4) {
                old(out)@[i]
            } else if i % 4 == 3 {
                0xFFu8
            } else {
                shade
            }),
{
    let ghost prev = out@;
    let total = out.len();
    let chunks = total / 4;
    proof {
        lemma_fundamental_div_mod(total as int, 4);
    }
    let mut q: usize = 0;
    while q < chunks
        invariant
            chunks == prev.len() / 4,
            4 * chunks <= total,
            total == prev.len(),
            q <= chunks,
            out@.len() == prev.len(),
            forall|i: int| 4 * q <= i < prev.len() ==> #[trigger] out@[i] == prev[i],
            forall|i: int|
                0 <= i < 4 * q ==> #[trigger] out@[i] == (if i % 4 == 3 { 0xFFu8 } else { shade }),
        decreases chunks - q,
    {
        let at = 4 * q;
        out[at] = shade;
        out[at + 1] = shade;
        out[at + 2] = shade;
        out[at + 3] = 0xFF;
        proof {
            assert forall|i: int| 0 <= i < 4 * (q + 1) implies #[trigger] out@[i] == (if i % 4 == 3 {
                0xFFu8
            } else {
                shade
            }) by {
                if i >= 4 * q {
                    lemma_quad(q as int, i - 4 * q);
                }
            }
        }
        q = q + 1;
    }
}

impl PpuStub {
    /// Renders the visible layers into `out_rgba` as `width`×`height` RGBA
    /// pixels. The buffer first turns white; with the LCD off it stays so.
    /// Otherwise the background (LCDC bit 0), the window (bit 5) and the
    /// sprites (bit 1) are composed per pixel as `pixel_shade` states. Every
    /// pixel a layer paints must lie within the buffer; pixels that no layer
    /// paints stay white, wherever they fall.
    pub fn render_frame(
        &self,
        io: &IoRegs,
        vram: &[u8; 0x2000],
        oam: &[u8; 0xA0],
        out_rgba: &mut [u8],
        width: u16,
        height: u16,
    )
        requires
            io.regs@[0x40] & 0x80 != 0 ==> forall|x: int, y: int|
                0 <= x < width && 0 <= y < height && #[trigger] pixel_painted(io.regs@, vram@, oam@, x, y)
                    ==> 4 * (y * width + x) + 4 <= old(out_rgba)@.len(),
            io.regs@[0x40] & 0x80 != 0 && io.regs@[0x40] & 0x20 != 0 && io.regs@[0x4B] < 7
                && height > io.regs@[0x4A] ==> width <= 32761 + io.regs@[0x4B],
        ensures
            final(out_rgba)@.len() == old(out_rgba)@.len(),
            forall|i: int|
                0 <= i < old(out_rgba)@.len() ==> #[trigger] final(out_rgba)@[i] == frame_byte(
                    io.regs@,
                    vram@,
                    oam@,
                    width as int,
                    height as int,
                    old(out_rgba)@.len() as int,
                    old(out_rgba)@[i],
                    i,
                ),
    {
        let ghost prev = out_rgba@;
        let ghost len = prev.len() as int;
        fill_solid(out_rgba, 0xFF);
        let lcdc = io.regs[0x40];
        if lcdc & 0x80 == 0 {
            return;
        }
        let w = width as usize;
        let h = height as usize;
        assert(w * h <= 65535 * 65535) by (nonlinear_arith)
            requires
                w <= 65535,
                h <= 65535,
        ;
        let n = w * h;
        assert(n > 0 ==> w > 0) by (nonlinear_arith)
            requires
                n == w * h,
        ;
        let ghost filled = out_rgba@;
        let total = out_rgba.len();
        let m = if n < total / 4 { n } else { total / 4 };
        let mut p: usize = 0;
        let mut x: usize = 0;
        let mut y: usize = 0;
        while p < m
            invariant
                n == w * h,
                w == width,
                h == height,
                m <= n,
                4 * m <= len,
                m == n || m == len / 4,
                total == len,
                p <= m,
                n > 0 ==> w > 0,
                w > 0 ==> x == (p as int) % (w as int) && y == (p as int) / (w as int),
                w > 0 ==> x < w,
                out_rgba@.len() == len,
                filled.len() == len,
                forall|i: int| 4 * p <= i < len ==> #[trigger] out_rgba@[i] == filled[i],
                forall|i: int|
                    0 <= i < 4 * p ==> #[trigger] out_rgba@[i] == (if i % 4 == 3 {
                        0xFFu8
                    } else {
                        pixel_shade(io.regs@, vram@, oam@, (i / 4) % (w as int), (i / 4) / (w as int))
                    }),
            decreases m - p,
        {
            let shade = pixel_shade_at(io, vram, oam, x, y);
            let at = 4 * p;
            out_rgba[at] = shade;
            out_rgba[at + 1] = shade;
            out_rgba[at + 2] = shade;
            out_rgba[at + 3] = 0xFF;
            proof {
                assert forall|i: int| 0 <= i < 4 * (p + 1) implies #[trigger] out_rgba@[i] == (if i % 4 == 3 {
                    0xFFu8
                } else {
                    pixel_shade(io.regs@, vram@, oam@, (i / 4) % (w as int), (i / 4) / (w as int))
                }) by {
                    if i >= 4 * p {
                        lemma_quad(p as int, i - 4 * p);
                    }
                }
                lemma_next_pixel(p as int, w as int);
            }
            p = p + 1;
            x = x + 1;
            if x == w {
                x = 0;
                y = y + 1;
            }
        }
        proof {
            assert forall|i: int| 0 <= i < len implies #[trigger] out_rgba@[i] == frame_byte(
                io.regs@,
                vram@,
                oam@,
                width as int,
                height as int,
                len,
                prev[i],
                i,
            ) by {
                if i < 4 * m {
                    lemma_quad(i / 4, i % 4);
                } else if i < 4 * (len / 4) && i < 4 * n {
                    assert(m == n);
                }
            }
        }
    }
}


impl Core {
    /// Writes the test gradient for the configured frame size into the front
    /// of `out_rgba`, then clears the frame-ready flag and the frame cycle count.
    pub fn take_frame(&mut self, out_rgba: &mut [u8])
        requires
            old(out_rgba)@.len() >= 4 * (old(self).config.frame_width * old(self).config.frame_height),
        ensures
            final(out_rgba)@.len() == old(out_rgba)@.len(),
            forall|i: int|
                0 <= i < old(out_rgba)@.len() ==> #[trigger] final(out_rgba)@[i] == gradient_byte(
                    old(self).config.frame_width as int,
                    old(self).config.frame_height as int,
                    old(out_rgba)@[i],
                    i,
                ),
            final(self)@ == (CoreView {
                ppu: PpuStub { frame_ready: false, ..old(self).ppu },
                cycles_this_frame: 0,
                ..old(self)@
            }),
    {
        let ghost prev = out_rgba@;
        let ghost len = prev.len() as int;
        let w = self.config.frame_width as usize;
        let h = self.config.frame_height as usize;
        assert(w * h <= 65535 * 65535) by (nonlinear_arith)
            requires
                w <= 65535,
                h <= 65535,
        ;
        let n = w * h;
        assert(n > 0 ==> w > 0) by (nonlinear_arith)
            requires
                n == w * h,
        ;
        let total = out_rgba.len();
        let mut p: usize = 0;
        let mut x: usize = 0;
        let mut y: usize = 0;
        while p < n
            invariant
                n == w * h,
                4 * n <= len,
                total == len,
                p <= n,
                n > 0 ==> w > 0,
                w > 0 ==> x == (p as int) % (w as int) && y == (p as int) / (w as int),
                w > 0 ==> x < w,
                out_rgba@.len() == len,
                forall|i: int| 4 * p <= i < len ==> #[trigger] out_rgba@[i] == prev[i],
                forall|i: int|
                    0 <= i < 4 * p ==> #[trigger] out_rgba@[i] == (if i % 4 == 3 {
                        0xFFu8
                    } else {
                        gradient_shade((i / 4) % (w as int), (i / 4) / (w as int))
                    }),
            decreases n - p,
        {
            let sum = (x % 256 + y % 256) % 256;
            proof {
                vstd::arithmetic::div_mod::lemma_add_mod_noop(x as int, y as int, 256);
            }
            let shade: u8 = (sum as u8).saturating_add(32);
            let at = 4 * p;
            out_rgba[at] = shade;
            out_rgba[at + 1] = shade;
            out_rgba[at + 2] = shade;
            out_rgba[at + 3] = 0xFF;
            proof {
                assert forall|i: int| 0 <= i < 4 * (p + 1) implies #[trigger] out_rgba@[i] == (if i % 4 == 3 {
                    0xFFu8
                } else {
                    gradient_shade((i / 4) % (w as int), (i / 4) / (w as int))
                }) by {
                    if i >= 4 * p {
                        lemma_quad(p as int, i - 4 * p);
                    }
                }
                lemma_next_pixel(p as int, w as int);
                lemma_fundamental_div_mod(p as int, w as int);
            }
            p = p + 1;
            x = x + 1;
            if x == w {
                x = 0;
                y = y + 1;
            }
        }
        proof {
            assert forall|i: int| 0 <= i < len implies #[trigger] out_rgba@[i] == gradient_byte(
                w as int,
                h as int,
                prev[i],
                i,
            ) by {
                if i < 4 * n {
                    lemma_quad(i / 4, i % 4);
                }
            }
        }
        self.ppu.clear_frame_ready();
        self.cycles_this_frame = 0;
    }
}

} // verus!
