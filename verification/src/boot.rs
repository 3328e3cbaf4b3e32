//! Boot animation shown when a cartridge is loaded without a boot ROM: the
//! cartridge logo is expanded into VRAM the way the DMG boot ROM does it,
//! scrolled down into place and held, one rendered frame at a time.
use vstd::prelude::*;
use vstd::arithmetic::div_mod::{lemma_fundamental_div_mod, lemma_fundamental_div_mod_converse};
use crate::bus::{io_write_spec, BusScalar, BusView};
use crate::gb_core::{Core, CoreView};
use crate::bus::IoRegs;
use crate::render::{dmg_shade, lemma_next_pixel, lemma_quad, tile_pixel};

verus! {

/// Number of logo tiles (tile 0 is blank).
pub const BOOT_TILE_COUNT: usize = 0x19;

/// Scroll steps of the logo (one line each).
pub const BOOT_SCROLL_STEPS: u16 = 100;

/// Frames the logo is held after scrolling.
pub const BOOT_PAUSE_FRAMES: u16 = 64;

/// Each bit of a nibble doubled into two adjacent bits of a byte.
pub open spec fn expand_nibble_spec(n: u8) -> u8 {
    (if n & 8 != 0 { 0xC0u8 } else { 0u8 }) | (if n & 4 != 0 { 0x30u8 } else { 0u8 }) | (if n & 2 != 0 {
        0x0Cu8
    } else {
        0u8
    }) | (if n & 1 != 0 { 0x03u8 } else { 0u8 })
}

/// The trademark glyph rows.
pub open spec fn trademark_row(k: int) -> u8 {
    if k == 0 {
        0x3C
    } else if k == 1 {
        0x42
    } else if k == 2 {
        0xB9
    } else if k == 3 {
        0xA5
    } else if k == 4 {
        0xB9
    } else if k == 5 {
        0xA5
    } else if k == 6 {
        0x42
    } else {
        0x3C
    }
}

/// VRAM after the cartridge logo (header bytes `0x104..0x134`) is expanded
/// into tiles 1..: each nibble becomes 4 bytes, its doubled bits on even
/// bytes and zeros on odd ones. A ROM shorter than the header leaves VRAM as is.
pub open spec fn logo_tiles_vram(vram: Seq<u8>, rom: Seq<u8>) -> Seq<u8> {
    Seq::new(
        vram.len(),
        |k: int|
            if rom.len() >= 0x134 && 0x10 <= k < 0x190 {
                let i = (k - 0x10) / 8;
                let j = (k - 0x10) % 8;
                if j % 2 == 1 {
                    0u8
                } else if j < 4 {
                    expand_nibble_spec(rom[0x104 + i] >> 4u8)
                } else {
                    expand_nibble_spec(rom[0x104 + i] & 0x0F)
                }
            } else {
                vram[k]
            },
    )
}

/// VRAM after the trademark glyph is written to the even bytes from `0x80D0`.
pub open spec fn trademark_vram(vram: Seq<u8>) -> Seq<u8> {
    Seq::new(
        vram.len(),
        |k: int| if 0xD0 <= k < 0xE0 && (k - 0xD0) % 2 == 0 { trademark_row((k - 0xD0) / 2) } else { vram[k] },
    )
}

/// Logo tile at row `y`, column `x` of a 32×32 tile map: tile 0x19 (the
/// trademark) at row 8 column 16, tiles 1..=12 along row 8 and 13..=24 along
/// row 9 from column 4, blank elsewhere.
pub open spec fn logo_map_cell(y: int, x: int) -> u8 {
    if y == 8 && x == 16 {
        0x19
    } else if y == 8 && 4 <= x < 16 {
        (x - 3) as u8
    } else if y == 9 && 4 <= x < 16 {
        (x + 9) as u8
    } else {
        0
    }
}

/// VRAM after the logo tile map is written to the map at `0x9800`.
pub open spec fn logo_tilemap_vram(vram: Seq<u8>) -> Seq<u8> {
    Seq::new(
        vram.len(),
        |k: int|
            if k == 0x1910 || 0x1904 <= k < 0x1910 || 0x1924 <= k < 0x1930 {
                logo_map_cell((k - 0x1800) / 32, (k - 0x1800) % 32)
            } else {
                vram[k]
            },
    )
}

/// VRAM prepared for the boot animation.
pub open spec fn boot_vram(vram: Seq<u8>, rom: Seq<u8>) -> Seq<u8> {
    logo_tilemap_vram(trademark_vram(logo_tiles_vram(vram, rom)))
}

/// Colour index of pixel `p` (row-major, 0..64) of logo tile `t` (1..=25)
/// as decoded from VRAM; tile 0 is blank.
pub open spec fn logo_tile_pixel(vram: Seq<u8>, t: int, p: int) -> u8 {
    if t == 0 {
        0
    } else {
        let off = 0x10 + (t - 1) * 16 + 2 * (p / 8);
        tile_pixel(vram[off], vram[off + 1], (7 - p % 8) as u8)
    }
}

/// Phase of the boot animation.
#[derive(Clone, Copy, Debug, PartialEq, Eq, Structural)]
pub enum BootPhase {
    /// Scrolling the logo one line every third frame.
    Scroll { remaining_steps: u16, frame_delay: u8 },
    /// Holding the logo still.
    Pause { frames_left: u16 },
    /// Finished.
    Done,
}

/// Phase and scroll after one animation frame, and whether SCY is written.
pub open spec fn advance_phase(phase: BootPhase, scy: u8) -> (BootPhase, u8, bool) {
    match phase {
        BootPhase::Scroll { remaining_steps, frame_delay } => if remaining_steps == 0 {
            (BootPhase::Pause { frames_left: 64 }, scy, false)
        } else if frame_delay == 0 {
            let s = if scy == 0 { 255u8 } else { (scy - 1) as u8 };
            let left = (remaining_steps - 1) as u16;
            if left == 0 {
                (BootPhase::Pause { frames_left: 64 }, s, true)
            } else {
                (BootPhase::Scroll { remaining_steps: left, frame_delay: 2 }, s, true)
            }
        } else {
            (BootPhase::Scroll { remaining_steps, frame_delay: (frame_delay - 1) as u8 }, scy, false)
        },
        BootPhase::Pause { frames_left } => if frames_left == 0 {
            (BootPhase::Done, 0, true)
        } else {
            (BootPhase::Pause { frames_left: (frames_left - 1) as u16 }, scy, false)
        },
        BootPhase::Done => (BootPhase::Done, scy, false),
    }
}

/// Phase after `n` animation frames.
pub open spec fn phase_after(phase: BootPhase, scy: u8, n: nat) -> BootPhase
    decreases n,
{
    if n == 0 {
        phase
    } else {
        let (p, s, _) = advance_phase(phase, scy);
        phase_after(p, s, (n - 1) as nat)
    }
}

/// Frames until the animation is done from `phase`.
pub open spec fn frames_left(phase: BootPhase) -> nat {
    match phase {
        BootPhase::Scroll { remaining_steps, frame_delay } => if remaining_steps == 0 {
            66
        } else {
            (frame_delay + 3 * remaining_steps + 63) as nat
        },
        BootPhase::Pause { frames_left } => (frames_left + 1) as nat,
        BootPhase::Done => 0,
    }
}

/// Well-formed phase: the scroll delay never exceeds two frames.
pub open spec fn phase_wf(phase: BootPhase) -> bool {
    phase matches BootPhase::Scroll { frame_delay, .. } ==> frame_delay <= 2
}

/// The boot animation finishes: from any well-formed phase it is done after
/// exactly `frames_left` frames and not a frame earlier. Started with the
/// logo scroll of 100 lines every third frame and a 64-frame hold, that is 365 frames.
pub proof fn lemma_boot_animation_finishes(phase: BootPhase, scy: u8, n: nat)
    requires
        phase_wf(phase),
    ensures
        n >= frames_left(phase) ==> phase_after(phase, scy, n) == BootPhase::Done,
        n < frames_left(phase) ==> phase_after(phase, scy, n) != BootPhase::Done,
        frames_left(BootPhase::Scroll { remaining_steps: 100, frame_delay: 2 }) == 365,
    decreases n,
{
    if n > 0 {
        let (p, s, _) = advance_phase(phase, scy);
        assert(phase_wf(p));
        lemma_boot_animation_finishes(p, s, (n - 1) as nat);
        if phase != BootPhase::Done {
            assert(frames_left(p) + 1 == frames_left(phase));
        }
    }
}

/// Boot animation state: scroll, phase, the decoded logo tiles and the tile map.
pub struct BootSequence {
    pub scy: u8,
    pub phase: BootPhase,
    pub tiles: Vec<[u8; 64]>,
    pub map: [[u8; 32]; 32],
}

/// Well-formed boot state: 26 tiles of colour indices and 32 map rows.
pub open spec fn boot_wf(b: BootSequence) -> bool {
    &&& b.tiles@.len() == BOOT_TILE_COUNT + 1
    &&& forall|t: int, p: int| 0 <= t < b.tiles@.len() && 0 <= p < 64 ==> #[trigger] b.tiles@[t]@[p] <= 3
    &&& phase_wf(b.phase)
}

/// Doubles each bit of a nibble.
fn expand_nibble(nibble: u8) -> (r: u8)
    requires
        nibble < 16,
    ensures
        r == expand_nibble_spec(nibble),
{
    let b3 = (nibble >> 3) & 1;
    let b2 = (nibble >> 2) & 1;
    let b1 = (nibble >> 1) & 1;
    let b0 = nibble & 1;
    assert(b3 <= 1 && b2 <= 1 && b1 <= 1 && b0 <= 1) by (bit_vector)
        requires
            b3 == (nibble >> 3) & 1,
            b2 == (nibble >> 2) & 1,
            b1 == (nibble >> 1) & 1,
            b0 == nibble & 1,
    ;
    let m3: u8 = b3 * 0b11;
    let m2: u8 = b2 * 0b11;
    let m1: u8 = b1 * 0b11;
    let m0: u8 = b0 * 0b11;
    let r = (m3 << 6) | (m2 << 4) | (m1 << 2) | m0;
    assert(r == expand_nibble_spec(nibble)) by (bit_vector)
        requires
            nibble < 16,
            b3 == (nibble >> 3) & 1,
            b2 == (nibble >> 2) & 1,
            b1 == (nibble >> 1) & 1,
            b0 == nibble & 1,
            m3 == b3 * 3,
            m2 == b2 * 3,
            m1 == b1 * 3,
            m0 == b0 * 3,
            r == (m3 << 6) | (m2 << 4) | (m1 << 2) | m0,
    ;
    r
}

/// Writes the expanded nibble at VRAM address `addr` as four bytes
/// (expanded, 0, expanded, 0).
fn write_logo_nibble(bus: &mut BusScalar, addr: u16, nibble: u8)
    requires
        0x8000 <= addr,
        nibble < 16,
    ensures
        addr - 0x8000 + 3 >= 0x2000 ==> final(bus)@ == old(bus)@,
        addr - 0x8000 + 3 < 0x2000 ==> final(bus)@ == (BusView {
            vram: old(bus)@.vram.update(addr - 0x8000, expand_nibble_spec(nibble)).update(addr - 0x8000 + 1, 0u8).update(
                addr - 0x8000 + 2,
                expand_nibble_spec(nibble),
            ).update(addr - 0x8000 + 3, 0u8),
            ..old(bus)@
        }),
{
    assert(nibble & 0x0F == nibble) by (bit_vector)
        requires
            nibble < 16,
    ;
    let expanded = expand_nibble(nibble & 0x0F);
    let idx = (addr - 0x8000) as usize;
    if idx + 3 >= bus.vram.len() {
        return;
    }
    bus.vram[idx] = expanded;
    bus.vram[idx + 1] = 0;
    bus.vram[idx + 2] = expanded;
    bus.vram[idx + 3] = 0;
    assert(bus@.vram =~= old(bus)@.vram.update(addr - 0x8000, expand_nibble_spec(nibble)).update(
        addr - 0x8000 + 1,
        0u8,
    ).update(addr - 0x8000 + 2, expand_nibble_spec(nibble)).update(addr - 0x8000 + 3, 0u8));
}

/// Offset `k` of the logo region lies in logo byte `(k - 0x10) / 8`.
proof fn lemma_logo_offset(i: int, j: int)
    requires
        0 <= i,
        0 <= j < 8,
    ensures
        (0x10 + 8 * i + j - 0x10) / 8 == i,
        (0x10 + 8 * i + j - 0x10) % 8 == j,
{
    lemma_fundamental_div_mod_converse(8 * i + j, 8, i, j);
}

/// Expands the cartridge logo into VRAM tiles 1.. .
fn write_logo_tiles(bus: &mut BusScalar, rom: &[u8])
    ensures
        final(bus)@ == (BusView { vram: logo_tiles_vram(old(bus)@.vram, rom@), ..old(bus)@ }),
{
    let ghost v0 = bus@.vram;
    if rom.len() >= 0x0134 {
        let mut i: usize = 0;
        while i < 48
            invariant
                i <= 48,
                rom@.len() >= 0x134,
                bus@ == (BusView { vram: bus@.vram, ..old(bus)@ }),
                bus@.vram.len() == v0.len(),
                v0.len() == 0x2000,
                forall|k: int|
                    0 <= k < v0.len() ==> #[trigger] bus@.vram[k] == if 0x10 <= k < 0x10 + 8 * i {
                        logo_tiles_vram(v0, rom@)[k]
                    } else {
                        v0[k]
                    },
            decreases 48 - i,
        {
            let byte = rom[0x104 + i];
            let addr = (0x8010 + 8 * i) as u16;
            let ghost before = bus@.vram;
            assert(byte >> 4u8 < 16 && byte & 0x0F < 16) by (bit_vector);
            write_logo_nibble(bus, addr, byte >> 4);
            write_logo_nibble(bus, addr + 4, byte & 0x0F);
            proof {
                assert forall|k: int| 0 <= k < v0.len() implies #[trigger] bus@.vram[k] == if 0x10 <= k < 0x10 + 8
                    * (i + 1) {
                    logo_tiles_vram(v0, rom@)[k]
                } else {
                    v0[k]
                } by {
                    if 0x10 + 8 * i <= k < 0x10 + 8 * (i + 1) {
                        lemma_logo_offset(i as int, k - 0x10 - 8 * i);
                    }
                }
            }
            i = i + 1;
        }
        assert(bus@.vram =~= logo_tiles_vram(v0, rom@));
    } else {
        assert(bus@.vram =~= logo_tiles_vram(v0, rom@));
    }
}

/// Trademark glyph row `k`.
fn trademark_byte(k: usize) -> (r: u8)
    ensures
        r == trademark_row(k as int),
{
    if k == 0 {
        0x3C
    } else if k == 1 {
        0x42
    } else if k == 2 {
        0xB9
    } else if k == 3 {
        0xA5
    } else if k == 4 {
        0xB9
    } else if k == 5 {
        0xA5
    } else if k == 6 {
        0x42
    } else {
        0x3C
    }
}

/// Writes the trademark glyph into tile `0x0D`.
fn write_trademark_tile(bus: &mut BusScalar)
    ensures
        final(bus)@ == (BusView { vram: trademark_vram(old(bus)@.vram), ..old(bus)@ }),
{
    let ghost v0 = bus@.vram;
    let mut k: usize = 0;
    while k < 8
        invariant
            k <= 8,
            bus@ == (BusView { vram: bus@.vram, ..old(bus)@ }),
            bus@.vram.len() == 0x2000,
            v0.len() == 0x2000,
            forall|i: int|
                0 <= i < 0x2000 ==> #[trigger] bus@.vram[i] == if 0xD0 <= i < 0xD0 + 2 * k && (i - 0xD0) % 2 == 0 {
                    trademark_row((i - 0xD0) / 2)
                } else {
                    v0[i]
                },
        decreases 8 - k,
    {
        let idx = 0xD0 + 2 * k;
        bus.vram[idx] = trademark_byte(k);
        proof {
            assert forall|i: int| 0 <= i < 0x2000 implies #[trigger] bus@.vram[i] == if 0xD0 <= i < 0xD0 + 2 * (k
                + 1) && (i - 0xD0) % 2 == 0 {
                trademark_row((i - 0xD0) / 2)
            } else {
                v0[i]
            } by {
                if i == idx {
                    lemma_fundamental_div_mod_converse(i - 0xD0, 2, k as int, 0);
                } else if 0xD0 <= i < 0xD0 + 2 * (k + 1) && i >= 0xD0 + 2 * k {
                    lemma_fundamental_div_mod_converse(i - 0xD0, 2, k as int, 1);
                }
            }
        }
        k = k + 1;
    }
    assert(bus@.vram =~= trademark_vram(v0));
}

/// Writes the logo tile map: the trademark tile on row 8, then tiles 24
/// down to 13 along row 9 and 12 down to 1 along row 8, right to left.
fn write_logo_tilemap(bus: &mut BusScalar)
    ensures
        final(bus)@ == (BusView { vram: logo_tilemap_vram(old(bus)@.vram), ..old(bus)@ }),
{
    let ghost v0 = bus@.vram;
    bus.vram[0x1910] = 0x19;
    let mut k: usize = 12;
    while k > 0
        invariant
            k <= 12,
            bus@ == (BusView { vram: bus@.vram, ..old(bus)@ }),
            bus@.vram.len() == 0x2000,
            v0.len() == 0x2000,
            forall|i: int|
                0 <= i < 0x2000 ==> #[trigger] bus@.vram[i] == if i == 0x1910 {
                    0x19u8
                } else if 0x1924 + k <= i < 0x1930 {
                    (i - 0x1924 + 0x0D) as u8
                } else if 0x1904 + k <= i < 0x1910 {
                    (i - 0x1904 + 1) as u8
                } else {
                    v0[i]
                },
        decreases k,
    {
        k = k - 1;
        bus.vram[0x1924 + k] = (0x0D + k) as u8;
        bus.vram[0x1904 + k] = (1 + k) as u8;
    }
    assert forall|i: int| 0 <= i < 0x2000 implies #[trigger] bus@.vram[i] == logo_tilemap_vram(v0)[i] by {
        if 0x1900 <= i < 0x1920 {
            lemma_fundamental_div_mod_converse(i - 0x1800, 32, 8, i - 0x1900);
        } else if 0x1920 <= i < 0x1930 {
            lemma_fundamental_div_mod_converse(i - 0x1800, 32, 9, i - 0x1920);
        }
    }
    assert(bus@.vram =~= logo_tilemap_vram(v0));
}

/// Prepares VRAM for the boot animation: logo tiles, trademark, tile map.
fn prepare_boot_vram(bus: &mut BusScalar, rom: &[u8])
    ensures
        final(bus)@ == (BusView { vram: boot_vram(old(bus)@.vram, rom@), ..old(bus)@ }),
{
    write_logo_tiles(bus, rom);
    write_trademark_tile(bus);
    write_logo_tilemap(bus);
}

/// Decodes logo tiles 1..=25 from VRAM into colour indices (tile 0 blank).
fn capture_logo_tiles(bus: &BusScalar) -> (r: Vec<[u8; 64]>)
    ensures
        r@.len() == BOOT_TILE_COUNT + 1,
        forall|t: int, p: int| 0 <= t < r@.len() && 0 <= p < 64 ==> #[trigger] r@[t]@[p] == logo_tile_pixel(bus@.vram, t, p),
        forall|t: int, p: int| 0 <= t < r@.len() && 0 <= p < 64 ==> #[trigger] r@[t]@[p] <= 3,
{
    let mut tiles: Vec<[u8; 64]> = Vec::new();
    tiles.push([0u8; 64]);
    let mut t: usize = 1;
    while t <= BOOT_TILE_COUNT
        invariant
            1 <= t <= BOOT_TILE_COUNT + 1,
            tiles@.len() == t,
            bus@.vram.len() == 0x2000,
            forall|u: int, p: int| 0 <= u < t && 0 <= p < 64 ==> #[trigger] tiles@[u]@[p] == logo_tile_pixel(bus@.vram, u, p),
            forall|u: int, p: int| 0 <= u < t && 0 <= p < 64 ==> #[trigger] tiles@[u]@[p] <= 3,
        decreases BOOT_TILE_COUNT + 1 - t,
    {
        let offset = 0x10 + (t - 1) * 16;
        let mut tile = [0u8; 64];
        let mut p: usize = 0;
        while p < 64
            invariant
                0 <= p <= 64,
                1 <= t <= BOOT_TILE_COUNT,
                offset == 0x10 + (t - 1) * 16,
                bus@.vram.len() == 0x2000,
                forall|q: int| 0 <= q < p ==> #[trigger] tile@[q] == logo_tile_pixel(bus@.vram, t as int, q),
                forall|q: int| 0 <= q < p ==> #[trigger] tile@[q] <= 3,
            decreases 64 - p,
        {
            let row = p / 8;
            let col = p % 8;
            let lo = bus.vram[offset + row * 2];
            let hi = bus.vram[offset + row * 2 + 1];
            let bit = (7 - col) as u8;
            let color = crate::render::tile_pixel_at(lo, hi, bit);
            tile[p] = color;
            p = p + 1;
        }
        tiles.push(tile);
        t = t + 1;
    }
    tiles
}

/// The 32×32 logo tile map.
fn build_logo_map() -> (r: [[u8; 32]; 32])
    ensures
        forall|y: int, x: int| 0 <= y < 32 && 0 <= x < 32 ==> #[trigger] r@[y]@[x] == logo_map_cell(y, x),
{
    let mut map = [[0u8; 32]; 32];
    let mut row8 = [0u8; 32];
    let mut row9 = [0u8; 32];
    row8[16] = 0x19;
    let mut k: usize = 0;
    while k < 12
        invariant
            k <= 12,
            forall|x: int| 0 <= x < 32 ==> #[trigger] row8@[x] == if x == 16 {
                0x19u8
            } else if 4 <= x < 4 + k {
                (x - 3) as u8
            } else {
                0u8
            },
            forall|x: int| 0 <= x < 32 ==> #[trigger] row9@[x] == if 4 <= x < 4 + k {
                (x + 9) as u8
            } else {
                0u8
            },
        decreases 12 - k,
    {
        row8[4 + k] = (1 + k) as u8;
        row9[4 + k] = (13 + k) as u8;
        k = k + 1;
    }
    map[8] = row8;
    map[9] = row9;
    map
}

/// Tiles as sequences of colour indices.
pub open spec fn tiles_view(t: Seq<[u8; 64]>) -> Seq<Seq<u8>> {
    Seq::new(t.len(), |i: int| t[i]@)
}

/// Tile map as rows of tile numbers.
pub open spec fn map_view(m: [[u8; 32]; 32]) -> Seq<Seq<u8>> {
    Seq::new(32, |y: int| m@[y]@)
}

/// The 26 logo tiles as decoded from VRAM.
pub open spec fn logo_tiles_of(vram: Seq<u8>) -> Seq<Seq<u8>> {
    Seq::new(26, |t: int| Seq::new(64, |p: int| logo_tile_pixel(vram, t, p)))
}

/// The logo tile map.
pub open spec fn logo_map() -> Seq<Seq<u8>> {
    Seq::new(32, |y: int| Seq::new(32, |x: int| logo_map_cell(y, x)))
}

/// Grey level of screen pixel (`x`, `y`) of the boot frame: the logo map
/// scrolled by `scy`, tiles past the end blank.
pub open spec fn boot_pixel_shade(scy: u8, tiles: Seq<Seq<u8>>, map: Seq<Seq<u8>>, x: int, y: int) -> u8 {
    let bg_y = (y + scy) % 256;
    let tile_id = map[(bg_y / 8) % 32][(x / 8) % 32];
    let color = if tile_id < tiles.len() { tiles[tile_id as int][(bg_y % 8) * 8 + x % 8] } else { 0u8 };
    dmg_shade(color)
}

/// Byte `i` of a buffer (formerly `prev`) after a 160×144 boot frame is rendered.
pub open spec fn boot_frame_byte(scy: u8, tiles: Seq<Seq<u8>>, map: Seq<Seq<u8>>, prev: u8, i: int) -> u8 {
    if i >= 4 * (160 * 144) {
        prev
    } else if i % 4 == 3 {
        0xFF
    } else {
        boot_pixel_shade(scy, tiles, map, (i / 4) % 160, (i / 4) / 160)
    }
}

/// Renders a 160×144 RGBA frame of the scrolled logo.
fn render_boot_frame(buf: &mut [u8], scy: u8, tiles: &Vec<[u8; 64]>, map: &[[u8; 32]; 32])
    requires
        old(buf)@.len() >= 4 * (160 * 144),
        forall|t: int, p: int| 0 <= t < tiles@.len() && 0 <= p < 64 ==> #[trigger] tiles@[t]@[p] <= 3,
    ensures
        final(buf)@.len() == old(buf)@.len(),
        forall|i: int|
            0 <= i < old(buf)@.len() ==> #[trigger] final(buf)@[i] == boot_frame_byte(scy, tiles_view(tiles@), map_view(*map), old(buf)@[i], i),
{
    let ghost prev = buf@;
    let ghost len = prev.len() as int;
    let n: usize = 160 * 144;
    let total = buf.len();
    let mut p: usize = 0;
    let mut x: usize = 0;
    let mut y: usize = 0;
    while p < n
        invariant
            n == 160 * 144,
            4 * n <= len,
            total == len,
            p <= n,
            x == (p as int) % 160 && y == (p as int) / 160,
            x < 160,
            buf@.len() == len,
            forall|t: int, q: int| 0 <= t < tiles@.len() && 0 <= q < 64 ==> #[trigger] tiles@[t]@[q] <= 3,
            forall|i: int| 4 * p <= i < len ==> #[trigger] buf@[i] == prev[i],
            forall|i: int|
                0 <= i < 4 * p ==> #[trigger] buf@[i] == (if i % 4 == 3 {
                    0xFFu8
                } else {
                    boot_pixel_shade(scy, tiles_view(tiles@), map_view(*map), (i / 4) % 160, (i / 4) / 160)
                }),
        decreases n - p,
    {
        proof {
            lemma_fundamental_div_mod(p as int, 160);
        }
        let sum: usize = y + scy as usize;
        let bg_y = sum & 0xFF;
        assert(bg_y == sum % 256) by (bit_vector)
            requires
                bg_y == sum & 0xFF,
        ;
        let tile_row = (bg_y / 8) % 32;
        let tile_y = bg_y % 8;
        let tile_col = (x / 8) % 32;
        let tile_x = x % 8;
        let tile_id = map[tile_row][tile_col] as usize;
        let color: u8 = if tile_id < tiles.len() { tiles[tile_id][tile_y * 8 + tile_x] } else { 0 };
        let shade = if color == 0 {
            0xFFu8
        } else if color == 1 {
            0xAAu8
        } else if color == 2 {
            0x55u8
        } else {
            0x00u8
        };
        let at = 4 * p;
        buf[at] = shade;
        buf[at + 1] = shade;
        buf[at + 2] = shade;
        buf[at + 3] = 0xFF;
        proof {
            assert forall|i: int| 0 <= i < 4 * (p + 1) implies #[trigger] buf@[i] == (if i % 4 == 3 {
                0xFFu8
            } else {
                boot_pixel_shade(scy, tiles_view(tiles@), map_view(*map), (i / 4) % 160, (i / 4) / 160)
            }) by {
                if i >= 4 * p {
                    lemma_quad(p as int, i - 4 * p);
                }
            }
            lemma_next_pixel(p as int, 160);
        }
        p = p + 1;
        x = x + 1;
        if x == 160 {
            x = 0;
            y = y + 1;
        }
    }
    proof {
        assert forall|i: int| 0 <= i < len implies #[trigger] buf@[i] == boot_frame_byte(scy, tiles_view(tiles@), map_view(*map), prev[i], i) by {
            if i < 4 * n {
                lemma_quad(i / 4, i % 4);
            }
        }
    }
}

impl BootSequence {
    /// Prepares VRAM and the palette for the boot animation from the
    /// cartridge header and starts the logo scroll.
    pub fn new(core: &mut Core, rom: &[u8]) -> (r: Self)
        ensures
            final(core)@ == (CoreView {
                bus: BusView {
                    vram: boot_vram(old(core)@.bus.vram, rom@),
                    io: io_write_spec(io_write_spec(old(core)@.bus.io, 0x47, 0xFC), 0x42, 0x00),
                    ..old(core)@.bus
                },
                ..old(core)@
            }),
            r.scy == 0,
            r.phase == (BootPhase::Scroll { remaining_steps: 100, frame_delay: 2 }),
            forall|t: int, p: int|
                0 <= t < r.tiles@.len() && 0 <= p < 64 ==> #[trigger] r.tiles@[t]@[p] == logo_tile_pixel(
                    final(core)@.bus.vram,
                    t,
                    p,
                ),
            forall|y: int, x: int| 0 <= y < 32 && 0 <= x < 32 ==> #[trigger] r.map@[y]@[x] == logo_map_cell(y, x),
            tiles_view(r.tiles@) == logo_tiles_of(final(core)@.bus.vram),
            map_view(r.map) == logo_map(),
            boot_wf(r),
    {
        prepare_boot_vram(&mut core.bus, rom);
        core.bus.io.write(IoRegs::BGP, 0xFC);
        core.bus.io.write(IoRegs::SCY, 0x00);
        let tiles = capture_logo_tiles(&core.bus);
        let map = build_logo_map();
        assert(tiles_view(tiles@) =~= logo_tiles_of(core@.bus.vram)) by {
            assert forall|t: int| 0 <= t < 26 implies #[trigger] tiles_view(tiles@)[t] =~= logo_tiles_of(core@.bus.vram)[t] by {
                assert forall|p: int| 0 <= p < 64 implies tiles_view(tiles@)[t][p] == logo_tiles_of(core@.bus.vram)[t][p] by {
                    assert(tiles@[t]@[p] == logo_tile_pixel(core@.bus.vram, t, p));
                }
            }
        }
        assert(map_view(map) =~= logo_map()) by {
            assert forall|y: int| 0 <= y < 32 implies #[trigger] map_view(map)[y] =~= logo_map()[y] by {
                assert forall|x: int| 0 <= x < 32 implies map_view(map)[y][x] == logo_map()[y][x] by {
                    assert(map@[y]@[x] == logo_map_cell(y, x));
                }
            }
        }
        BootSequence {
            scy: 0,
            phase: BootPhase::Scroll { remaining_steps: BOOT_SCROLL_STEPS, frame_delay: 2 },
            tiles,
            map,
        }
    }

    /// Boot animation does not consume CPU cycles: the whole budget is reported used.
    pub fn step(&mut self, budget: u32) -> (r: u32)
        ensures
            r == budget,
            *final(self) == *old(self),
    {
        budget
    }

    /// Advances the animation by one frame, writing SCY when the scroll moves.
    pub fn advance(&mut self, core: &mut Core)
        requires
            phase_wf(old(self).phase),
        ensures
            ({
                let (p, s, w) = advance_phase(old(self).phase, old(self).scy);
                &&& final(self).phase == p
                &&& final(self).scy == s
                &&& final(self).tiles == old(self).tiles
                &&& final(self).map == old(self).map
                &&& final(core)@ == if w {
                    CoreView { bus: BusView { io: io_write_spec(old(core)@.bus.io, 0x42, s), ..old(core)@.bus }, ..old(core)@ }
                } else {
                    old(core)@
                }
            }),
            phase_wf(final(self).phase),
    {
        match self.phase {
            BootPhase::Scroll { remaining_steps, frame_delay } => {
                if remaining_steps == 0 {
                    self.phase = BootPhase::Pause { frames_left: BOOT_PAUSE_FRAMES };
                    return;
                }
                if frame_delay == 0 {
                    self.scy = self.scy.wrapping_sub(1);
                    core.bus.io.write(IoRegs::SCY, self.scy);
                    let left = remaining_steps - 1;
                    if left == 0 {
                        self.phase = BootPhase::Pause { frames_left: BOOT_PAUSE_FRAMES };
                    } else {
                        self.phase = BootPhase::Scroll { remaining_steps: left, frame_delay: 2 };
                    }
                } else {
                    self.phase = BootPhase::Scroll { remaining_steps, frame_delay: frame_delay - 1 };
                }
            },
            BootPhase::Pause { frames_left } => {
                if frames_left == 0 {
                    self.scy = 0;
                    core.bus.io.write(IoRegs::SCY, 0x00);
                    self.phase = BootPhase::Done;
                } else {
                    self.phase = BootPhase::Pause { frames_left: frames_left - 1 };
                }
            },
            BootPhase::Done => {},
        }
    }

    /// Renders the current animation frame, advances the animation and
    /// reports whether it has finished.
    pub fn render(&mut self, core: &mut Core, buf: &mut [u8]) -> (r: bool)
        requires
            boot_wf(*old(self)),
            old(buf)@.len() >= 4 * (160 * 144),
        ensures
            final(buf)@.len() == old(buf)@.len(),
            forall|i: int|
                0 <= i < old(buf)@.len() ==> #[trigger] final(buf)@[i] == boot_frame_byte(
                    old(self).scy,
                    tiles_view(old(self).tiles@),
                    map_view(old(self).map),
                    old(buf)@[i],
                    i,
                ),
            ({
                let (p, s, w) = advance_phase(old(self).phase, old(self).scy);
                &&& final(self).phase == p
                &&& final(self).scy == s
                &&& final(core)@ == if w {
                    CoreView { bus: BusView { io: io_write_spec(old(core)@.bus.io, 0x42, s), ..old(core)@.bus }, ..old(core)@ }
                } else {
                    old(core)@
                }
                &&& r == (p == BootPhase::Done)
            }),
            final(self).tiles == old(self).tiles,
            final(self).map == old(self).map,
            boot_wf(*final(self)),
    {
        render_boot_frame(buf, self.scy, &self.tiles, &self.map);
        self.advance(core);
        match self.phase {
            BootPhase::Done => true,
            _ => false,
        }
    }
}

} // verus!
