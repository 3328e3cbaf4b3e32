//! Properties of the peripherals as the CPU sees them: sprite flipping, the
//! timer rate selected by TAC, MBC1 ROM banking and the inspector snapshot.
use vstd::prelude::*;
use crate::bus::{rom_bank_count_spec, select_rom_bank, BusView};
use crate::exec::flags_byte;
use crate::gb_core::CoreView;
use crate::instance::snapshot_of;
use crate::mmu::{read8_view, write8_view};
use crate::timers::{apply_div_view, advance_tima_view, run_timers_view, tac_of, tac_trigger_mask, TimaState, Timers};
use crate::render::{map_pixel, sprite_col, sprite_color, sprite_height, sprite_row};

verus! {

/// Attribute bit 5 mirrors a sprite horizontally: with the bit set, the
/// sprite shows at sprite column `col` the colour the unflipped sprite shows
/// at column `7 - col` (same tile, line and palette).
pub proof fn lemma_sprite_x_flip_mirrors(
    regs: Seq<u8>,
    vram: Seq<u8>,
    oam: Seq<u8>,
    k: int,
    x: int,
    x2: int,
    y: int,
)
    requires
        0 <= k < 40,
        oam.len() == 0xA0,
        oam[4 * k + 3] & 0x20 == 0,
        sprite_col(oam, k, x) < 8,
        sprite_col(oam, k, x) + sprite_col(oam, k, x2) == 7,
    ensures
        sprite_color(regs, vram, oam.update(4 * k + 3, oam[4 * k + 3] | 0x20), k, x, y)
            == sprite_color(regs, vram, oam, k, x2, y),
        sprite_row(oam.update(4 * k + 3, oam[4 * k + 3] | 0x20), k, y) == sprite_row(oam, k, y),
{
    let attrs = oam[4 * k + 3];
    let flipped = oam.update(4 * k + 3, attrs | 0x20);
    assert((attrs | 0x20) & 0x20 != 0 && ((attrs | 0x20) & 0x40 != 0) == (attrs & 0x40 != 0)) by (bit_vector);
    assert(flipped[4 * k] == oam[4 * k]);
    assert(flipped[4 * k + 1] == oam[4 * k + 1]);
    assert(flipped[4 * k + 2] == oam[4 * k + 2]);
    assert(flipped[4 * k + 3] == attrs | 0x20);
}

/// Attribute bit 6 mirrors a sprite vertically: with the bit set, the sprite
/// shows on its line `r` what the unflipped sprite shows on line
/// `height - 1 - r` (8 or 16 lines, as LCDC bit 2 selects).
pub proof fn lemma_sprite_y_flip_mirrors(
    regs: Seq<u8>,
    vram: Seq<u8>,
    oam: Seq<u8>,
    k: int,
    x: int,
    y: int,
    y2: int,
)
    requires
        0 <= k < 40,
        oam.len() == 0xA0,
        oam[4 * k + 3] & 0x40 == 0,
        sprite_row(oam, k, y) < sprite_height(regs[0x40]),
        sprite_row(oam, k, y) + sprite_row(oam, k, y2) == sprite_height(regs[0x40]) - 1,
    ensures
        sprite_color(regs, vram, oam.update(4 * k + 3, oam[4 * k + 3] | 0x40), k, x, y)
            == sprite_color(regs, vram, oam, k, x, y2),
{
    let attrs = oam[4 * k + 3];
    let flipped = oam.update(4 * k + 3, attrs | 0x40);
    assert((attrs | 0x40) & 0x40 != 0 && ((attrs | 0x40) & 0x20 != 0) == (attrs & 0x20 != 0)) by (bit_vector);
    assert(flipped[4 * k] == oam[4 * k]);
    assert(flipped[4 * k + 1] == oam[4 * k + 1]);
    assert(flipped[4 * k + 2] == oam[4 * k + 2]);
    assert(flipped[4 * k + 3] == attrs | 0x40);
}

/// An unflipped 8-line sprite decodes its tile exactly as the background
/// does in unsigned tile mode: at sprite column `c` and line `r` it shows the
/// colour the background shows at a map position whose tile entry is the
/// sprite's tile, `c` columns and `r` lines into that tile (so its leftmost
/// column is the tile row's most significant bit).
pub proof fn lemma_sprite_decodes_like_background(
    regs: Seq<u8>,
    vram: Seq<u8>,
    oam: Seq<u8>,
    k: int,
    x: int,
    y: int,
    high_map: bool,
    mx: int,
    my: int,
)
    requires
        0 <= k < 40,
        oam.len() == 0xA0,
        vram.len() == 0x2000,
        regs.len() == 0x80,
        regs[0x40] & 0x04 == 0,
        oam[4 * k + 3] & 0x60 == 0,
        sprite_col(oam, k, x) < 8,
        sprite_row(oam, k, y) < 8,
        0 <= mx < 256,
        0 <= my < 256,
        mx % 8 == sprite_col(oam, k, x),
        my % 8 == sprite_row(oam, k, y),
        vram[(if high_map { 0x1C00int } else { 0x1800int }) + (my / 8) * 32 + mx / 8] == oam[4 * k + 2],
    ensures
        sprite_color(regs, vram, oam, k, x, y) == map_pixel(vram, high_map, true, mx, my),
{
    let attrs = oam[4 * k + 3];
    assert(attrs & 0x60 == 0 ==> attrs & 0x40 == 0 && attrs & 0x20 == 0) by (bit_vector);
    let tile = oam[4 * k + 2];
    let row = sprite_row(oam, k, y);
    let col = sprite_col(oam, k, x);
    let map_addr = (if high_map { 0x9C00int } else { 0x9800int }) + (my / 8) * 32 + mx / 8;
    assert(vram[map_addr - 0x8000] == tile);
    assert(crate::render::tile_row_addr(true, tile, my % 8) == 0x8000 + tile * 16 + row * 2);
    assert(crate::render::sprite_height(regs[0x40]) == 8);
}

/// MBC1 ROM banking: writing a bank number `n` (the low 5 bits of the value,
/// 0 meaning 1) to `0x2000..=0x3FFF` maps ROM bank `n` at `0x4000..=0x7FFF`,
/// so reading `0x4000 + i` gives ROM byte `n * 0x4000 + i`, while the fixed
/// bank at `0x0000..=0x3FFF` reads as before.
pub proof fn lemma_mbc1_bank_select(b: BusView, addr: u16, value: u8, i: u16, j: u16)
    requires
        0x2000 <= addr <= 0x3FFF,
        i < 0x4000,
        j < 0x4000,
        (if value & 0x1F == 0 { 1int } else { (value & 0x1F) as int }) * 0x4000 + i < b.rom.len(),
    ensures
        ({
            let n: int = if value & 0x1F == 0 { 1 } else { (value & 0x1F) as int };
            &&& read8_view(write8_view(b, addr, value), (0x4000 + i) as u16) == b.rom[n * 0x4000 + i]
            &&& read8_view(write8_view(b, addr, value), j) == read8_view(b, j)
        }),
{
    let v = (value & 0x1F) as int;
    let n: int = if v == 0 { 1 } else { v };
    assert(value & 0x1F < 32) by (bit_vector);
    let count = rom_bank_count_spec(b.rom.len());
    assert(count >= n + 1);
    vstd::arithmetic::div_mod::lemma_small_mod(v as nat, count);
    assert(select_rom_bank(b.rom.len(), v) == n);
}

/// Every register field of the inspector snapshot is the register it names:
/// the PPU and timer fields are what a CPU read of `0xFF40` (LCDC), `0xFF41`
/// (STAT), `0xFF42` (SCY), `0xFF43` (SCX), `0xFF44` (LY, without a lockstep
/// override), `0xFF47` (BGP), `0xFF4A` (WY), `0xFF4B` (WX) and
/// `0xFF04..=0xFF07` (DIV, TIMA, TMA, TAC) gives, the mode is the low two
/// STAT bits, and the CPU fields are the core's registers.
pub proof fn lemma_snapshot_fields_name_registers(c: CoreView)
    requires
        c.bus.io.len() == 0x80,
    ensures
        ({
            let (cpu, ppu, timers, io) = snapshot_of(c);
            &&& ppu.lcdc == read8_view(c.bus, 0xFF40) && ppu.lcdc == c.bus.io[0x40]
            &&& ppu.stat == read8_view(c.bus, 0xFF41) && ppu.stat == c.bus.io[0x41]
            &&& ppu.scy == read8_view(c.bus, 0xFF42) && ppu.scy == c.bus.io[0x42]
            &&& ppu.scx == read8_view(c.bus, 0xFF43) && ppu.scx == c.bus.io[0x43]
            &&& ppu.ly == c.bus.io[0x44]
            &&& (c.bus.lockstep_ly_override is None ==> ppu.ly == read8_view(c.bus, 0xFF44))
            &&& ppu.bgp == read8_view(c.bus, 0xFF47) && ppu.bgp == c.bus.io[0x47]
            &&& ppu.wy == read8_view(c.bus, 0xFF4A) && ppu.wy == c.bus.io[0x4A]
            &&& ppu.wx == read8_view(c.bus, 0xFF4B) && ppu.wx == c.bus.io[0x4B]
            &&& ppu.mode == c.bus.io[0x41] & 0x03
            &&& ppu.frame_ready == c.ppu.frame_ready
            &&& timers.div == read8_view(c.bus, 0xFF04)
            &&& timers.tima == read8_view(c.bus, 0xFF05)
            &&& timers.tma == read8_view(c.bus, 0xFF06)
            &&& timers.tac == read8_view(c.bus, 0xFF07)
            &&& cpu.a == c.cpu.a && cpu.f == flags_byte(c.cpu.f)
            &&& cpu.b == c.cpu.b && cpu.c == c.cpu.c && cpu.d == c.cpu.d && cpu.e == c.cpu.e
            &&& cpu.h == c.cpu.h && cpu.l == c.cpu.l && cpu.sp == c.cpu.sp && cpu.pc == c.cpu.pc
            &&& cpu.ime == c.cpu.ime && cpu.halted == c.cpu.halted
            &&& io == c.bus.io
        }),
{
}

/// TIMA input period in CPU cycles for a TAC value: clock select 0, 1, 2, 3
/// gives 4096, 262144, 65536 and 16384 Hz, that is one tick every 1024, 16,
/// 64 and 256 cycles of the 4194304 Hz clock.
pub open spec fn tima_period(tac: u8) -> int {
    if tac & 0x03 == 0 {
        1024
    } else if tac & 0x03 == 1 {
        16
    } else if tac & 0x03 == 2 {
        64
    } else {
        256
    }
}

/// How many multiples of `p` lie in `(d, d + n]`.
pub open spec fn multiples_crossed(d: int, n: int, p: int) -> int {
    (d + n) / p - d / p
}

/// One step of at most 4 cycles clocks TIMA (a falling edge of the selected
/// divider bit) exactly when the divider crosses a multiple of the period.
proof fn lemma_step_edge(d: u16, s: u16, tac: u8)
    requires
        1 <= s <= 4,
    ensures
        ((d & !(((d + s) % 65536) as u16)) & tac_trigger_mask(tac) != 0) == ((d + s) / tima_period(tac)
            != (d as int) / tima_period(tac)),
{
    let new = ((d + s) % 65536) as u16;
    lemma_edge_bits(d as u32, s as u32, new as u32);
    assert((d & !new) as u32 == (d as u32) & !(new as u32) & 0xFFFF) by (bit_vector);
    assert(tac_trigger_mask(tac) as u32 == (if tac & 0x03 == 0 { 0x200u32 } else if tac & 0x03 == 1 { 0x08u32 } else if tac & 0x03 == 2 { 0x20u32 } else { 0x80u32 }));
    assert(((d & !new) & tac_trigger_mask(tac) != 0) == (((d & !new) as u32) & (tac_trigger_mask(tac) as u32) != 0)) by (bit_vector);
}

/// The bit arithmetic behind `lemma_step_edge`.
proof fn lemma_edge_bits(d: u32, s: u32, new: u32)
    by (bit_vector)
    requires
        d < 65536,
        1 <= s <= 4,
        new == (d + s) % 65536,
    ensures
        ((d & !new & 0xFFFF) & 0x200 != 0) == ((d + s) / 1024 != d / 1024),
        ((d & !new & 0xFFFF) & 0x08 != 0) == ((d + s) / 16 != d / 16),
        ((d & !new & 0xFFFF) & 0x20 != 0) == ((d + s) / 64 != d / 64),
        ((d & !new & 0xFFFF) & 0x80 != 0) == ((d + s) / 256 != d / 256),
{
}

/// With the timer enabled in TAC and no overflow on the way, TIMA counts the
/// selected input clock: over `n` cycles it grows by the number of multiples
/// of the TAC-selected period (1024, 16, 64 or 256 cycles) that the divider
/// counter passes, the pipeline stays idle, and TAC is left as it was.
#[verifier::spinoff_prover]
#[verifier::rlimit(40)]
pub proof fn lemma_tima_counts_selected_rate(t: Timers, b: BusView, n: nat)
    requires
        b.io.len() == 0x80,
        t.tima_state == TimaState::Running,
        b.io[0x07] & 0x04 != 0,
        b.io[0x05] + multiples_crossed(t.div_counter as int, n as int, tima_period(b.io[0x07])) <= 0xFF,
    ensures
        run_timers_view(t, b, n).1.io.len() == 0x80,
        run_timers_view(t, b, n).1.io[0x05] == b.io[0x05] + multiples_crossed(
            t.div_counter as int,
            n as int,
            tima_period(b.io[0x07]),
        ),
        run_timers_view(t, b, n).1.io[0x07] == b.io[0x07],
        run_timers_view(t, b, n).0.tima_state == TimaState::Running,
    decreases n,
{
    let p = tima_period(b.io[0x07]);
    let d = t.div_counter;
    if n > 0 {
        let step: u32 = if n < 4 { n as u32 } else { 4 };
        let (t1, b1) = advance_tima_view(t, b, step);
        assert(t1 == t && b1 == b);
        let (t2, b2) = apply_div_view(t1, b1, step as u16);
        let new = ((d + step) % 65536) as u16;
        let tac = tac_of(BusView { io: b.io.update(0x04, (new >> 8u16) as u8), ..b });
        let raw = b.io[0x07];
        assert(tac == raw | 0xF8);
        assert((raw | 0xF8) & 0x04 == raw & 0x04 && (raw | 0xF8) & 0x03 == raw & 0x03) by (bit_vector);
        assert(tima_period(tac) == p);
        lemma_step_edge(d, step as u16, tac);
        let crossed: bool = (d + step) / p != (d as int) / p;
        assert(p == 16 || p == 64 || p == 256 || p == 1024);
        assert(multiples_crossed(d as int, step as int, p) == if crossed { 1int } else { 0 }) by {
            assert((d + step) / p <= (d as int) / p + 1) by (nonlinear_arith)
                requires
                    p >= 16,
                    0 <= step <= 4,
                    d >= 0,
            ;
            assert((d + step) / p >= (d as int) / p) by (nonlinear_arith)
                requires
                    p >= 16,
                    0 <= step,
                    d >= 0,
            ;
        }
        assert(b2.io[0x05] == b.io[0x05] + (if crossed { 1int } else { 0 }));
        assert(b2.io[0x07] == raw);
        assert(t2.div_counter == new);
        assert(t2.tima_state == TimaState::Running);
        lemma_crossings_wrap(d as int, step as int, (n - step) as int, p);
        lemma_tima_counts_selected_rate(t2, b2, (n - step) as nat);
    }
}

/// Splitting a run at a step of `s` cycles, with the divider wrapping at
/// 65536 (a multiple of every period), keeps the count of crossings.
proof fn lemma_crossings_wrap(d: int, s: int, m: int, p: int)
    requires
        0 <= d < 65536,
        0 <= s <= 4,
        0 <= m,
        p == 16 || p == 64 || p == 256 || p == 1024,
    ensures
        multiples_crossed(d, s + m, p) == multiples_crossed(d, s, p) + multiples_crossed((d + s) % 65536, m, p),
{
    if d + s >= 65536 {
        assert((d + s) % 65536 == d + s - 65536);
        assert((d + s - 65536 + m) / p == (d + s + m) / p - 65536int / p) by (nonlinear_arith)
            requires
                p == 16 || p == 64 || p == 256 || p == 1024,
        ;
        assert((d + s - 65536) / p == (d + s) / p - 65536int / p) by (nonlinear_arith)
            requires
                p == 16 || p == 64 || p == 256 || p == 1024,
        ;
    } else {
        assert((d + s) % 65536 == d + s);
    }
}

} // verus!
