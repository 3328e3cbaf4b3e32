//! Scanline-timing PPU: LY/STAT bookkeeping, mode transitions, LCD on/off
//! handling, STAT and VBlank interrupts, and a frame renderer.
use vstd::prelude::*;
use crate::bus::{if_store, io_read_spec, io_write_spec, BusScalar, BusView, IoRegs};
use crate::bus_simd::BusSimd;

verus! {

/// Total CPU cycles per frame on the DMG.
pub const CYCLES_PER_FRAME: u32 = 70224;

/// Minimal PPU that models scanline timings, IO state, and interrupts.
#[derive(Clone, Copy, Debug, PartialEq, Eq)]
pub struct PpuStub {
    /// Dot position within the active scanline.
    pub dot_in_line: u32,
    /// Current scanline.
    pub ly: u8,
    /// Current PPU mode (0-3).
    pub mode: u8,
    /// Whether LY matched LYC at the last check.
    pub lyc_equal: bool,
    /// Latched frame-ready flag.
    pub frame_ready: bool,
    /// Whether the LCD controller was enabled at the last step.
    pub lcd_was_on: bool,
}

/// PPU state after a reset.
pub open spec fn ppu_initial() -> PpuStub {
    PpuStub {
        dot_in_line: 0,
        ly: 0,
        mode: 0,
        lyc_equal: false,
        frame_ready: false,
        lcd_was_on: false,
    }
}

/// Mode and dot position are consistent: the dot never passes the end of the current mode.
pub open spec fn ppu_wf(p: PpuStub) -> bool {
    &&& p.mode <= 3
    &&& p.mode == 2 ==> p.dot_in_line <= 80
    &&& p.mode == 3 ==> p.dot_in_line <= 252
    &&& p.mode <= 1 ==> p.dot_in_line <= 456
}

/// Cycles until the next mode or line boundary.
pub open spec fn until_next_event(p: PpuStub) -> int {
    if p.mode == 0 || p.mode == 1 {
        456 - p.dot_in_line
    } else if p.mode == 2 {
        80 - p.dot_in_line
    } else if p.mode == 3 {
        252 - p.dot_in_line
    } else {
        0
    }
}

/// Interrupt flag register with `bit` raised.
pub open spec fn raise_if_view(b: BusView, bit: u8) -> BusView {
    BusView { io: b.io.update(0x0F, if_store(b.io[0x0F] | bit)), ..b }
}

/// STAT value with the mode bits and coincidence bit replaced.
pub open spec fn stat_with(stat: u8, mode: u8, equal: bool) -> u8 {
    let s1 = (stat & !0x07u8) | (mode & 0x03);
    if equal {
        s1 | 0x04
    } else {
        s1
    }
}

/// Mode change: STAT updated and the mode's STAT interrupt raised when enabled.
pub open spec fn set_mode_view(p: PpuStub, b: BusView, new_mode: u8) -> (PpuStub, BusView) {
    if p.mode == new_mode {
        (p, b)
    } else {
        let stat_before = io_read_spec(b.io, 0x41);
        let b1 = BusView {
            io: io_write_spec(b.io, 0x41, stat_with(stat_before, new_mode, p.lyc_equal)),
            ..b
        };
        let p1 = PpuStub { mode: new_mode, ..p };
        let enabled = if new_mode == 0 {
            stat_before & 0x08 != 0
        } else if new_mode == 1 {
            stat_before & 0x10 != 0
        } else if new_mode == 2 {
            stat_before & 0x20 != 0
        } else {
            false
        };
        if enabled {
            (p1, raise_if_view(b1, 0x02))
        } else {
            (p1, b1)
        }
    }
}

/// LY/LYC comparison: STAT coincidence bit updated, STAT interrupt on a rising match.
pub open spec fn refresh_coincidence_view(p: PpuStub, b: BusView) -> (PpuStub, BusView) {
    let stat_before = io_read_spec(b.io, 0x41);
    let lyc = io_read_spec(b.io, 0x45);
    let equal = p.ly == lyc;
    let p1 = PpuStub { lyc_equal: equal, ..p };
    let b1 = BusView { io: io_write_spec(b.io, 0x41, stat_with(stat_before, p.mode, equal)), ..b };
    if !p.lyc_equal && equal && stat_before & 0x40 != 0 {
        (p1, raise_if_view(b1, 0x02))
    } else {
        (p1, b1)
    }
}

/// LCD switched off: counters cleared, LY = 0, STAT mode 0 with the LYC==0 coincidence.
pub open spec fn force_lcd_off_view(p: PpuStub, b: BusView) -> (PpuStub, BusView) {
    let io1 = io_write_spec(b.io, 0x44, 0);
    let stat = io_read_spec(io1, 0x41);
    let lyc = io_read_spec(io1, 0x45);
    let equal = lyc == 0;
    let s1 = stat & !0x07u8;
    let s2 = if equal {
        s1 | 0x04
    } else {
        s1
    };
    (
        PpuStub {
            lcd_was_on: false,
            dot_in_line: 0,
            mode: 0,
            frame_ready: false,
            ly: 0,
            lyc_equal: equal,
        },
        BusView { io: io_write_spec(io1, 0x41, s2), ..b },
    )
}

/// LCD switched on: line 0, entering mode 2.
pub open spec fn start_lcd_view(p: PpuStub, b: BusView) -> (PpuStub, BusView) {
    let p1 = PpuStub {
        lcd_was_on: true,
        dot_in_line: 0,
        ly: 0,
        mode: 0,
        lyc_equal: false,
        frame_ready: false,
    };
    set_mode_view(p1, BusView { io: io_write_spec(b.io, 0x44, 0), ..b }, 2)
}

/// LCD state check before stepping: returns whether the LCD is on.
pub open spec fn ensure_lcd_on_view(p: PpuStub, b: BusView) -> (bool, PpuStub, BusView) {
    if io_read_spec(b.io, 0x40) & 0x80 == 0 {
        let (p1, b1) = force_lcd_off_view(p, b);
        (false, p1, b1)
    } else if !p.lcd_was_on {
        let (p1, b1) = start_lcd_view(p, b);
        (true, p1, b1)
    } else {
        (true, p, b)
    }
}

/// Next scanline: LY advanced (wrapping at 154), frame boundary at line 0, VBlank at 144.
pub open spec fn advance_line_view(p: PpuStub, b: BusView) -> (PpuStub, BusView) {
    let ly1 = ((p.ly + 1) % 256) as u8;
    let ly: u8 = if ly1 >= 154 {
        0
    } else {
        ly1
    };
    let p1 = PpuStub { ly: ly, ..p };
    let b1 = BusView { io: io_write_spec(b.io, 0x44, ly), ..b };
    let (p2, b2) = refresh_coincidence_view(p1, b1);
    if ly == 0 {
        set_mode_view(PpuStub { frame_ready: true, ..p2 }, b2, 2)
    } else if ly < 144 {
        set_mode_view(p2, b2, 2)
    } else if ly == 144 {
        set_mode_view(p2, raise_if_view(b2, 0x01), 1)
    } else {
        (p2, b2)
    }
}

/// Boundary reached: mode 2 -> 3 -> 0, and a new line at the end of mode 0/1.
pub open spec fn handle_event_view(p: PpuStub, b: BusView) -> (PpuStub, BusView) {
    if p.mode == 2 {
        set_mode_view(p, b, 3)
    } else if p.mode == 3 {
        set_mode_view(p, b, 0)
    } else if p.mode == 0 || p.mode == 1 {
        let dot: u32 = if p.dot_in_line >= 456 {
            (p.dot_in_line - 456) as u32
        } else {
            0
        };
        advance_line_view(PpuStub { dot_in_line: dot, ..p }, b)
    } else {
        (p, b)
    }
}

/// Zero-cycle-event indicator used as the secondary termination measure.
pub open spec fn at_event(p: PpuStub) -> int {
    if until_next_event(p) == 0 {
        1
    } else {
        0
    }
}

/// The PPU run for `cycles` cycles with the LCD on (inner loop of `step`).
pub open spec fn ppu_run_view(p: PpuStub, b: BusView, cycles: nat) -> (PpuStub, BusView)
    decreases cycles, at_event(p),
    when ppu_wf(p)
{
    if cycles == 0 {
        (p, b)
    } else if io_read_spec(b.io, 0x40) & 0x80 == 0 {
        force_lcd_off_view(p, b)
    } else {
        let (p1, b1) = refresh_coincidence_view(p, b);
        let remaining = until_next_event(p1);
        if remaining == 0 {
            let (p2, b2) = handle_event_view(p1, b1);
            ppu_run_view(p2, b2, cycles)
        } else {
            let step: int = if remaining < cycles {
                remaining
            } else {
                cycles as int
            };
            let p2 = PpuStub { dot_in_line: (p1.dot_in_line + step) as u32, ..p1 };
            if step == remaining {
                let (p3, b3) = handle_event_view(p2, b1);
                ppu_run_view(p3, b3, (cycles - step) as nat)
            } else {
                ppu_run_view(p2, b1, (cycles - step) as nat)
            }
        }
    }
}

/// Effect of `PpuStub::step` by `cycles` CPU cycles.
pub open spec fn ppu_step_view(p: PpuStub, b: BusView, cycles: u32) -> (PpuStub, BusView) {
    if cycles == 0 {
        (p, b)
    } else {
        let (on, p1, b1) = ensure_lcd_on_view(p, b);
        if !on {
            (p1, b1)
        } else {
            ppu_run_view(p1, b1, cycles as nat)
        }
    }
}

/// Minimal IO surface required by the PPU.
pub trait PpuIo {
    /// Reads an IO register by index.
    fn read_io(&self, idx: usize) -> u8
        requires
            idx < 0x80,
    ;

    /// Writes an IO register by index.
    fn write_io(&mut self, idx: usize, value: u8)
        requires
            idx < 0x80,
    ;

    /// Reads the interrupt flag register.
    fn read_if(&self) -> u8;

    /// Writes the interrupt flag register.
    fn write_if(&mut self, value: u8);
}

impl PpuIo for BusScalar {
    fn read_io(&self, idx: usize) -> (r: u8)
        ensures
            r == io_read_spec(self@.io, idx as int),
    {
        self.io.read(idx)
    }

    fn write_io(&mut self, idx: usize, value: u8)
        ensures
            final(self)@ == (BusView {
                io: io_write_spec(old(self)@.io, idx as int, value),
                ..old(self)@
            }),
    {
        self.io.write(idx, value);
    }

    fn read_if(&self) -> (r: u8)
        ensures
            r == self@.io[0x0F],
    {
        self.io.if_reg()
    }

    fn write_if(&mut self, value: u8)
        ensures
            final(self)@ == (BusView {
                io: old(self)@.io.update(0x0F, if_store(value)),
                ..old(self)@
            }),
    {
        self.io.set_if(value);
    }
}

/// Read-only view over the state that background rendering reads.
pub trait PpuFrameSource {
    /// Returns the IO register block.
    fn ppu_io(&self) -> &IoRegs;

    /// Returns video RAM.
    fn ppu_vram(&self) -> &[u8; 0x2000];

    /// Returns object attribute memory.
    fn ppu_oam(&self) -> &[u8; 0xA0];
}

impl PpuFrameSource for BusScalar {
    fn ppu_io(&self) -> (r: &IoRegs)
        ensures
            *r == self.io,
    {
        &self.io
    }

    fn ppu_vram(&self) -> (r: &[u8; 0x2000])
        ensures
            r@ == self@.vram,
    {
        &self.vram
    }

    fn ppu_oam(&self) -> (r: &[u8; 0xA0])
        ensures
            r@ == self@.oam,
    {
        &self.oam
    }
}

impl<const LANES: usize> PpuIo for BusSimd<LANES> {
    fn read_io(&self, idx: usize) -> (r: u8)
        ensures
            r == io_read_spec(self@[0].io, idx as int),
    {
        self.canonical_lane().read_io(idx)
    }

    fn write_io(&mut self, idx: usize, value: u8)
        ensures
            final(self)@ == old(self)@.map_values(
                |b: BusView| BusView { io: io_write_spec(b.io, idx as int, value), ..b },
            ),
    {
        self.write_all_io(idx, value);
    }

    fn read_if(&self) -> (r: u8)
        ensures
            r == self@[0].io[0x0F],
    {
        crate::timers::TimerIo::read_if(self)
    }

    fn write_if(&mut self, value: u8)
        ensures
            final(self)@ == old(self)@.map_values(
                |b: BusView| BusView { io: b.io.update(0x0F, if_store(value)), ..b },
            ),
    {
        crate::timers::TimerIo::write_if(self, value);
    }
}

impl<const LANES: usize> PpuFrameSource for BusSimd<LANES> {
    fn ppu_io(&self) -> (r: &IoRegs)
        ensures
            r.regs@ == self@[0].io,
    {
        self.canonical_lane().ppu_io()
    }

    fn ppu_vram(&self) -> (r: &[u8; 0x2000])
        ensures
            r@ == self@[0].vram,
    {
        self.canonical_lane().ppu_vram()
    }

    fn ppu_oam(&self) -> (r: &[u8; 0xA0])
        ensures
            r@ == self@[0].oam,
    {
        self.canonical_lane().ppu_oam()
    }
}


impl Default for PpuStub {
    fn default() -> (r: Self)
        ensures
            r == ppu_initial(),
    {
        PpuStub {
            dot_in_line: 0,
            ly: 0,
            mode: 0,
            lyc_equal: false,
            frame_ready: false,
            lcd_was_on: false,
        }
    }
}

impl PpuStub {
    /// Creates a new PPU stub instance.
    pub fn new() -> (r: Self)
        ensures
            r == ppu_initial(),
    {
        Self::default()
    }

    /// Advances the PPU by the provided number of CPU cycles.
    pub fn step(&mut self, cycles: u32, bus: &mut BusScalar)
        requires
            ppu_wf(*old(self)),
        ensures
            (*final(self), final(bus)@) == ppu_step_view(*old(self), old(bus)@, cycles),
            ppu_wf(*final(self)),
            final(bus)@.rom == old(bus)@.rom,
    {
        if cycles == 0 {
            return ;
        }
        let ghost c0 = cycles;
        if !self.ensure_lcd_on(bus) {
            return ;
        }
        let ghost p0 = *self;
        let ghost b0 = bus@;
        let ghost target = ppu_run_view(p0, b0, cycles as nat);
        let mut left = cycles;
        while left > 0
            invariant
                ppu_wf(*self),
                bus@.rom == b0.rom,
                ppu_run_view(*self, bus@, left as nat) == target,
                target == ppu_step_view(*old(self), old(bus)@, c0),
                b0.rom == old(bus)@.rom,
                c0 == cycles,
            decreases left, at_event(*self),
        {
            match self.run_slice(bus, left) {
                None => {
                    return ;
                },
                Some(rest) => {
                    left = rest;
                },
            }
        }
    }

    /// One iteration of the stepping loop: either the LCD was found off
    /// (`None`), or the PPU advanced to the next boundary or ran out of cycles.
    #[verifier::rlimit(50)]
    fn run_slice(&mut self, bus: &mut BusScalar, cycles: u32) -> (r: Option<u32>)
        requires
            ppu_wf(*old(self)),
            cycles > 0,
        ensures
            ppu_wf(*final(self)),
            final(bus)@.rom == old(bus)@.rom,
            match r {
                None => (*final(self), final(bus)@) == ppu_run_view(
                    *old(self),
                    old(bus)@,
                    cycles as nat,
                ),
                Some(left) => {
                    &&& left <= cycles
                    &&& left == cycles ==> at_event(*final(self)) < at_event(*old(self))
                    &&& ppu_run_view(*final(self), final(bus)@, left as nat) == ppu_run_view(
                        *old(self),
                        old(bus)@,
                        cycles as nat,
                    )
                },
            },
    {
        if bus.read_io(IoIdx::LCDC) & 0x80 == 0 {
            self.force_lcd_off(bus);
            return None;
        }
        self.refresh_coincidence(bus);
        let remaining = self.cycles_until_next_event();
        if remaining == 0 {
            self.handle_event(bus);
            return Some(cycles);
        }
        let step = if remaining < cycles { remaining } else { cycles };
        self.dot_in_line = self.dot_in_line + step;
        if step == remaining {
            self.handle_event(bus);
        }
        Some(cycles - step)
    }

    /// Returns whether a new frame is available.
    pub fn frame_ready(&self) -> (r: bool)
        ensures
            r == self.frame_ready,
    {
        self.frame_ready
    }

    /// Clears the ready flag after the frame has been consumed.
    pub fn clear_frame_ready(&mut self)
        ensures
            *final(self) == (PpuStub { frame_ready: false, ..*old(self) }),
    {
        self.frame_ready = false;
    }

    /// Resets the PPU stub counters.
    pub fn reset(&mut self)
        ensures
            *final(self) == ppu_initial(),
    {
        *self = Self::default();
    }

    fn ensure_lcd_on(&mut self, bus: &mut BusScalar) -> (r: bool)
        requires
            ppu_wf(*old(self)),
        ensures
            (r, *final(self), final(bus)@) == ensure_lcd_on_view(*old(self), old(bus)@),
            ppu_wf(*final(self)),
    {
        let lcdc = bus.read_io(IoIdx::LCDC);
        if lcdc & 0x80 == 0 {
            self.force_lcd_off(bus);
            return false;
        }
        if !self.lcd_was_on {
            self.start_lcd(bus);
        }
        true
    }

    fn start_lcd(&mut self, bus: &mut BusScalar)
        ensures
            (*final(self), final(bus)@) == start_lcd_view(*old(self), old(bus)@),
            ppu_wf(*final(self)),
    {
        self.lcd_was_on = true;
        self.dot_in_line = 0;
        self.ly = 0;
        self.mode = 0;
        self.lyc_equal = false;
        self.frame_ready = false;
        bus.write_io(IoIdx::LY, self.ly);
        self.set_mode(bus, 2);
    }

    fn force_lcd_off(&mut self, bus: &mut BusScalar)
        ensures
            (*final(self), final(bus)@) == force_lcd_off_view(*old(self), old(bus)@),
            ppu_wf(*final(self)),
    {
        self.lcd_was_on = false;
        self.dot_in_line = 0;
        self.mode = 0;
        self.frame_ready = false;
        self.ly = 0;
        bus.write_io(IoIdx::LY, 0);
        let mut stat = bus.read_io(IoIdx::STAT);
        let lyc = bus.read_io(IoIdx::LYC);
        self.lyc_equal = lyc == 0;
        stat = stat & !0x07u8;
        if self.lyc_equal {
            stat = stat | 0x04;
        }
        bus.write_io(IoIdx::STAT, stat);
    }

    fn refresh_coincidence(&mut self, bus: &mut BusScalar)
        ensures
            (*final(self), final(bus)@) == refresh_coincidence_view(*old(self), old(bus)@),
    {
        let stat_before = bus.read_io(IoIdx::STAT);
        let lyc = bus.read_io(IoIdx::LYC);
        let equal = self.ly == lyc;
        let prev_equal = self.lyc_equal;
        self.lyc_equal = equal;
        let mut stat_after = stat_before & !0x07u8;
        stat_after = stat_after | (self.mode & 0x03);
        if equal {
            stat_after = stat_after | 0x04;
        }
        bus.write_io(IoIdx::STAT, stat_after);
        if !prev_equal && equal && stat_before & 0x40 != 0 {
            self.raise_stat_interrupt(bus);
        }
    }

    fn set_mode(&mut self, bus: &mut BusScalar, new_mode: u8)
        ensures
            (*final(self), final(bus)@) == set_mode_view(*old(self), old(bus)@, new_mode),
    {
        if self.mode == new_mode {
            return ;
        }
        let stat_before = bus.read_io(IoIdx::STAT);
        let mut stat_after = stat_before & !0x07u8;
        stat_after = stat_after | (new_mode & 0x03);
        if self.lyc_equal {
            stat_after = stat_after | 0x04;
        }
        bus.write_io(IoIdx::STAT, stat_after);
        self.mode = new_mode;
        let enabled = if new_mode == 0 {
            stat_before & 0x08 != 0
        } else if new_mode == 1 {
            stat_before & 0x10 != 0
        } else if new_mode == 2 {
            stat_before & 0x20 != 0
        } else {
            false
        };
        if enabled {
            self.raise_stat_interrupt(bus);
        }
    }

    fn cycles_until_next_event(&self) -> (r: u32)
        requires
            ppu_wf(*self),
        ensures
            r == until_next_event(*self),
    {
        if self.mode == 0 || self.mode == 1 {
            456 - self.dot_in_line
        } else if self.mode == 2 {
            80 - self.dot_in_line
        } else if self.mode == 3 {
            252 - self.dot_in_line
        } else {
            0
        }
    }

    fn handle_event(&mut self, bus: &mut BusScalar)
        requires
            ppu_wf(*old(self)),
        ensures
            (*final(self), final(bus)@) == handle_event_view(*old(self), old(bus)@),
    {
        if self.mode == 2 {
            self.set_mode(bus, 3);
        } else if self.mode == 3 {
            self.set_mode(bus, 0);
        } else if self.mode == 0 || self.mode == 1 {
            if self.dot_in_line >= 456 {
                self.dot_in_line = self.dot_in_line - 456;
            } else {
                self.dot_in_line = 0;
            }
            self.advance_line(bus);
        }
    }

    fn advance_line(&mut self, bus: &mut BusScalar)
        ensures
            (*final(self), final(bus)@) == advance_line_view(*old(self), old(bus)@),
    {
        self.ly = self.ly.wrapping_add(1);
        if self.ly >= 154 {
            self.ly = 0;
        }
        bus.write_io(IoIdx::LY, self.ly);
        self.refresh_coincidence(bus);
        if self.ly == 0 {
            self.frame_ready = true;
            self.set_mode(bus, 2);
        } else if self.ly < 144 {
            self.set_mode(bus, 2);
        } else if self.ly == 144 {
            self.raise_vblank_interrupt(bus);
            self.set_mode(bus, 1);
        }
    }

    fn raise_vblank_interrupt(&mut self, bus: &mut BusScalar)
        ensures
            *final(self) == *old(self),
            final(bus)@ == raise_if_view(old(bus)@, 0x01),
    {
        let mut if_reg = bus.read_if();
        if_reg = if_reg | 0x01;
        bus.write_if(if_reg);
    }

    fn raise_stat_interrupt(&mut self, bus: &mut BusScalar)
        ensures
            *final(self) == *old(self),
            final(bus)@ == raise_if_view(old(bus)@, 0x02),
    {
        let mut if_reg = bus.read_if();
        if_reg = if_reg | 0x02;
        bus.write_if(if_reg);
    }
}

/// IO register offsets used by the PPU.
struct IoIdx;

impl IoIdx {
    const LCDC: usize = 0x40;
    const STAT: usize = 0x41;
    const LY: usize = 0x44;
    const LYC: usize = 0x45;
}

} // verus!
