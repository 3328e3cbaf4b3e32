//! Snapshots of a scalar core for determinism checks and migration, and
//! restoring a core from such a snapshot.
use vstd::prelude::*;
use vstd::std_specs::convert::FromSpecImpl;
use crate::bus::BusView;
use crate::exec::{flags_byte, flags_of_byte};
use crate::gb_core::{Core, CoreView};
use crate::ppu_stub::PpuStub;
use crate::timers::{TimaState, Timers};
use crate::cpu::Cpu;

verus! {

/// Snapshot of a scalar core state.
#[derive(Clone, Debug, PartialEq, Eq)]
pub struct CoreState {
    /// Serialized CPU register file.
    pub regs: RegsScalar,
    /// Copy of work RAM.
    pub wram: Vec<u8>,
    /// Copy of video RAM.
    pub vram: Vec<u8>,
    /// Copy of object attribute memory.
    pub oam: Vec<u8>,
    /// Copy of high RAM.
    pub hram: Vec<u8>,
    /// Snapshot of IO registers.
    pub io: Vec<u8>,
    /// Interrupt enable register value.
    pub ie: u8,
    /// Timer counters.
    pub timers: TimersState,
    /// Persisted PPU state.
    pub ppu: PpuState,
    /// Cycles accumulated in the current frame.
    pub cycles_this_frame: u32,
    /// Interrupt master enable flag.
    pub ime: bool,
    /// HALT indicator.
    pub halted: bool,
    /// Pending IME enable flag.
    pub enable_ime_pending: bool,
}

/// Scalar register snapshot.
#[derive(Clone, Copy, Debug, PartialEq, Eq)]
pub struct RegsScalar {
    /// Accumulator value.
    pub a: u8,
    /// Flags register.
    pub f: u8,
    /// `B` register.
    pub b: u8,
    /// `C` register.
    pub c: u8,
    /// `D` register.
    pub d: u8,
    /// `E` register.
    pub e: u8,
    /// `H` register.
    pub h: u8,
    /// `L` register.
    pub l: u8,
    /// Stack pointer.
    pub sp: u16,
    /// Program counter.
    pub pc: u16,
}

/// Timer block state persisted alongside IO registers.
#[derive(Clone, Copy, Debug, PartialEq, Eq)]
pub struct TimersState {
    /// Internal divider counter.
    pub div_counter: u16,
    /// Timer input level.
    pub timer_input: bool,
    /// Overflow pipeline state.
    pub tima_state: TimaState,
    /// TIMA reload value.
    pub pending_reload_value: u8,
    /// Cycles before the reload.
    pub reload_delay: u8,
}

/// PPU persisted state.
#[derive(Clone, Copy, Debug, PartialEq, Eq)]
pub struct PpuState {
    /// Dot position within the active scanline.
    pub dot_in_line: u32,
    /// Currently latched LY value.
    pub ly: u8,
    /// Current PPU mode (0-3).
    pub mode: u8,
    /// Cached coincidence flag state.
    pub lyc_equal: bool,
    /// Latched frame-ready flag.
    pub frame_ready: bool,
    /// Whether the LCD controller was previously enabled.
    pub lcd_was_on: bool,
}

/// Timer snapshot of a timer block.
pub open spec fn timers_state_of(t: Timers) -> TimersState {
    TimersState {
        div_counter: t.div_counter,
        timer_input: t.timer_input,
        tima_state: t.tima_state,
        pending_reload_value: t.pending_reload_value,
        reload_delay: t.reload_delay,
    }
}

/// Timer block restored from a snapshot.
pub open spec fn timers_of_state(s: TimersState) -> Timers {
    Timers {
        div_counter: s.div_counter,
        timer_input: s.timer_input,
        tima_state: s.tima_state,
        pending_reload_value: s.pending_reload_value,
        reload_delay: s.reload_delay,
    }
}

/// PPU snapshot of a PPU.
pub open spec fn ppu_state_of(p: PpuStub) -> PpuState {
    PpuState {
        dot_in_line: p.dot_in_line,
        ly: p.ly,
        mode: p.mode,
        lyc_equal: p.lyc_equal,
        frame_ready: p.frame_ready,
        lcd_was_on: p.lcd_was_on,
    }
}

/// PPU restored from a snapshot.
pub open spec fn ppu_of_state(s: PpuState) -> PpuStub {
    PpuStub {
        dot_in_line: s.dot_in_line,
        ly: s.ly,
        mode: s.mode,
        lyc_equal: s.lyc_equal,
        frame_ready: s.frame_ready,
        lcd_was_on: s.lcd_was_on,
    }
}

/// Register snapshot of a register file.
pub open spec fn regs_of_cpu(c: Cpu) -> RegsScalar {
    RegsScalar {
        a: c.a,
        f: flags_byte(c.f),
        b: c.b,
        c: c.c,
        d: c.d,
        e: c.e,
        h: c.h,
        l: c.l,
        sp: c.sp,
        pc: c.pc,
    }
}

/// Snapshot holds regions of the hardware sizes.
pub open spec fn core_state_sizes(s: CoreState) -> bool {
    &&& s.wram@.len() == 0x2000
    &&& s.vram@.len() == 0x2000
    &&& s.oam@.len() == 0xA0
    &&& s.hram@.len() == 0x7F
    &&& s.io@.len() == 0x80
}

/// `st` is a snapshot of core state `c`: registers, memory regions,
/// interrupt enable, timers, PPU and frame cycle count.
pub open spec fn captured(st: CoreState, c: CoreView) -> bool {
    &&& st.regs == regs_of_cpu(c.cpu)
    &&& st.wram@ == c.bus.wram
    &&& st.vram@ == c.bus.vram
    &&& st.oam@ == c.bus.oam
    &&& st.hram@ == c.bus.hram
    &&& st.io@ == c.bus.io
    &&& st.ie == c.bus.ie
    &&& st.timers == timers_state_of(c.timers)
    &&& st.ppu == ppu_state_of(c.ppu)
    &&& st.cycles_this_frame == c.cycles_this_frame
    &&& st.ime == c.cpu.ime
    &&& st.halted == c.cpu.halted
    &&& st.enable_ime_pending == c.cpu.enable_ime_pending
}

/// Core state described by a snapshot (ROM, boot overlay and latches taken from `s`).
pub open spec fn core_view_of_state(s: CoreView, st: CoreState) -> CoreView {
    CoreView {
        cpu: Cpu {
            a: st.regs.a,
            f: flags_of_byte(st.regs.f),
            b: st.regs.b,
            c: st.regs.c,
            d: st.regs.d,
            e: st.regs.e,
            h: st.regs.h,
            l: st.regs.l,
            sp: st.regs.sp,
            pc: st.regs.pc,
            ime: st.ime,
            halted: st.halted,
            enable_ime_pending: st.enable_ime_pending,
        },
        bus: BusView {
            wram: st.wram@,
            vram: st.vram@,
            oam: st.oam@,
            hram: st.hram@,
            io: st.io@,
            ie: st.ie,
            joyp_select: st.io@[0] & 0x30,
            ..s.bus
        },
        timers: timers_of_state(st.timers),
        ppu: ppu_of_state(st.ppu),
        cycles_this_frame: st.cycles_this_frame,
        ..s
    }
}

impl<'a> From<&'a Timers> for TimersState {
    fn from(t: &'a Timers) -> (r: Self) {
        TimersState {
            div_counter: t.div_counter,
            timer_input: t.timer_input,
            tima_state: t.tima_state,
            pending_reload_value: t.pending_reload_value,
            reload_delay: t.reload_delay,
        }
    }
}

impl<'a> FromSpecImpl<&'a Timers> for TimersState {
    open spec fn obeys_from_spec() -> bool {
        true
    }

    open spec fn from_spec(t: &'a Timers) -> TimersState {
        timers_state_of(*t)
    }
}

impl<'a> From<&'a PpuStub> for PpuState {
    fn from(p: &'a PpuStub) -> (r: Self) {
        PpuState {
            dot_in_line: p.dot_in_line,
            ly: p.ly,
            mode: p.mode,
            lyc_equal: p.lyc_equal,
            frame_ready: p.frame_ready,
            lcd_was_on: p.lcd_was_on,
        }
    }
}

impl<'a> FromSpecImpl<&'a PpuStub> for PpuState {
    open spec fn obeys_from_spec() -> bool {
        true
    }

    open spec fn from_spec(p: &'a PpuStub) -> PpuState {
        ppu_state_of(*p)
    }
}

fn array_to_vec<const N: usize>(a: &[u8; N]) -> (r: Vec<u8>)
    ensures
        r@ == a@,
{
    let mut v: Vec<u8> = Vec::new();
    let mut i: usize = 0;
    while i < N
        invariant
            i <= N,
            a@.len() == N,
            v@ == a@.subrange(0, i as int),
        decreases N - i,
    {
        v.push(a[i]);
        i = i + 1;
        assert(v@ =~= a@.subrange(0, i as int));
    }
    assert(v@ =~= a@);
    v
}

fn copy_into_array<const N: usize>(dst: &mut [u8; N], src: &Vec<u8>)
    requires
        src@.len() == N,
    ensures
        final(dst)@ == src@,
{
    let mut i: usize = 0;
    while i < N
        invariant
            i <= N,
            src@.len() == N,
            final(dst)@.len() == N,
            dst@.len() == N,
            forall|k: int| 0 <= k < i ==> dst@[k] == src@[k],
        decreases N - i,
    {
        dst[i] = src[i];
        i = i + 1;
    }
    assert(dst@ =~= src@);
}

impl CoreState {
    /// Captures the state of a core.
    pub fn capture(core: &Core) -> (r: Self)
        ensures
            captured(r, core@),
            core_state_sizes(r),
    {
        let cpu = &core.cpu;
        CoreState {
            regs: RegsScalar {
                a: cpu.a,
                f: cpu.f.to_byte(),
                b: cpu.b,
                c: cpu.c,
                d: cpu.d,
                e: cpu.e,
                h: cpu.h,
                l: cpu.l,
                sp: cpu.sp,
                pc: cpu.pc,
            },
            wram: array_to_vec(&core.bus.wram),
            vram: array_to_vec(&core.bus.vram),
            oam: array_to_vec(&core.bus.oam),
            hram: array_to_vec(&core.bus.hram),
            io: array_to_vec(core.bus.io.regs()),
            ie: core.bus.ie,
            timers: TimersState::from(&core.timers),
            ppu: PpuState::from(&core.ppu),
            cycles_this_frame: core.cycles_this_frame,
            ime: cpu.ime,
            halted: cpu.halted,
            enable_ime_pending: cpu.enable_ime_pending,
        }
    }
}

impl Timers {
    /// Restores timer counters from a persisted state.
    pub fn load_state(&mut self, state: &TimersState)
        ensures
            *final(self) == timers_of_state(*state),
    {
        self.div_counter = state.div_counter;
        self.timer_input = state.timer_input;
        self.tima_state = state.tima_state;
        self.pending_reload_value = state.pending_reload_value;
        self.reload_delay = state.reload_delay;
    }
}

impl PpuStub {
    /// Restores counters from persisted state.
    pub fn load_state(&mut self, state: &PpuState)
        ensures
            *final(self) == ppu_of_state(*state),
    {
        self.dot_in_line = state.dot_in_line;
        self.ly = state.ly;
        self.mode = state.mode;
        self.lyc_equal = state.lyc_equal;
        self.frame_ready = state.frame_ready;
        self.lcd_was_on = state.lcd_was_on;
    }
}

impl Core {
    /// Loads a previously captured state into the core.
    pub fn load_state(&mut self, state: &CoreState)
        requires
            core_state_sizes(*state),
        ensures
            final(self)@ == core_view_of_state(old(self)@, *state),
    {
        self.cpu.a = state.regs.a;
        self.cpu.f.from_byte(state.regs.f);
        self.cpu.b = state.regs.b;
        self.cpu.c = state.regs.c;
        self.cpu.d = state.regs.d;
        self.cpu.e = state.regs.e;
        self.cpu.h = state.regs.h;
        self.cpu.l = state.regs.l;
        self.cpu.sp = state.regs.sp;
        self.cpu.pc = state.regs.pc;
        self.cpu.ime = state.ime;
        self.cpu.halted = state.halted;
        self.cpu.enable_ime_pending = state.enable_ime_pending;
        copy_into_array(&mut self.bus.wram, &state.wram);
        copy_into_array(&mut self.bus.vram, &state.vram);
        copy_into_array(&mut self.bus.oam, &state.oam);
        copy_into_array(&mut self.bus.hram, &state.hram);
        copy_into_array(self.bus.io.regs_mut(), &state.io);
        self.bus.ie = state.ie;
        self.bus.joyp_select = self.bus.io.joyp() & 0x30;
        self.timers.load_state(&state.timers);
        self.ppu.load_state(&state.ppu);
        self.cycles_this_frame = state.cycles_this_frame;
    }
}

} // verus!
