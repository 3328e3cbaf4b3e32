//! A kernel emulation instance: one core, its joypad latch, its frame
//! counter and, after a cartridge is loaded without a boot ROM, the boot
//! animation that runs before the cartridge does.
use vstd::prelude::*;
use crate::boot::{
    advance_phase, boot_frame_byte, boot_vram, boot_wf, logo_map, logo_tiles_of, map_view, tiles_view, BootPhase,
    BootSequence,
};
use crate::bus::{io_read_spec, io_write_spec, set_inputs_view, BusView, IoRegs};
use crate::exec::flags_byte;
use crate::gb_core::{
    advance_peripherals_view, core_wf, instruction_step_view, load_rom_view, post_boot_view, power_on_view, Core,
    CoreView, Model,
};
use crate::render::gradient_byte;
use crate::service_abi::{CpuVM, InspectorVMMinimal, MemSpace, PpuVM, TimersVM};
use crate::service_abi::copy_bytes;

verus! {

/// Bytes `base .. base + len` of a memory region of `data` mapped at
/// `region_base`, cut at the end of the region; empty when the window starts
/// outside it.
pub open spec fn window_spec(data: Seq<u8>, region_base: u16, base: u16, len: u16) -> Seq<u8> {
    if len == 0 || base < region_base || base - region_base >= data.len() {
        Seq::empty()
    } else {
        let start = base - region_base;
        let take = if data.len() - start < len { data.len() - start } else { len as int };
        data.subrange(start, start + take)
    }
}

/// Copies a window of a memory region.
pub fn window_slice(data: &[u8], region_base: u16, base: u16, len: u16) -> (r: Vec<u8>)
    ensures
        r@ == window_spec(data@, region_base, base, len),
{
    if len == 0 {
        return Vec::new();
    }
    if base < region_base {
        return Vec::new();
    }
    let start = (base - region_base) as usize;
    if start >= data.len() {
        return Vec::new();
    }
    let max_len = data.len() - start;
    let take = if max_len < len as usize { max_len } else { len as usize };
    let mut out: Vec<u8> = Vec::new();
    let mut i: usize = 0;
    let total = data.len();
    while i < take
        invariant
            total == data@.len(),
            start + take <= data@.len(),
            i <= take,
            out@ == data@.subrange(start as int, start + i),
        decreases take - i,
    {
        out.push(data[start + i]);
        i = i + 1;
    }
    out
}

/// Core after `n` more instructions from `c` (stopping early when an
/// instruction takes no cycles), with the wrapped cycle total and the
/// program counter after the last one.
pub open spec fn run_instructions(c: CoreView, n: nat, total: u32, pc: u16) -> (CoreView, u32, u16)
    decreases n,
{
    if n == 0 {
        (c, total, pc)
    } else {
        let (s1, cycles) = instruction_step_view(c, 4);
        let c1 = advance_peripherals_view(s1, cycles);
        let t = ((total + cycles) % 0x1_0000_0000) as u32;
        if cycles == 0 {
            (c1, t, c1.cpu.pc)
        } else {
            run_instructions(c1, (n - 1) as nat, t, c1.cpu.pc)
        }
    }
}


/// Running instructions never changes the frame configuration.
proof fn lemma_run_keeps_config(c: CoreView, n: nat, total: u32, pc: u16)
    ensures
        run_instructions(c, n, total, pc).0.config == c.config,
    decreases n,
{
    if n > 0 {
        let (s1, cycles) = instruction_step_view(c, 4);
        crate::gb_core::lemma_step_keeps_config(c, 4, cycles);
        crate::gb_core::lemma_step_keeps_config(s1, 4, cycles);
        let c1 = advance_peripherals_view(s1, cycles);
        let t = ((total + cycles) % 0x1_0000_0000) as u32;
        if cycles != 0 {
            lemma_run_keeps_config(c1, (n - 1) as nat, t, c1.cpu.pc);
        }
    }
}

/// Inspector snapshot of a core: registers, the PPU and timer registers as
/// read through the IO block, and the raw IO bytes.
pub open spec fn snapshot_of(c: CoreView) -> (CpuVM, PpuVM, TimersVM, Seq<u8>) {
    let io = c.bus.io;
    let stat = io_read_spec(io, 0x41);
    (
        CpuVM {
            a: c.cpu.a,
            f: flags_byte(c.cpu.f),
            b: c.cpu.b,
            c: c.cpu.c,
            d: c.cpu.d,
            e: c.cpu.e,
            h: c.cpu.h,
            l: c.cpu.l,
            sp: c.cpu.sp,
            pc: c.cpu.pc,
            ime: c.cpu.ime,
            halted: c.cpu.halted,
        },
        PpuVM {
            ly: io_read_spec(io, 0x44),
            mode: stat & 0x03,
            stat,
            lcdc: io_read_spec(io, 0x40),
            scx: io_read_spec(io, 0x43),
            scy: io_read_spec(io, 0x42),
            wy: io_read_spec(io, 0x4A),
            wx: io_read_spec(io, 0x4B),
            bgp: io_read_spec(io, 0x47),
            frame_ready: c.ppu.frame_ready,
        },
        TimersVM { div: io[0x04], tima: io[0x05], tma: io[0x06], tac: io[0x07] | 0xF8 },
        io,
    )
}

/// Memory window of a core's bus for an inspector request.
pub open spec fn mem_window_of(c: CoreView, space: MemSpace, base: u16, len: u16) -> Seq<u8> {
    match space {
        MemSpace::Vram => window_spec(c.bus.vram, 0x8000, base, len),
        MemSpace::Wram => window_spec(c.bus.wram, 0xC000, base, len),
        MemSpace::Oam => window_spec(c.bus.oam, 0xFE00, base, len),
        MemSpace::Io => window_spec(c.bus.io, 0xFF00, base, len),
    }
}

/// Whether every byte of a ROM is zero (a blank cartridge).
pub open spec fn blank_rom(rom: Seq<u8>) -> bool {
    forall|i: int| 0 <= i < rom.len() ==> rom[i] == 0
}


/// Mathematical model of a boot animation.
#[verifier::ext_equal]
pub struct BootView {
    pub scy: u8,
    pub phase: BootPhase,
    pub tiles: Seq<Seq<u8>>,
    pub map: Seq<Seq<u8>>,
}

impl View for BootSequence {
    type V = BootView;

    open spec fn view(&self) -> BootView {
        BootView { scy: self.scy, phase: self.phase, tiles: tiles_view(self.tiles@), map: map_view(self.map) }
    }
}

/// Model of an optional boot animation.
pub open spec fn boot_view(b: Option<BootSequence>) -> Option<BootView> {
    match b {
        Some(b) => Some(b@),
        None => None,
    }
}

/// Mathematical model of a kernel instance.
#[verifier::ext_equal]
pub struct InstanceView {
    pub core: CoreView,
    pub next_frame_id: u64,
    pub joypad: u8,
    pub boot: Option<BootView>,
}

/// Instance after running for `budget` cycles, with the cycles reported:
/// during the boot animation nothing runs and the budget is reported spent.
pub open spec fn instance_step(i: InstanceView, budget: u32) -> (InstanceView, u32) {
    match i.boot {
        Some(_) => (i, budget),
        None => {
            let (c, r) = crate::gb_core::step_loop_view(i.core, budget, 0);
            (InstanceView { core: c, ..i }, r)
        },
    }
}

/// Whether an instance has a frame ready (never during the boot animation).
pub open spec fn instance_frame_ready(i: InstanceView) -> bool {
    i.boot is None && i.core.ppu.frame_ready
}

/// Instance after handing out the next frame identifier.
pub open spec fn instance_bumped(i: InstanceView) -> InstanceView {
    InstanceView {
        next_frame_id: if i.next_frame_id == u64::MAX { 0 } else { (i.next_frame_id + 1) as u64 },
        ..i
    }
}

/// Instance after rendering a frame into a buffer that held `prev`, and the
/// buffer's new contents: the boot animation frame (advancing the
/// animation, and ending it after its last frame) or the core's frame.
pub open spec fn instance_render(i: InstanceView, prev: Seq<u8>) -> (InstanceView, Seq<u8>) {
    match i.boot {
        Some(b) => {
            let (p, s, w) = advance_phase(b.phase, b.scy);
            let core = if w {
                CoreView { bus: BusView { io: crate::bus::io_write_spec(i.core.bus.io, 0x42, s), ..i.core.bus }, ..i.core }
            } else {
                i.core
            };
            let boot = if p == BootPhase::Done { None } else { Some(BootView { phase: p, scy: s, ..b }) };
            (
                InstanceView { core, boot, ..i },
                Seq::new(prev.len(), |k: int| boot_frame_byte(b.scy, b.tiles, b.map, prev[k], k)),
            )
        },
        None => (
            InstanceView {
                core: CoreView {
                    ppu: crate::ppu_stub::PpuStub { frame_ready: false, ..i.core.ppu },
                    cycles_this_frame: 0,
                    ..i.core
                },
                ..i
            },
            Seq::new(
                prev.len(),
                |k: int| gradient_byte(i.core.config.frame_width as int, i.core.config.frame_height as int, prev[k], k),
            ),
        ),
    }
}


/// Instance after loading cartridge `rom`. With a boot ROM and a non-blank
/// cartridge the core powers on into the boot ROM; otherwise it starts in
/// the post-boot state, and a non-blank cartridge first gets the boot
/// animation (logo in VRAM, palette `0xFC`, SCY 0). Frame numbering restarts.
pub open spec fn instance_load_rom(i: InstanceView, rom: Seq<u8>) -> InstanceView {
    let loaded = load_rom_view(i.core, rom);
    if loaded.bus.boot_rom is Some && !blank_rom(rom) {
        let c = power_on_view(loaded, Model::Dmg);
        InstanceView {
            core: CoreView { bus: BusView { boot_rom_enabled: true, ..c.bus }, ..c },
            next_frame_id: 0,
            boot: None,
            ..i
        }
    } else {
        let c = post_boot_view(loaded, Model::Dmg);
        if blank_rom(rom) {
            InstanceView { core: c, next_frame_id: 0, boot: None, ..i }
        } else {
            let c2 = CoreView {
                bus: BusView {
                    vram: boot_vram(c.bus.vram, rom),
                    io: io_write_spec(io_write_spec(c.bus.io, 0x47, 0xFC), 0x42, 0x00),
                    ..c.bus
                },
                ..c
            };
            InstanceView {
                core: c2,
                next_frame_id: 0,
                boot: Some(
                    BootView {
                        scy: 0,
                        phase: BootPhase::Scroll { remaining_steps: 100, frame_delay: 2 },
                        tiles: logo_tiles_of(c2.bus.vram),
                        map: logo_map(),
                    },
                ),
                ..i
            }
        }
    }
}

/// Instance after stepping `count` instructions, with the cycles taken and
/// the final program counter; any boot animation is abandoned.
pub open spec fn instance_step_instructions(i: InstanceView, count: u32) -> (InstanceView, u32, u16) {
    if count == 0 {
        (i, 0, i.core.cpu.pc)
    } else {
        let (c, t, pc) = run_instructions(i.core, count as nat, 0, i.core.cpu.pc);
        (InstanceView { core: c, boot: None, ..i }, t, pc)
    }
}

/// Kernel instance state.
pub struct Instance {
    /// The emulated machine.
    pub core: Core,
    /// Identifier of the last frame handed out.
    pub next_frame_id: u64,
    /// Last joypad state applied.
    pub joypad: u8,
    /// Number of lanes the instance renders (one for the scalar core).
    pub lanes: usize,
    /// Boot animation under way, if any.
    pub boot: Option<BootSequence>,
}

impl View for Instance {
    type V = InstanceView;

    open spec fn view(&self) -> InstanceView {
        InstanceView { core: self.core@, next_frame_id: self.next_frame_id, joypad: self.joypad, boot: boot_view(self.boot) }
    }
}

impl Instance {
    /// Well-formed instance: a well-formed core, one lane, and a well-formed
    /// boot animation if one runs.
    pub open spec fn wf(&self) -> bool {
        &&& core_wf(self.core@)
        &&& self.lanes == 1
        &&& (self.boot matches Some(b) ==> boot_wf(b))
    }

    /// Wraps a scalar core; no boot animation runs and the joypad is released.
    pub fn new_scalar(core: Core) -> (r: Self)
        requires
            core_wf(core@),
        ensures
            r.core@ == core@,
            r.next_frame_id == 0,
            r.joypad == 0xFF,
            r.boot is None,
            r.wf(),
    {
        Instance { core, next_frame_id: 0, joypad: 0xFF, lanes: 1, boot: None }
    }

    /// Runs the core for `budget` cycles; during the boot animation the
    /// budget is reported spent and the core does not run.
    pub fn step_cycles(&mut self, budget: u32) -> (r: u32)
        requires
            old(self).wf(),
        ensures
            final(self).wf(),
            (final(self)@, r) == instance_step(old(self)@, budget),
            final(self).core.config == old(self).core.config,
            old(self).boot is Some ==> r == budget && *final(self) == *old(self),
            old(self).boot is None ==> {
                &&& r <= budget
                &&& final(self).boot is None
                &&& final(self).next_frame_id == old(self).next_frame_id
                &&& final(self).joypad == old(self).joypad
                &&& (final(self).core@, r) == crate::gb_core::step_loop_view(old(self).core@, budget, 0)
            },
    {
        proof {
            crate::gb_core::lemma_step_loop_keeps_config(self.core@, budget, 0);
        }
        match &mut self.boot {
            Some(boot) => boot.step(budget),
            None => self.core.step_cycles(budget),
        }
    }

    /// Executes up to `count` instructions (stopping after one that takes no
    /// cycles) and returns the cycles taken and the final program counter;
    /// any boot animation is abandoned first.
    pub fn step_instructions(&mut self, count: u32) -> (r: (u32, u16))
        requires
            old(self).wf(),
        ensures
            final(self).wf(),
            (final(self)@, r.0, r.1) == instance_step_instructions(old(self)@, count),
            final(self).core.config == old(self).core.config,
            count == 0 ==> r == (0u32, old(self).core.cpu.pc) && *final(self) == *old(self),
            count > 0 ==> {
                let (c, t, pc) = run_instructions(old(self).core@, count as nat, 0, old(self).core.cpu.pc);
                &&& final(self).core@ == c
                &&& r == (t, pc)
                &&& final(self).boot is None
                &&& final(self).next_frame_id == old(self).next_frame_id
                &&& final(self).joypad == old(self).joypad
            },
    {
        let mut total_cycles: u32 = 0;
        let mut last_pc = self.pc();
        if count == 0 {
            return (0, last_pc);
        }
        if self.boot.is_some() {
            self.boot = None;
        }
        let ghost c0 = self.core@;
        let ghost pc0 = last_pc;
        proof {
            lemma_run_keeps_config(c0, count as nat, 0, pc0);
        }
        let mut done: u32 = 0;
        while done < count
            invariant
                done <= count,
                c0 == old(self).core@,
                pc0 == old(self).core.cpu.pc,
                run_instructions(c0, count as nat, 0, pc0).0.config == c0.config,
                self.wf(),
                self.boot is None,
                self.next_frame_id == old(self).next_frame_id,
                self.joypad == old(self).joypad,
                run_instructions(c0, count as nat, 0, pc0) == run_instructions(
                    self.core@,
                    (count - done) as nat,
                    total_cycles,
                    last_pc,
                ),
            decreases count - done,
        {
            let ghost pre = self.core@;
            let ghost pre_total = total_cycles;
            let ghost pre_pc = last_pc;
            let (cycles, pc) = self.core.step_instruction();
            total_cycles = total_cycles.wrapping_add(cycles);
            last_pc = pc;
            if cycles == 0 {
                assert(run_instructions(pre, (count - done) as nat, pre_total, pre_pc) == (
                    self.core@,
                    total_cycles,
                    last_pc,
                ));
                return (total_cycles, last_pc);
            }
            done = done + 1;
        }
        (total_cycles, last_pc)
    }

    /// Whether a frame is ready: never during the boot animation.
    pub fn frame_ready(&self) -> (r: bool)
        ensures
            r == (self.boot is None && self.core.ppu.frame_ready),
            r == instance_frame_ready(self@),
    {
        self.boot.is_none() && self.core.frame_ready()
    }

    /// Hands out the next frame identifier (wrapping).
    pub fn bump_frame_id(&mut self) -> (r: u64)
        ensures
            r == (if old(self).next_frame_id == u64::MAX { 0 } else { (old(self).next_frame_id + 1) as u64 }),
            *final(self) == (Instance { next_frame_id: r, ..*old(self) }),
            final(self)@ == instance_bumped(old(self)@),
    {
        self.next_frame_id = self.next_frame_id.wrapping_add(1);
        self.next_frame_id
    }

    /// Loads a cartridge. With a boot ROM and a non-blank cartridge the core
    /// powers on into the boot ROM; otherwise it starts in the post-boot
    /// state, and a non-blank cartridge first plays the boot animation.
    /// Frame numbering restarts.
    pub fn load_rom(&mut self, rom: Vec<u8>)
        requires
            old(self).wf(),
        ensures
            final(self).wf(),
            final(self)@ == instance_load_rom(old(self)@, rom@),
            final(self).core.config == old(self).core.config,
    {
        let mut blank = true;
        let mut i: usize = 0;
        while i < rom.len()
            invariant
                i <= rom@.len(),
                blank == (forall|k: int| 0 <= k < i ==> rom@[k] == 0),
            decreases rom@.len() - i,
        {
            if rom[i] != 0 {
                blank = false;
            }
            i = i + 1;
        }
        let copy = copy_bytes(rom.as_slice());
        self.core.load_rom(copy);
        let using_boot_rom = self.core.has_boot_rom();
        if using_boot_rom && !blank {
            self.core.reset_power_on(Model::Dmg);
            self.core.set_boot_rom_enabled(true);
            self.boot = None;
        } else {
            self.core.reset_post_boot(Model::Dmg);
            if blank {
                self.boot = None;
            } else {
                let boot = BootSequence::new(&mut self.core, rom.as_slice());
                self.boot = Some(boot);
            }
        }
        self.next_frame_id = 0;
    }

    /// Applies a joypad state.
    pub fn set_inputs(&mut self, joypad: u8)
        ensures
            final(self).joypad == joypad,
            final(self).core@ == (CoreView { bus: set_inputs_view(old(self).core@.bus, joypad), ..old(self).core@ }),
            final(self).boot == old(self).boot,
            final(self).next_frame_id == old(self).next_frame_id,
            final(self).lanes == old(self).lanes,
            final(self).core.config == old(self).core.config,
    {
        self.joypad = joypad;
        self.core.bus.set_inputs(joypad);
    }

    /// Current program counter.
    pub fn pc(&self) -> (r: u16)
        ensures
            r == self.core.cpu.pc,
    {
        self.core.cpu.pc
    }

    /// Captures the registers, PPU and timer registers and the IO block for the inspector.
    pub fn inspector_snapshot(&self) -> (r: InspectorVMMinimal)
        ensures
            (r.cpu, r.ppu, r.timers, r.io@) == snapshot_of(self.core@),
    {
        let core = &self.core;
        let cpu = CpuVM {
            a: core.cpu.a,
            f: core.cpu.f.to_byte(),
            b: core.cpu.b,
            c: core.cpu.c,
            d: core.cpu.d,
            e: core.cpu.e,
            h: core.cpu.h,
            l: core.cpu.l,
            sp: core.cpu.sp,
            pc: core.cpu.pc,
            ime: core.cpu.ime,
            halted: core.cpu.halted,
        };
        let stat = core.bus.io.read(IoRegs::STAT);
        let ppu = PpuVM {
            ly: core.bus.io.read(IoRegs::LY),
            mode: stat & 0x03,
            stat,
            lcdc: core.bus.io.read(IoRegs::LCDC),
            scx: core.bus.io.read(IoRegs::SCX),
            scy: core.bus.io.read(IoRegs::SCY),
            wy: core.bus.io.read(IoRegs::WY),
            wx: core.bus.io.read(IoRegs::WX),
            bgp: core.bus.io.read(IoRegs::BGP),
            frame_ready: core.ppu.frame_ready(),
        };
        let timers = TimersVM { div: core.bus.io.div(), tima: core.bus.io.tima(), tma: core.bus.io.tma(), tac: core.bus.io.tac() };
        let io = copy_bytes(core.bus.io.regs());
        InspectorVMMinimal { cpu, ppu, timers, io }
    }

    /// Copies a memory window of the requested space.
    pub fn mem_window(&self, space: MemSpace, base: u16, len: u16) -> (r: Vec<u8>)
        ensures
            r@ == mem_window_of(self.core@, space, base, len),
    {
        let core = &self.core;
        match space {
            MemSpace::Vram => window_slice(&core.bus.vram, 0x8000, base, len),
            MemSpace::Wram => window_slice(&core.bus.wram, 0xC000, base, len),
            MemSpace::Oam => window_slice(&core.bus.oam, 0xFE00, base, len),
            MemSpace::Io => window_slice(core.bus.io.regs(), 0xFF00, base, len),
        }
    }

    /// Renders the next frame of the only lane into `buf`: a boot animation
    /// frame while it runs (ending it after its last frame), the core's frame otherwise.
    pub fn render_into(&mut self, buf: &mut [u8])
        requires
            old(self).wf(),
            old(self).boot is Some ==> old(buf)@.len() >= 4 * (160 * 144),
            old(self).boot is None ==> old(buf)@.len() >= 4 * (old(self).core.config.frame_width
                * old(self).core.config.frame_height),
        ensures
            final(self).wf(),
            final(buf)@.len() == old(buf)@.len(),
            (final(self)@, final(buf)@) == instance_render(old(self)@, old(buf)@),
            final(self).core.config == old(self).core.config,
            final(self).next_frame_id == old(self).next_frame_id,
            final(self).joypad == old(self).joypad,
            old(self).boot matches Some(b) ==> {
                let (p, s, w) = advance_phase(b.phase, b.scy);
                &&& forall|i: int|
                    0 <= i < old(buf)@.len() ==> #[trigger] final(buf)@[i] == boot_frame_byte(
                        b.scy,
                        tiles_view(b.tiles@),
                        map_view(b.map),
                        old(buf)@[i],
                        i,
                    )
                &&& final(self).core@ == if w {
                    CoreView {
                        bus: BusView { io: crate::bus::io_write_spec(old(self).core@.bus.io, 0x42, s), ..old(self).core@.bus },
                        ..old(self).core@
                    }
                } else {
                    old(self).core@
                }
                &&& if p == BootPhase::Done {
                    final(self).boot is None
                } else {
                    final(self).boot matches Some(nb) && nb.phase == p && nb.scy == s
                        && nb.tiles == b.tiles && nb.map == b.map
                }
            },
            old(self).boot is None ==> {
                &&& forall|i: int|
                    0 <= i < old(buf)@.len() ==> #[trigger] final(buf)@[i] == gradient_byte(
                        old(self).core.config.frame_width as int,
                        old(self).core.config.frame_height as int,
                        old(buf)@[i],
                        i,
                    )
                &&& final(self).core@ == (CoreView {
                    ppu: crate::ppu_stub::PpuStub { frame_ready: false, ..old(self).core.ppu },
                    cycles_this_frame: 0,
                    ..old(self).core@
                })
                &&& final(self).boot is None
            },
    {
        let finished = match &mut self.boot {
            Some(boot) => boot.render(&mut self.core, buf),
            None => {
                self.core.take_frame(buf);
                false
            },
        };
        if finished {
            self.boot = None;
        }
    }

    /// Whether the boot animation is running.
    pub fn boot_active(&self) -> (r: bool)
        ensures
            r == self.boot is Some,
            r == self@.boot is Some,
    {
        self.boot.is_some()
    }
}

} // verus!
