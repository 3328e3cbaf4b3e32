//! The emulator core: CPU, bus, timers and PPU stepped together, with the
//! opcode dispatcher, interrupt servicing and the frame-budget scheduler.
use vstd::prelude::*;
use crate::bus::{advance_serial_view, if_store, BusScalar, BusView, InterruptCtrl, SerialIo};
use crate::cpu::{cpu_power_on, dec16, hl_of, inc16, push16_bus, pop16_value, word, with_hl, Cpu};
use crate::exec::{flags_of_byte, Flags};
use crate::mmu::read8_view;
use crate::ppu_stub::{ppu_initial, ppu_step_view, ppu_wf, PpuStub};
use crate::timers::{timers_initial, timers_step_view, TimerIo, Timers};
use crate::instr::{
    add_hl_rr_view, add_sp_e8_view, alu_a_d8_view, alu_a_r_view, call_a16_view, cb_view, ccf_view,
    cpl_view, daa_view, dec_r_view, dec_rr_view, di_view, ei_view, halt_view, inc_r_view,
    inc_rr_view, jp_a16_view, jr_cc_view, jr_view, ld_a16_a_view, ld_a_a16_view, ld_a_hl_step_view,
    ld_a_mem_rr_view, ld_hl_a_step_view, ld_hl_d8_view, ld_hl_sp_plus_e8_view, ld_mem_a16_sp_view,
    ld_mem_rr_a_view, ld_r_d8_view, ld_r_r_view, ld_rr_d16_view, ld_sp_hl_view, ldh_a8_a_view,
    ldh_a_a8_view, ldh_a_c_view, ldh_c_a_view, pop_rr_view, push_rr_view, ret_view, rla_view,
    rlca_view, rra_view, rrca_view, scf_view, AluOp,
};
use crate::instr;

verus! {

/// Hardware model variants supported by the core.
#[derive(Clone, Copy, Debug, PartialEq, Eq)]
pub enum Model {
    /// First-generation monochrome model (DMG).
    Dmg,
}

/// Core configuration shared across backends.
#[derive(Clone, Copy, Debug, PartialEq, Eq)]
pub struct CoreConfig {
    /// Width of the output frame in pixels.
    pub frame_width: u16,
    /// Height of the output frame in pixels.
    pub frame_height: u16,
}

impl Default for CoreConfig {
    fn default() -> (r: Self)
        ensures
            r == (CoreConfig { frame_width: 160, frame_height: 144 }),
    {
        CoreConfig { frame_width: 160, frame_height: 144 }
    }
}

/// Combined CPU + bus + timing core.
pub struct Core {
    /// CPU register file and scheduler state.
    pub cpu: Cpu,
    /// Memory and IO bus implementation.
    pub bus: BusScalar,
    /// Timer block shared with the scheduler.
    pub timers: Timers,
    /// PPU used for frame pacing.
    pub ppu: PpuStub,
    /// Cycle budget accumulated within the current frame.
    pub cycles_this_frame: u32,
    /// Frame dimensions.
    pub config: CoreConfig,
    /// Hardware model.
    pub model: Model,
}

/// Core after a cartridge swap: the new ROM, bank 1 selected, serial link,
/// joypad latches and timer write latches reset, and execution restarted at
/// `0x0100` (the boot overlay re-enabled when a boot ROM is present).
pub open spec fn load_rom_view(c: CoreView, rom: Seq<u8>) -> CoreView {
    CoreView {
        bus: BusView {
            rom: rom,
            boot_rom_enabled: c.bus.boot_rom is Some,
            serial_out: Seq::empty(),
            serial_active: false,
            serial_counter: 0,
            serial_bits_remaining: 0,
            joyp_select: 0x30,
            joyp_buttons: 0x0F,
            joyp_dpad: 0x0F,
            timer_div_reset: false,
            timer_tima_write: None,
            timer_tma_write: None,
            timer_tac_write: None,
            rom_bank: crate::bus::select_rom_bank(rom.len(), 1) as usize,
            ..c.bus
        },
        cpu: Cpu { pc: 0x0100, ..c.cpu },
        ..c
    }
}

/// Core reset to the post-boot state: DMG registers as the boot ROM leaves
/// them, timers and PPU reset, bus contents kept.
pub open spec fn post_boot_view(c: CoreView, model: Model) -> CoreView {
    CoreView { cpu: cpu_power_on(), timers: timers_initial(), ppu: ppu_initial(), cycles_this_frame: 0, model, ..c }
}

/// Core reset to the power-on state a boot ROM starts from: registers
/// cleared, `PC = 0`, memory, timers and PPU reset.
pub open spec fn power_on_view(c: CoreView, model: Model) -> CoreView {
    CoreView {
        cpu: Cpu {
            a: 0,
            f: flags_of_byte(0),
            b: 0,
            c: 0,
            d: 0,
            e: 0,
            h: 0,
            l: 0,
            sp: 0,
            pc: 0,
            ime: false,
            halted: false,
            enable_ime_pending: false,
        },
        bus: crate::bus::reset_memory_view(c.bus),
        timers: timers_initial(),
        ppu: ppu_initial(),
        cycles_this_frame: 0,
        model,
        ..c
    }
}

/// Mathematical model of the whole core.
#[verifier::ext_equal]
pub struct CoreView {
    pub cpu: Cpu,
    pub bus: BusView,
    pub timers: Timers,
    pub ppu: PpuStub,
    pub cycles_this_frame: u32,
    pub config: CoreConfig,
    pub model: Model,
}

impl View for Core {
    type V = CoreView;

    open spec fn view(&self) -> CoreView {
        CoreView {
            cpu: self.cpu,
            bus: self.bus@,
            timers: self.timers,
            ppu: self.ppu,
            cycles_this_frame: self.cycles_this_frame,
            config: self.config,
            model: self.model,
        }
    }
}

/// Register file replaced.
pub open spec fn set_cpu(s: CoreView, c: Cpu) -> CoreView {
    CoreView { cpu: c, ..s }
}

/// Bus replaced.
pub open spec fn set_bus(s: CoreView, b: BusView) -> CoreView {
    CoreView { bus: b, ..s }
}

/// Byte at `PC` and the state with `PC` advanced.
pub open spec fn fetch8_view(s: CoreView) -> (CoreView, u8) {
    (set_cpu(s, Cpu { pc: inc16(s.cpu.pc), ..s.cpu }), read8_view(s.bus, s.cpu.pc))
}

/// Little-endian word at `PC` and the state with `PC` advanced by two.
pub open spec fn fetch16_view(s: CoreView) -> (CoreView, u16) {
    let (s1, lo) = fetch8_view(s);
    let (s2, hi) = fetch8_view(s1);
    (s2, word(hi, lo))
}

/// `value` pushed onto the stack.
pub open spec fn push16_view(s: CoreView, value: u16) -> CoreView {
    CoreView {
        cpu: Cpu { sp: dec16(dec16(s.cpu.sp)), ..s.cpu },
        bus: push16_bus(s.bus, s.cpu.sp, value),
        ..s
    }
}

/// Word popped from the stack and the state with `SP` advanced by two.
pub open spec fn pop16_view(s: CoreView) -> (CoreView, u16) {
    (
        set_cpu(s, Cpu { sp: inc16(inc16(s.cpu.sp)), ..s.cpu }),
        pop16_value(s.bus, s.cpu.sp),
    )
}

/// Core invariant: the PPU's mode and dot position are consistent.
pub open spec fn core_wf(s: CoreView) -> bool {
    ppu_wf(s.ppu)
}

/// `INC r`: result and flags (carry kept).
pub open spec fn inc_flags(f: Flags, v: u8) -> Flags {
    Flags { z: (v + 1) % 256 == 0, n: false, h: v % 16 == 15, c: f.c }
}

/// `DEC r`: result and flags (carry kept).
pub open spec fn dec_flags(f: Flags, v: u8) -> Flags {
    Flags { z: v == 1, n: true, h: v % 16 == 0, c: f.c }
}

/// Sign-extended value of an 8-bit two's-complement offset.
pub open spec fn sext8(o: u8) -> int {
    if o >= 128 {
        o - 256
    } else {
        o as int
    }
}

/// `SP + e8` with its half-carry and carry (computed on the low byte).
pub open spec fn add_sp_e8_spec(sp: u16, o: u8) -> (u16, bool, bool) {
    (((sp + sext8(o)) % 65536) as u16, sp % 16 + o % 16 >= 16, sp % 256 + o >= 256)
}

proof fn lemma_inc_dec_half(v: u8)
    ensures
        (((v ^ (((v + 1) % 256) as u8)) & 0x10u8) != 0u8) == (v % 16 == 15),
        (((v ^ (((v + 255) % 256) as u8)) & 0x10u8) != 0u8) == (v % 16 == 0),
{
    assert((((v ^ (((v + 1) % 256) as u8)) & 0x10u8) != 0u8) == (v % 16 == 15)) by (bit_vector);
    assert((((v ^ (((v + 255) % 256) as u8)) & 0x10u8) != 0u8) == (v % 16 == 0)) by (bit_vector);
}

proof fn lemma_add16_half(lhs: u16, rhs: u16)
    by (bit_vector)
    ensures
        (((lhs & 0x0FFFu16) + (rhs & 0x0FFFu16)) > 0x0FFF) == (lhs % 4096 + rhs % 4096 > 4095),
        (lhs & 0x0FFFu16) <= 0x0FFF,
        (rhs & 0x0FFFu16) <= 0x0FFF,
{
}

proof fn lemma_add_sp_flags(sp: u16, o: u8, off: u16, result: u16)
    by (bit_vector)
    requires
        off == (if o >= 128u8 { (0xFF00u16 + o as u16) as u16 } else { o as u16 }),
        result == ((sp + off) % 65536) as u16,
    ensures
        (((sp ^ off ^ result) & 0x0010u16) != 0u16) == (sp % 16 + o % 16 >= 16),
        (((sp ^ off ^ result) & 0x0100u16) != 0u16) == (sp % 256 + o >= 256),
{
}


/// Opcodes `0x00..=0x3F` never change the frame configuration.
#[verifier::rlimit(100)]
#[verifier::spinoff_prover]
proof fn lemma_dispatch_low_keeps_config(s: CoreView, op: u8)
    requires
        op <= 0x3F,
    ensures
        dispatch_low_view(s, op).0.config == s.config,
{
}

/// Opcodes `0xC0..=0xFF` never change the frame configuration.
#[verifier::rlimit(100)]
#[verifier::spinoff_prover]
proof fn lemma_dispatch_high_keeps_config(s: CoreView, op: u8)
    ensures
        dispatch_high_view(s, op).0.config == s.config,
{
}

/// No instruction changes the frame configuration.
proof fn lemma_execute_keeps_config(s: CoreView)
    ensures
        execute_view(s).0.config == s.config,
{
    let (s1, opcode) = fetch8_view(s);
    if opcode <= 0x3F {
        lemma_dispatch_low_keeps_config(s1, opcode);
    } else if opcode >= 0xC0 {
        lemma_dispatch_high_keeps_config(s1, opcode);
    }
}

/// One scheduler step never changes the frame configuration.
pub proof fn lemma_step_keeps_config(s: CoreView, budget: u32, step: u32)
    ensures
        instruction_step_view(s, budget).0.config == s.config,
        advance_peripherals_view(s, step).config == s.config,
{
    reveal(instruction_step_view);
    reveal(advance_peripherals_view);
    let (s1, c1) = service_interrupts_view(s);
    lemma_execute_keeps_config(s1);
}

/// The scheduler loop never changes the frame configuration.
pub proof fn lemma_step_loop_keeps_config(s: CoreView, budget: u32, consumed: u32)
    ensures
        step_loop_view(s, budget, consumed).0.config == s.config,
    decreases budget,
{
    if budget > 0 {
        let (s1, cycles) = instruction_step_view(s, budget);
        let step: u32 = if cycles < budget { cycles } else { budget };
        lemma_step_keeps_config(s, budget, step);
        lemma_step_keeps_config(s1, budget, step);
        let s2 = advance_peripherals_view(s1, step);
        let consumed2 = ((consumed + step) % 0x1_0000_0000) as u32;
        if !(step == 0 || s2.ppu.frame_ready) {
            lemma_step_loop_keeps_config(s2, (budget - step) as u32, consumed2);
        }
    }
}

impl Core {
    /// Creates a core with the supplied bus and configuration.
    pub fn new(bus: BusScalar, config: CoreConfig, model: Model) -> (r: Self)
        ensures
            r@ == (CoreView {
                cpu: cpu_power_on(),
                bus: bus@,
                timers: timers_initial(),
                ppu: ppu_initial(),
                cycles_this_frame: 0,
                config,
                model,
            }),
            core_wf(r@),
    {
        Core {
            cpu: Cpu::new(),
            bus,
            timers: Timers::new(),
            ppu: PpuStub::new(),
            cycles_this_frame: 0,
            config,
            model,
        }
    }

    /// Resets CPU and peripheral state to post-boot defaults (bus contents kept).
    pub fn reset_post_boot(&mut self, model: Model)
        ensures
            final(self)@ == post_boot_view(old(self)@, model),
            core_wf(final(self)@),
    {
        self.model = model;
        self.cpu = Cpu::new();
        self.timers.reset();
        self.ppu.reset();
        self.cycles_this_frame = 0;
        match model {
            Model::Dmg => {
                // Classic DMG register defaults.
                self.cpu.a = 0x01;
                self.cpu.f.from_byte(0xB0);
                self.cpu.b = 0x00;
                self.cpu.c = 0x13;
                self.cpu.d = 0x00;
                self.cpu.e = 0xD8;
                self.cpu.h = 0x01;
                self.cpu.l = 0x4D;
                self.cpu.sp = 0xFFFE;
                self.cpu.pc = 0x0100;
            },
        }
    }

    /// Resets to the power-on state used when a boot ROM runs: registers
    /// cleared, `PC = 0`, memory and peripherals reset.
    pub fn reset_power_on(&mut self, model: Model)
        ensures
            final(self)@ == power_on_view(old(self)@, model),
            core_wf(final(self)@),
    {
        self.model = model;
        let mut flags = Flags::new();
        flags.from_byte(0);
        self.cpu = Cpu {
            a: 0,
            f: flags,
            b: 0,
            c: 0,
            d: 0,
            e: 0,
            h: 0,
            l: 0,
            sp: 0,
            pc: 0,
            ime: false,
            halted: false,
            enable_ime_pending: false,
        };
        self.bus.reset_memory();
        self.timers.reset();
        self.ppu.reset();
        self.cycles_this_frame = 0;
    }

    /// Returns whether a bootstrap overlay is present.
    pub fn has_boot_rom(&self) -> (r: bool)
        ensures
            r == self@.bus.boot_rom is Some,
    {
        self.bus.has_boot_rom()
    }

    /// Returns whether the bootstrap overlay is active.
    pub fn boot_rom_enabled(&self) -> (r: bool)
        ensures
            r == self@.bus.boot_rom_enabled,
    {
        self.bus.boot_rom_enabled()
    }

    /// Enables or disables the bootstrap overlay.
    pub fn set_boot_rom_enabled(&mut self, enabled: bool)
        ensures
            final(self)@ == (CoreView {
                bus: BusView {
                    boot_rom_enabled: if old(self)@.bus.boot_rom is Some {
                        enabled
                    } else {
                        old(self)@.bus.boot_rom_enabled
                    },
                    ..old(self)@.bus
                },
                ..old(self)@
            }),
    {
        self.bus.set_boot_rom_enabled(enabled);
    }

    /// Returns whether the PPU reported a frame boundary.
    pub fn frame_ready(&self) -> (r: bool)
        ensures
            r == self.ppu.frame_ready,
    {
        self.ppu.frame_ready()
    }

    /// `INC` on a byte: returns the result and 4 cycles, updating Z/N/H and keeping C.
    pub(crate) fn inc_reg(&mut self, value: u8) -> (r: (u8, u32))
        ensures
            r == (((value + 1) % 256) as u8, 4u32),
            final(self)@ == set_cpu(
                old(self)@,
                Cpu { f: inc_flags(old(self).cpu.f, value), ..old(self).cpu },
            ),
    {
        let carry = self.cpu.f.c();
        let res = value.wrapping_add(1);
        proof {
            lemma_inc_dec_half(value);
        }
        self.cpu.f.set_z(res == 0);
        self.cpu.f.set_n(false);
        self.cpu.f.set_h(((value ^ res) & 0x10) != 0);
        self.cpu.f.set_c(carry);
        (res, 4)
    }

    /// `DEC` on a byte: returns the result and 4 cycles, updating Z/N/H and keeping C.
    pub(crate) fn dec_reg(&mut self, value: u8) -> (r: (u8, u32))
        ensures
            r == (((value + 255) % 256) as u8, 4u32),
            final(self)@ == set_cpu(
                old(self)@,
                Cpu { f: dec_flags(old(self).cpu.f, value), ..old(self).cpu },
            ),
    {
        let carry = self.cpu.f.c();
        let res = value.wrapping_sub(1);
        proof {
            lemma_inc_dec_half(value);
        }
        self.cpu.f.set_z(res == 0);
        self.cpu.f.set_n(true);
        self.cpu.f.set_h(((value ^ res) & 0x10) != 0);
        self.cpu.f.set_c(carry);
        (res, 4)
    }

    /// Adds the sign-extended `offset` to `PC` when `condition` holds.
    pub(crate) fn jump_relative(&mut self, offset: u8, condition: bool)
        ensures
            final(self)@ == (if condition {
                set_cpu(
                    old(self)@,
                    Cpu { pc: ((old(self).cpu.pc + sext8(offset)) % 65536) as u16, ..old(self).cpu },
                )
            } else {
                old(self)@
            }),
    {
        if condition {
            let pc = self.cpu.pc;
            let delta: u16 = if offset >= 128 { 0xFF00u16 + offset as u16 } else { offset as u16 };
            self.cpu.pc = pc.wrapping_add(delta);
        }
    }

    /// `ADD HL, rr`: returns 8 cycles; N cleared, H from bit 11, C from bit 15, Z kept.
    pub(crate) fn add16_hl(&mut self, rhs: u16) -> (r: u32)
        ensures
            r == 8,
            final(self)@ == set_cpu(
                old(self)@,
                Cpu {
                    f: Flags {
                        n: false,
                        h: hl_of(old(self).cpu) % 4096 + rhs % 4096 > 4095,
                        c: hl_of(old(self).cpu) + rhs > 0xFFFF,
                        ..old(self).cpu.f
                    },
                    ..with_hl(old(self).cpu, ((hl_of(old(self).cpu) + rhs) % 65536) as u16)
                },
            ),
    {
        let lhs = self.cpu.hl();
        let result = lhs.wrapping_add(rhs);
        assert(result == ((lhs + rhs) % 65536) as u16);
        proof {
            lemma_add16_half(lhs, rhs);
        }
        let h = ((lhs & 0x0FFF) + (rhs & 0x0FFF)) > 0x0FFF;
        let c = (lhs as u32 + rhs as u32) > 0xFFFF;
        proof {
            lemma_add16_half(lhs, rhs);
        }
        let ghost f0 = self.cpu.f;
        self.cpu.set_hl(result);
        self.cpu.f = Flags { n: false, h: h, c: c, ..self.cpu.f };
        8
    }

    /// Increments a 16-bit value (wrapping); 8 cycles.
    pub(crate) fn inc16(&self, value: u16) -> (r: (u16, u32))
        ensures
            r == (inc16(value), 8u32),
    {
        (value.wrapping_add(1), 8)
    }

    /// Decrements a 16-bit value (wrapping); 8 cycles.
    pub(crate) fn dec16(&self, value: u16) -> (r: (u16, u32))
        ensures
            r == (dec16(value), 8u32),
    {
        (value.wrapping_sub(1), 8)
    }

    /// `SP + e8` with the half-carry and carry flags of the low-byte addition.
    pub(crate) fn add_sp_e8(&self, offset: u8) -> (r: (u16, bool, bool))
        ensures
            r == add_sp_e8_spec(self.cpu.sp, offset),
    {
        let sp = self.cpu.sp;
        let off: u16 = if offset >= 128 { 0xFF00u16 + offset as u16 } else { offset as u16 };
        let result = sp.wrapping_add(off);
        proof {
            lemma_add_sp_flags(sp, offset, off, result);
        }
        let half = ((sp ^ off ^ result) & 0x0010) != 0;
        let carry = ((sp ^ off ^ result) & 0x0100) != 0;
        (result, half, carry)
    }
}


/// ALU operation selected by an opcode in `0x80..=0xBF`.
pub open spec fn alu_op_of(op: u8) -> AluOp {
    if op <= 0x87 {
        AluOp::Add
    } else if op <= 0x8F {
        AluOp::Adc
    } else if op <= 0x97 {
        AluOp::Sub
    } else if op <= 0x9F {
        AluOp::Sbc
    } else if op <= 0xA7 {
        AluOp::And
    } else if op <= 0xAF {
        AluOp::Xor
    } else if op <= 0xB7 {
        AluOp::Or
    } else {
        AluOp::Cp
    }
}

/// Decoded effect of opcodes `0x00..=0x3F`.
pub open spec fn dispatch_low_view(s: CoreView, op: u8) -> (CoreView, u32) {
    if op == 0x00 { (s, 4) }
    else if op == 0x01 { ld_rr_d16_view(s, 0) }
    else if op == 0x02 { ld_mem_rr_a_view(s, 0) }
    else if op == 0x03 { inc_rr_view(s, 0) }
    else if op == 0x04 { inc_r_view(s, 0) }
    else if op == 0x05 { dec_r_view(s, 0) }
    else if op == 0x06 { ld_r_d8_view(s, 0) }
    else if op == 0x07 { rlca_view(s) }
    else if op == 0x08 { ld_mem_a16_sp_view(s) }
    else if op == 0x09 { add_hl_rr_view(s, 0) }
    else if op == 0x0A { ld_a_mem_rr_view(s, 0) }
    else if op == 0x0B { dec_rr_view(s, 0) }
    else if op == 0x0C { inc_r_view(s, 1) }
    else if op == 0x0D { dec_r_view(s, 1) }
    else if op == 0x0E { ld_r_d8_view(s, 1) }
    else if op == 0x0F { rrca_view(s) }
    else if op == 0x10 { halt_view(s) }
    else if op == 0x11 { ld_rr_d16_view(s, 1) }
    else if op == 0x12 { ld_mem_rr_a_view(s, 1) }
    else if op == 0x13 { inc_rr_view(s, 1) }
    else if op == 0x14 { inc_r_view(s, 2) }
    else if op == 0x15 { dec_r_view(s, 2) }
    else if op == 0x16 { ld_r_d8_view(s, 2) }
    else if op == 0x17 { rla_view(s) }
    else if op == 0x18 { jr_view(s) }
    else if op == 0x19 { add_hl_rr_view(s, 1) }
    else if op == 0x1A { ld_a_mem_rr_view(s, 1) }
    else if op == 0x1B { dec_rr_view(s, 1) }
    else if op == 0x1C { inc_r_view(s, 3) }
    else if op == 0x1D { dec_r_view(s, 3) }
    else if op == 0x1E { ld_r_d8_view(s, 3) }
    else if op == 0x1F { rra_view(s) }
    else if op == 0x20 || op == 0x28 || op == 0x30 || op == 0x38 { jr_cc_view(s, op) }
    else if op == 0x21 { ld_rr_d16_view(s, 2) }
    else if op == 0x22 { ld_hl_a_step_view(s, true) }
    else if op == 0x23 { inc_rr_view(s, 2) }
    else if op == 0x24 { inc_r_view(s, 4) }
    else if op == 0x25 { dec_r_view(s, 4) }
    else if op == 0x26 { ld_r_d8_view(s, 4) }
    else if op == 0x27 { daa_view(s) }
    else if op == 0x29 { add_hl_rr_view(s, 2) }
    else if op == 0x2A { ld_a_hl_step_view(s, true) }
    else if op == 0x2B { dec_rr_view(s, 2) }
    else if op == 0x2C { inc_r_view(s, 5) }
    else if op == 0x2D { dec_r_view(s, 5) }
    else if op == 0x2E { ld_r_d8_view(s, 5) }
    else if op == 0x2F { cpl_view(s) }
    else if op == 0x31 { ld_rr_d16_view(s, 3) }
    else if op == 0x32 { ld_hl_a_step_view(s, false) }
    else if op == 0x33 { inc_rr_view(s, 3) }
    else if op == 0x34 { inc_r_view(s, 6) }
    else if op == 0x35 { dec_r_view(s, 6) }
    else if op == 0x36 { ld_hl_d8_view(s) }
    else if op == 0x37 { scf_view(s) }
    else if op == 0x39 { add_hl_rr_view(s, 3) }
    else if op == 0x3A { ld_a_hl_step_view(s, false) }
    else if op == 0x3B { dec_rr_view(s, 3) }
    else if op == 0x3C { inc_r_view(s, 7) }
    else if op == 0x3D { dec_r_view(s, 7) }
    else if op == 0x3E { ld_r_d8_view(s, 7) }
    else { ccf_view(s) }
}

/// Decoded effect of opcodes `0xC0..=0xFF` (the prefix byte of `0xCB` already fetched).
pub open spec fn dispatch_high_view(s: CoreView, op: u8) -> (CoreView, u32) {
    if op == 0xC1 { pop_rr_view(s, 0) }
    else if op == 0xC3 { jp_a16_view(s) }
    else if op == 0xC5 { push_rr_view(s, 0) }
    else if op == 0xC6 { alu_a_d8_view(s, AluOp::Add) }
    else if op == 0xC9 { ret_view(s) }
    else if op == 0xCB {
        let (s1, sub) = fetch8_view(s);
        cb_view(s1, sub)
    }
    else if op == 0xCD { call_a16_view(s) }
    else if op == 0xCE { alu_a_d8_view(s, AluOp::Adc) }
    else if op == 0xD1 { pop_rr_view(s, 1) }
    else if op == 0xD5 { push_rr_view(s, 1) }
    else if op == 0xD6 { alu_a_d8_view(s, AluOp::Sub) }
    else if op == 0xDE { alu_a_d8_view(s, AluOp::Sbc) }
    else if op == 0xE0 { ldh_a8_a_view(s) }
    else if op == 0xE1 { pop_rr_view(s, 2) }
    else if op == 0xE2 { ldh_c_a_view(s) }
    else if op == 0xE5 { push_rr_view(s, 2) }
    else if op == 0xE6 { alu_a_d8_view(s, AluOp::And) }
    else if op == 0xE8 { add_sp_e8_view(s) }
    else if op == 0xEA { ld_a16_a_view(s) }
    else if op == 0xEE { alu_a_d8_view(s, AluOp::Xor) }
    else if op == 0xF0 { ldh_a_a8_view(s) }
    else if op == 0xF1 { pop_rr_view(s, 3) }
    else if op == 0xF2 { ldh_a_c_view(s) }
    else if op == 0xF3 { di_view(s) }
    else if op == 0xF5 { push_rr_view(s, 3) }
    else if op == 0xF6 { alu_a_d8_view(s, AluOp::Or) }
    else if op == 0xF8 { ld_hl_sp_plus_e8_view(s) }
    else if op == 0xF9 { ld_sp_hl_view(s) }
    else if op == 0xFA { ld_a_a16_view(s) }
    else if op == 0xFB { ei_view(s) }
    else if op == 0xFE { alu_a_d8_view(s, AluOp::Cp) }
    else { (s, 4) }
}

/// Decoded effect of an opcode (after the opcode byte was fetched).
pub open spec fn dispatch_view(s: CoreView, op: u8) -> (CoreView, u32) {
    if op <= 0x3F {
        dispatch_low_view(s, op)
    } else if op <= 0x7F {
        if op == 0x76 {
            halt_view(s)
        } else {
            ld_r_r_view(s, op)
        }
    } else if op <= 0xBF {
        alu_a_r_view(s, op, alu_op_of(op))
    } else {
        dispatch_high_view(s, op)
    }
}

/// One instruction fetched and executed; a pending `EI` takes effect
/// afterwards, unless the instruction is `DI`, which disables interrupts at
/// once and cancels it.
pub open spec fn execute_view(s: CoreView) -> (CoreView, u32) {
    let pending_before = s.cpu.enable_ime_pending;
    let (s1, opcode) = fetch8_view(s);
    let (s2, cycles) = dispatch_view(s1, opcode);
    if pending_before && opcode != 0xF3 {
        (set_cpu(s2, Cpu { ime: true, enable_ime_pending: opcode == 0xFB, ..s2.cpu }), cycles)
    } else {
        (s2, cycles)
    }
}

/// Index (0-4) of the lowest set bit among bits 0-4 of a nonzero
/// `p & 0x1F` (4 when only bit 4 is set).
pub open spec fn lowest_interrupt(p: u8) -> u8 {
    if p & 0x01 != 0 {
        0
    } else if p & 0x02 != 0 {
        1
    } else if p & 0x04 != 0 {
        2
    } else if p & 0x08 != 0 {
        3
    } else {
        4
    }
}

/// Vector address of interrupt `bit`.
pub open spec fn interrupt_vector(bit: u8) -> u16 {
    (0x40 + 8 * bit) as u16
}

/// Interrupt dispatch. Only bits 0-4 of IE and IF are interrupt sources
/// (VBlank, STAT, timer, serial, joypad). With nothing requested among them
/// the core is left as it is. Otherwise, with IME set, the lowest requested
/// interrupt is acknowledged, `PC` pushed and its vector taken (20 cycles);
/// with IME clear a halted CPU wakes and nothing else changes.
pub open spec fn service_interrupts_view(s: CoreView) -> (CoreView, u32) {
    let pending = s.bus.ie & s.bus.io[0x0F] & 0x1F;
    if pending == 0 {
        (s, 0)
    } else if s.cpu.ime {
        let bit = lowest_interrupt(pending);
        let if_reg = s.bus.io[0x0F] & !(1u8 << bit);
        let s1 = CoreView {
            cpu: Cpu { halted: false, ime: false, ..s.cpu },
            bus: BusView { io: s.bus.io.update(0x0F, if_store(if_reg)), ..s.bus },
            ..s
        };
        let s2 = push16_view(s1, s1.cpu.pc);
        (set_cpu(s2, Cpu { pc: interrupt_vector(bit), ..s2.cpu }), 20)
    } else {
        (set_cpu(s, Cpu { halted: false, ..s.cpu }), 0)
    }
}

#[verifier::opaque]
/// Instruction part of one scheduler iteration: interrupt entry, a halted
/// idle of up to 4 cycles, or one executed instruction.
pub open spec fn instruction_step_view(s: CoreView, budget: u32) -> (CoreView, u32) {
    let (s1, c1) = service_interrupts_view(s);
    if c1 == 0 {
        if s1.cpu.halted {
            (s1, if budget < 4 { budget } else { 4 })
        } else {
            execute_view(s1)
        }
    } else {
        (s1, c1)
    }
}

#[verifier::opaque]
/// Timers, serial link and PPU advanced by `step` cycles.
pub open spec fn advance_peripherals_view(s: CoreView, step: u32) -> CoreView {
    let (t, b1) = timers_step_view(s.timers, s.bus, step);
    let b2 = advance_serial_view(b1, step as nat);
    let (p, b3) = ppu_step_view(s.ppu, b2, step);
    CoreView {
        timers: t,
        bus: b3,
        ppu: p,
        cycles_this_frame: ((s.cycles_this_frame + step) % 0x1_0000_0000) as u32,
        ..s
    }
}

/// Scheduler loop: run until the budget is spent or a frame is ready.
pub open spec fn step_loop_view(s: CoreView, budget: u32, consumed: u32) -> (CoreView, u32)
    decreases budget,
{
    if budget == 0 {
        (s, consumed)
    } else {
        let (s1, cycles) = instruction_step_view(s, budget);
        let step: u32 = if cycles < budget {
            cycles
        } else {
            budget
        };
        let s2 = advance_peripherals_view(s1, step);
        let consumed2 = ((consumed + step) % 0x1_0000_0000) as u32;
        if step == 0 || s2.ppu.frame_ready {
            (s2, consumed2)
        } else {
            step_loop_view(s2, (budget - step) as u32, consumed2)
        }
    }
}

impl Core {
    /// Executes instructions until the cycle budget is exhausted or a frame boundary is hit.
    /// Returns the cycles consumed.
    pub fn step_cycles(&mut self, budget: u32) -> (r: u32)
        requires
            core_wf(old(self)@),
        ensures
            (final(self)@, r) == step_loop_view(old(self)@, budget, 0),
            core_wf(final(self)@),
            r <= budget,
            r < budget ==> final(self).ppu.frame_ready,
    {
        if budget == 0 {
            return 0;
        }
        let ghost target = step_loop_view(self@, budget, 0);
        let ghost budget0 = budget;
        let mut left = budget;
        let mut consumed: u32 = 0;
        while left > 0
            invariant_except_break
                step_loop_view(self@, left, consumed) == target,
            invariant
                core_wf(self@),
                consumed + left == budget0,
                budget0 == budget,
            ensures
                (self@, consumed) == target,
                consumed < budget0 ==> self.ppu.frame_ready,
                consumed <= budget0,
            decreases left,
        {
            let cycles = self.instruction_step(left);
            let step = if cycles < left { cycles } else { left };
            self.advance_peripherals(step);
            consumed = consumed.wrapping_add(step);
            left = left.saturating_sub(step);
            if self.ppu.frame_ready() {
                break;
            }
        }
        consumed
    }

    fn instruction_step(&mut self, budget: u32) -> (r: u32)
        requires
            budget > 0,
        ensures
            (final(self)@, r) == instruction_step_view(old(self)@, budget),
            r > 0,
            final(self).ppu == old(self).ppu,
    {
        reveal(instruction_step_view);
        let mut cycles = self.service_interrupts();
        if cycles == 0 {
            if self.cpu.halted {
                cycles = if budget < 4 { budget } else { 4 };
            } else {
                cycles = self.execute_opcode();
            }
        }
        cycles
    }

    fn advance_peripherals(&mut self, step: u32)
        requires
            core_wf(old(self)@),
        ensures
            final(self)@ == advance_peripherals_view(old(self)@, step),
            core_wf(final(self)@),
    {
        reveal(advance_peripherals_view);
        self.timers.step(step, &mut self.bus);
        self.bus.step_serial(step);
        self.ppu.step(step, &mut self.bus);
        self.cycles_this_frame = self.cycles_this_frame.wrapping_add(step);
    }

    /// Executes one scheduler step without a budget cap: an interrupt entry,
    /// a halted idle of 4 cycles, or one instruction. Returns the cycles and the new `PC`.
    pub fn step_instruction(&mut self) -> (r: (u32, u16))
        requires
            core_wf(old(self)@),
        ensures
            final(self)@ == advance_peripherals_view(
                instruction_step_view(old(self)@, 4).0,
                instruction_step_view(old(self)@, 4).1,
            ),
            r == (instruction_step_view(old(self)@, 4).1, final(self).cpu.pc),
            core_wf(final(self)@),
    {
        let cycles = self.instruction_step(4);
        self.advance_peripherals(cycles);
        (cycles, self.cpu.pc)
    }

    fn execute_opcode(&mut self) -> (r: u32)
        ensures
            (final(self)@, r) == execute_view(old(self)@),
            r >= 4,
            final(self).ppu == old(self).ppu,
    {
        let pending_before = self.cpu.enable_ime_pending;
        let opcode = self.cpu.fetch8(&mut self.bus);
        let was_ei = opcode == 0xFB;
        let was_di = opcode == 0xF3;
        let cycles = if opcode <= 0x3F {
            self.execute_low(opcode)
        } else if opcode <= 0x7F {
            if opcode == 0x76 {
                instr::op_halt(self)
            } else {
                instr::op_ld_r_r(self, opcode)
            }
        } else if opcode <= 0xBF {
            let op = if opcode <= 0x87 {
                AluOp::Add
            } else if opcode <= 0x8F {
                AluOp::Adc
            } else if opcode <= 0x97 {
                AluOp::Sub
            } else if opcode <= 0x9F {
                AluOp::Sbc
            } else if opcode <= 0xA7 {
                AluOp::And
            } else if opcode <= 0xAF {
                AluOp::Xor
            } else if opcode <= 0xB7 {
                AluOp::Or
            } else {
                AluOp::Cp
            };
            instr::op_alu_a_r(self, opcode, op)
        } else {
            self.execute_high(opcode)
        };
        if pending_before && !was_di {
            self.cpu.ime = true;
            self.cpu.enable_ime_pending = was_ei;
        }
        cycles
    }

    #[verifier::rlimit(100)]
    fn execute_low(&mut self, opcode: u8) -> (r: u32)
        requires
            opcode <= 0x3F,
        ensures
            (final(self)@, r) == dispatch_low_view(old(self)@, opcode),
            r >= 4,
            final(self).ppu == old(self).ppu,
    {
        proof {
            crate::bits::lemma_byte_fields();
        }
        match opcode {
            0x00 => instr::op_nop(),
            0x01 => instr::op_ld_rr_d16(self, 0),
            0x02 => instr::op_ld_mem_rr_a(self, 0),
            0x03 => instr::op_inc_rr(self, 0),
            0x04 => instr::op_inc_r(self, 0),
            0x05 => instr::op_dec_r(self, 0),
            0x06 => instr::op_ld_r_d8(self, 0),
            0x07 => instr::op_rlca(self),
            0x08 => instr::op_ld_mem_a16_sp(self),
            0x09 => instr::op_add_hl_rr(self, 0),
            0x0A => instr::op_ld_a_mem_rr(self, 0),
            0x0B => instr::op_dec_rr(self, 0),
            0x0C => instr::op_inc_r(self, 1),
            0x0D => instr::op_dec_r(self, 1),
            0x0E => instr::op_ld_r_d8(self, 1),
            0x0F => instr::op_rrca(self),
            0x10 => instr::op_stop(self),
            0x11 => instr::op_ld_rr_d16(self, 1),
            0x12 => instr::op_ld_mem_rr_a(self, 1),
            0x13 => instr::op_inc_rr(self, 1),
            0x14 => instr::op_inc_r(self, 2),
            0x15 => instr::op_dec_r(self, 2),
            0x16 => instr::op_ld_r_d8(self, 2),
            0x17 => instr::op_rla(self),
            0x18 => instr::op_jr(self),
            0x19 => instr::op_add_hl_rr(self, 1),
            0x1A => instr::op_ld_a_mem_rr(self, 1),
            0x1B => instr::op_dec_rr(self, 1),
            0x1C => instr::op_inc_r(self, 3),
            0x1D => instr::op_dec_r(self, 3),
            0x1E => instr::op_ld_r_d8(self, 3),
            0x1F => instr::op_rra(self),
            0x20 | 0x28 | 0x30 | 0x38 => instr::op_jr_cc(self, opcode),
            0x21 => instr::op_ld_rr_d16(self, 2),
            0x22 => instr::op_ldi_hl_a(self),
            0x23 => instr::op_inc_rr(self, 2),
            0x24 => instr::op_inc_r(self, 4),
            0x25 => instr::op_dec_r(self, 4),
            0x26 => instr::op_ld_r_d8(self, 4),
            0x27 => instr::op_daa(self),
            0x29 => instr::op_add_hl_rr(self, 2),
            0x2A => instr::op_ldi_a_hl(self),
            0x2B => instr::op_dec_rr(self, 2),
            0x2C => instr::op_inc_r(self, 5),
            0x2D => instr::op_dec_r(self, 5),
            0x2E => instr::op_ld_r_d8(self, 5),
            0x2F => instr::op_cpl(self),
            0x31 => instr::op_ld_rr_d16(self, 3),
            0x32 => instr::op_ldd_hl_a(self),
            0x33 => instr::op_inc_rr(self, 3),
            0x34 => instr::op_inc_r(self, 6),
            0x35 => instr::op_dec_r(self, 6),
            0x36 => instr::op_ld_hl_d8(self),
            0x37 => instr::op_scf(self),
            0x39 => instr::op_add_hl_rr(self, 3),
            0x3A => instr::op_ldd_a_hl(self),
            0x3B => instr::op_dec_rr(self, 3),
            0x3C => instr::op_inc_r(self, 7),
            0x3D => instr::op_dec_r(self, 7),
            0x3E => instr::op_ld_r_d8(self, 7),
            _ => instr::op_ccf(self),
        }
    }

    #[verifier::rlimit(100)]
    fn execute_high(&mut self, opcode: u8) -> (r: u32)
        requires
            opcode >= 0xC0,
        ensures
            (final(self)@, r) == dispatch_high_view(old(self)@, opcode),
            r >= 4,
            final(self).ppu == old(self).ppu,
    {
        match opcode {
            0xC1 => instr::op_pop_rr(self, 0),
            0xC3 => instr::op_jp_a16(self),
            0xC5 => instr::op_push_rr(self, 0),
            0xC6 => instr::op_alu_a_d8(self, AluOp::Add),
            0xC9 => instr::op_ret(self),
            0xCB => {
                let sub = self.cpu.fetch8(&mut self.bus);
                instr::op_cb(self, sub)
            },
            0xCD => instr::op_call_a16(self),
            0xCE => instr::op_alu_a_d8(self, AluOp::Adc),
            0xD1 => instr::op_pop_rr(self, 1),
            0xD5 => instr::op_push_rr(self, 1),
            0xD6 => instr::op_alu_a_d8(self, AluOp::Sub),
            0xDE => instr::op_alu_a_d8(self, AluOp::Sbc),
            0xE0 => instr::op_ldh_a8_a(self),
            0xE1 => instr::op_pop_rr(self, 2),
            0xE2 => instr::op_ldh_c_a(self),
            0xE5 => instr::op_push_rr(self, 2),
            0xE6 => instr::op_alu_a_d8(self, AluOp::And),
            0xE8 => instr::op_add_sp_e8(self),
            0xEA => instr::op_ld_a16_a(self),
            0xEE => instr::op_alu_a_d8(self, AluOp::Xor),
            0xF0 => instr::op_ldh_a_a8(self),
            0xF1 => instr::op_pop_rr(self, 3),
            0xF2 => instr::op_ldh_a_c(self),
            0xF3 => instr::op_di(self),
            0xF5 => instr::op_push_rr(self, 3),
            0xF6 => instr::op_alu_a_d8(self, AluOp::Or),
            0xF8 => instr::op_ld_hl_sp_plus_e8(self),
            0xF9 => instr::op_ld_sp_hl(self),
            0xFA => instr::op_ld_a_a16(self),
            0xFB => instr::op_ei(self),
            0xFE => instr::op_alu_a_d8(self, AluOp::Cp),
            _ => instr::op_unimplemented(),
        }
    }

    fn service_interrupts(&mut self) -> (r: u32)
        ensures
            (final(self)@, r) == service_interrupts_view(old(self)@),
            old(self)@.bus.ie & old(self)@.bus.io[0x0F] & 0x1F == 0 ==> final(self)@ == old(self)@ && r == 0,
            final(self).ppu == old(self).ppu,
    {
        let pending = self.bus.read_ie() & self.bus.read_if() & 0x1F;
        if pending == 0 {
            return 0;
        }
        let bit: u8 = if pending & 0x01 != 0 {
            0
        } else if pending & 0x02 != 0 {
            1
        } else if pending & 0x04 != 0 {
            2
        } else if pending & 0x08 != 0 {
            3
        } else {
            4
        };
        if self.cpu.ime {
            self.cpu.halted = false;
            self.cpu.ime = false;
            let mask = 1u8 << bit;
            let mut if_reg = self.bus.read_if();
            if_reg = if_reg & !mask;
            self.bus.write_if(if_reg);
            let pc = self.cpu.pc;
            self.cpu.push16(&mut self.bus, pc);
            self.cpu.pc = 0x40u16 + 8 * (bit as u16);
            20
        } else {
            if self.cpu.halted {
                self.cpu.halted = false;
            }
            0
        }
    }

    /// Convenience constructor using the scalar bus, default config and the DMG model.
    pub fn from_rom(rom: Vec<u8>) -> (r: Self)
        ensures
            r@.bus == BusScalar::new_view(rom@),
            r@.cpu == cpu_power_on(),
            r@.timers == timers_initial(),
            r@.ppu == ppu_initial(),
            r@.cycles_this_frame == 0,
            r@.config == (CoreConfig { frame_width: 160, frame_height: 144 }),
            r@.model == Model::Dmg,
            core_wf(r@),
    {
        let bus = BusScalar::new(rom, None);
        Self::new(bus, CoreConfig::default(), Model::Dmg)
    }

    /// Replaces the cartridge ROM and restarts execution at `0x0100`.
    pub fn load_rom(&mut self, rom: Vec<u8>)
        ensures
            final(self)@ == load_rom_view(old(self)@, rom@),
    {
        self.bus.load_rom(rom);
        self.cpu.pc = 0x0100;
    }
}

} // verus!
