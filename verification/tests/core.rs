//! The CPU core: ALU arithmetic, register pairs, the memory map, program
//! execution, frame pacing and state snapshots.

use gbx::bus::BusScalar;
use gbx::cpu::Cpu;
use gbx::exec::{Exec, Flags, MaskValue, Scalar};
use gbx::gb_core::Core;
use gbx::instr::{op_daa, op_inc_r};
use gbx::mmu::{read8_scalar, write8_scalar, Bus};
use gbx::ppu_stub::CYCLES_PER_FRAME;
use gbx::state::CoreState;
use gbx::timers::Timers;

fn rom_with_program(program: &[u8]) -> Vec<u8> {
    let mut rom = vec![0u8; 0x8000];
    rom[0x100..0x100 + program.len()].copy_from_slice(program);
    rom
}

#[test]
fn add8_sets_half_carry_and_carry() {
    let mut f = Flags::new();
    let r = Scalar::add8(0x0F, 0x01, false, &mut f);
    assert_eq!(r, 0x10);
    assert!(f.h() && !f.c() && !f.z() && !f.n());
    let r = Scalar::add8(0xFF, 0x01, false, &mut f);
    assert_eq!(r, 0x00);
    assert!(f.z() && f.c() && f.h());
    let r = Scalar::add8(0x10, 0x20, true, &mut f);
    assert_eq!(r, 0x31);
}

#[test]
fn sub8_sets_borrow_flags() {
    let mut f = Flags::new();
    let r = Scalar::sub8(0x10, 0x01, false, &mut f);
    assert_eq!(r, 0x0F);
    assert!(f.n() && f.h() && !f.c());
    let r = Scalar::sub8(0x00, 0x01, false, &mut f);
    assert_eq!(r, 0xFF);
    assert!(f.c());
    let r = Scalar::sub8(0x05, 0x05, false, &mut f);
    assert_eq!(r, 0);
    assert!(f.z());
}

#[test]
fn words_split_and_join() {
    assert_eq!(Scalar::combine_u16(0x12, 0x34), 0x1234);
    assert_eq!(Scalar::split_u16(0xBEEF), (0xBE, 0xEF));
}

#[test]
fn flags_register_keeps_only_the_high_nibble() {
    let mut f = Flags::new();
    f.from_byte(0xFF);
    assert_eq!(f.to_byte(), 0xF0);
    f.from_byte(0x50);
    assert!(!f.z() && f.n() && !f.h() && f.c());
}

#[test]
fn register_pairs_roundtrip() {
    let mut cpu = Cpu::new();
    cpu.set_hl(0xC123);
    assert_eq!(cpu.hl(), 0xC123);
    assert_eq!((cpu.h, cpu.l), (0xC1, 0x23));
    cpu.set_bc(0x0102);
    assert_eq!(cpu.bc(), 0x0102);
    cpu.set_de(0xFFEE);
    assert_eq!(cpu.de(), 0xFFEE);
    cpu.set_af(0x12FF);
    assert_eq!(cpu.af(), 0x12F0);
}

#[test]
fn work_ram_reads_back_and_echoes() {
    let mut bus = BusScalar::new(vec![0u8; 0x8000], None);
    write8_scalar(&mut bus, 0xC010, 0x5A);
    assert_eq!(read8_scalar(&mut bus, 0xC010), 0x5A);
    assert_eq!(read8_scalar(&mut bus, 0xE010), 0x5A);
    write8_scalar(&mut bus, 0xFF80, 0x77);
    assert_eq!(read8_scalar(&mut bus, 0xFF80), 0x77);
}

#[test]
fn push_then_pop_returns_the_word() {
    let mut bus = BusScalar::new(vec![0u8; 0x8000], None);
    let mut cpu = Cpu::new();
    cpu.sp = 0xDFFE;
    cpu.push16(&mut bus, 0xBEEF);
    assert_eq!(cpu.sp, 0xDFFC);
    assert_eq!(cpu.pop16(&mut bus), 0xBEEF);
    assert_eq!(cpu.sp, 0xDFFE);
}

#[test]
fn program_executes_one_instruction_per_step() {
    // LD A,0x41 ; INC A ; NOP
    let mut core = Core::from_rom(rom_with_program(&[0x3E, 0x41, 0x3C, 0x00]));
    assert_eq!(core.cpu.pc, 0x0100);
    let (cycles, pc) = core.step_instruction();
    assert_eq!((cycles, pc), (8, 0x0102));
    assert_eq!(core.cpu.a, 0x41);
    let (cycles, pc) = core.step_instruction();
    assert_eq!((cycles, pc), (4, 0x0103));
    assert_eq!(core.cpu.a, 0x42);
}

#[test]
fn inc_register_wraps_and_sets_zero() {
    let mut core = Core::from_rom(vec![0u8; 0x8000]);
    core.cpu.b = 0xFF;
    let cycles = op_inc_r(&mut core, 0);
    assert_eq!(cycles, 4);
    assert_eq!(core.cpu.b, 0x00);
    assert!(core.cpu.f.z() && core.cpu.f.h());
}

#[test]
fn daa_adjusts_bcd_addition() {
    let mut core = Core::from_rom(vec![0u8; 0x8000]);
    let mut f = Flags::new();
    core.cpu.a = Scalar::add8(0x19, 0x28, false, &mut f);
    core.cpu.f = f;
    op_daa(&mut core);
    assert_eq!(core.cpu.a, 0x47);
}

#[test]
fn a_frame_takes_70224_cycles() {
    let mut core = Core::from_rom(vec![0u8; 0x8000]);
    core.bus.io.write(0x40, 0x91);
    let mut total: u64 = 0;
    let mut guard = 0;
    while !core.frame_ready() && guard < 1000 {
        total += u64::from(core.step_cycles(CYCLES_PER_FRAME));
        guard += 1;
    }
    assert!(core.frame_ready());
    assert!(total <= u64::from(CYCLES_PER_FRAME) + 24);
}

#[test]
fn snapshot_restores_the_core() {
    let mut core = Core::from_rom(rom_with_program(&[0x3E, 0x99, 0x06, 0x12]));
    core.step_instruction();
    core.bus.wram[5] = 0xAB;
    let state = CoreState::capture(&core);
    let mut other = Core::from_rom(rom_with_program(&[0x3E, 0x99, 0x06, 0x12]));
    other.load_state(&state);
    assert_eq!(other.cpu, core.cpu);
    assert_eq!(other.bus.wram[5], 0xAB);
    assert_eq!(other.bus.io.regs, core.bus.io.regs);
    assert_eq!(other.cycles_this_frame, core.cycles_this_frame);
}

#[test]
fn divider_advances_every_256_cycles() {
    let mut core = Core::from_rom(vec![0u8; 0x8000]);
    let before = core.bus.io.div();
    let mut timers = core.timers;
    timers.step(256, &mut core.bus);
    assert_eq!(core.bus.io.div(), before.wrapping_add(1));
}

#[test]
fn scalar_backend_primitives() {
    assert_eq!(Scalar::and(0xF0, 0x3C), 0x30);
    assert_eq!(Scalar::or(0xF0, 0x0F), 0xFF);
    assert_eq!(Scalar::xor(0xFF, 0x0F), 0xF0);
    assert!(Scalar::eq8(7, 7));
    assert_eq!(Scalar::select8(false, 1, 2), 2);
    assert_eq!(Scalar::select8(Scalar::eq8(1, 1), 1, 2), 1);
    assert_eq!(Scalar::to_u16(Scalar::from_u16(0xBEEF)), 0xBEEF);
    assert!(bool::true_mask().to_bool());
    assert!(!bool::from_bool(false));
}

#[test]
fn bus_trait_reads_back_a_ram_write() {
    let mut bus = BusScalar::new(vec![0u8; 0x8000], None);
    Bus::<Scalar>::write8(&mut bus, 0xC123, 0x5A);
    assert_eq!(Bus::<Scalar>::read8(&mut bus, 0xC123), 0x5A);
    assert_eq!(Bus::<Scalar>::read8(&mut bus, 0xE123), 0x5A);
}

#[test]
fn divider_reads_the_high_byte_of_the_cycle_count() {
    let mut bus = BusScalar::new(vec![0u8; 0x8000], None);
    let mut timers = Timers::new();
    timers.step(1000, &mut bus);
    assert_eq!(timers.debug_state().0, 8 + 1000);
    assert_eq!(bus.io.div(), ((8 + 1000) / 256) as u8);
    timers.step(0xFFFF, &mut bus);
    assert_eq!(timers.debug_state().0, ((8 + 1000 + 0xFFFF) % 0x10000) as u16);
}

#[test]
fn ei_takes_effect_after_the_next_instruction() {
    // EI ; NOP
    let mut core = Core::from_rom(rom_with_program(&[0xFB, 0x00]));
    core.cpu.ime = false;
    assert_eq!(core.step_instruction(), (4, 0x0101));
    assert!(!core.cpu.ime && core.cpu.enable_ime_pending);
    assert_eq!(core.step_instruction(), (4, 0x0102));
    assert!(core.cpu.ime && !core.cpu.enable_ime_pending);
}

#[test]
fn di_right_after_ei_leaves_interrupts_disabled() {
    // EI ; DI ; NOP
    let mut core = Core::from_rom(rom_with_program(&[0xFB, 0xF3, 0x00]));
    core.cpu.ime = false;
    core.step_instruction();
    assert_eq!(core.step_instruction(), (4, 0x0102));
    assert!(!core.cpu.ime && !core.cpu.enable_ime_pending);
    core.step_instruction();
    assert!(!core.cpu.ime);
}

#[test]
fn joypad_reads_back_active_low() {
    let mut bus = BusScalar::new(vec![0u8; 0x8000], None);
    // Select the direction keys (P14 low).
    write8_scalar(&mut bus, 0xFF00, 0x20);
    assert_eq!(read8_scalar(&mut bus, 0xFF00), 0xEF);
    // Press Right (bit 0 low).
    bus.set_inputs(0xFE);
    assert_eq!(read8_scalar(&mut bus, 0xFF00), 0xEE);
    // Select the buttons instead; Right no longer shows.
    write8_scalar(&mut bus, 0xFF00, 0x10);
    assert_eq!(read8_scalar(&mut bus, 0xFF00), 0xDF);
    // Nothing selected reads all released.
    write8_scalar(&mut bus, 0xFF00, 0x30);
    assert_eq!(read8_scalar(&mut bus, 0xFF00), 0xFF);
}

#[test]
fn daa_after_add_gives_the_decimal_sum() {
    for (x, y, sum, carry) in [(0x45u8, 0x38u8, 0x83u8, false), (0x99, 0x99, 0x98, true), (0x50, 0x50, 0x00, true)] {
        let mut core = Core::from_rom(vec![0u8; 0x8000]);
        let mut f = Flags::new();
        core.cpu.a = Scalar::add8(x, y, false, &mut f);
        core.cpu.f = f;
        assert_eq!(op_daa(&mut core), 4);
        assert_eq!(core.cpu.a, sum);
        assert_eq!(core.cpu.f.c(), carry);
        assert_eq!(core.cpu.f.z(), sum == 0);
        assert!(!core.cpu.f.h() && !core.cpu.f.n());
    }
}

#[test]
fn capture_after_load_gives_the_snapshot_back() {
    let mut core = Core::from_rom(rom_with_program(&[0x3E, 0x42, 0x00]));
    core.step_instruction();
    core.bus.hram[3] = 0x5A;
    let state = CoreState::capture(&core);
    let mut other = Core::from_rom(vec![0u8; 0x8000]);
    other.load_state(&state);
    assert_eq!(CoreState::capture(&other), state);
    assert_eq!(other.bus.joyp_select, state.io[0] & 0x30);
}

#[test]
fn halted_cpu_ignores_if_bits_five_to_seven() {
    let mut core = Core::from_rom(rom_with_program(&[0x00]));
    core.cpu.ime = true;
    core.cpu.halted = true;
    write8_scalar(&mut core.bus, 0xFFFF, 0xFF);
    write8_scalar(&mut core.bus, 0xFF0F, 0x00);
    assert_eq!(read8_scalar(&mut core.bus, 0xFF0F), 0xE0);
    let pc = core.cpu.pc;
    assert_eq!(core.step_instruction(), (4, pc));
    assert!(core.cpu.halted && core.cpu.ime);
}

#[test]
fn interrupt_dispatch_takes_the_lowest_requested_source() {
    let mut core = Core::from_rom(rom_with_program(&[0x00]));
    core.cpu.ime = true;
    core.cpu.halted = true;
    core.cpu.sp = 0xDFF0;
    let pc = core.cpu.pc;
    write8_scalar(&mut core.bus, 0xFFFF, 0x1C);
    // Timer and joypad requested; VBlank requested but not enabled.
    write8_scalar(&mut core.bus, 0xFF0F, 0x15);
    assert_eq!(core.step_instruction(), (20, 0x0050));
    assert!(!core.cpu.halted && !core.cpu.ime);
    assert_eq!(core.cpu.sp, 0xDFEE);
    assert_eq!(read8_scalar(&mut core.bus, 0xDFEE), (pc & 0xFF) as u8);
    assert_eq!(read8_scalar(&mut core.bus, 0xDFEF), (pc >> 8) as u8);
    assert_eq!(read8_scalar(&mut core.bus, 0xFF0F) & 0x1F, 0x11);
}
