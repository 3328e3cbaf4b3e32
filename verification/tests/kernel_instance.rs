//! Kernel instances: ROM loading, instruction stepping, inspector snapshots
//! and memory windows.

use gbx::gb_core::Core;
use gbx::instance::{window_slice, Instance};
use gbx::service_abi::MemSpace;

fn program_rom(program: &[u8]) -> Vec<u8> {
    let mut rom = vec![0u8; 0x8000];
    rom[0x100..0x100 + program.len()].copy_from_slice(program);
    rom
}

#[test]
fn window_slice_cuts_at_the_region_end() {
    let data = [1u8, 2, 3, 4, 5];
    assert_eq!(window_slice(&data, 0x8000, 0x8001, 2), vec![2, 3]);
    assert_eq!(window_slice(&data, 0x8000, 0x8003, 10), vec![4, 5]);
    assert_eq!(window_slice(&data, 0x8000, 0x7FFF, 2), Vec::<u8>::new());
    assert_eq!(window_slice(&data, 0x8000, 0x8005, 2), Vec::<u8>::new());
    assert_eq!(window_slice(&data, 0x8000, 0x8000, 0), Vec::<u8>::new());
}

#[test]
fn step_instructions_reports_cycles_and_pc() {
    // NOP ; LD B,0x07 ; INC B
    let mut inst = Instance::new_scalar(Core::from_rom(program_rom(&[0x00, 0x06, 0x07, 0x04])));
    assert_eq!(inst.step_instructions(0), (0, 0x0100));
    assert_eq!(inst.step_instructions(3), (16, 0x0104));
    assert_eq!(inst.core.cpu.b, 0x08);
}

#[test]
fn blank_rom_loads_without_boot_animation() {
    let mut inst = Instance::new_scalar(Core::from_rom(program_rom(&[0x00])));
    inst.bump_frame_id();
    inst.load_rom(vec![0u8; 0x8000]);
    assert!(!inst.boot_active());
    assert_eq!(inst.next_frame_id, 0);
    assert_eq!(inst.pc(), 0x0100);
}

#[test]
fn snapshot_and_windows_read_the_core() {
    let mut inst = Instance::new_scalar(Core::from_rom(program_rom(&[0x00])));
    inst.core.cpu.a = 0x42;
    inst.core.bus.vram[0x10] = 0x99;
    inst.core.bus.io.write(0x41, 0x86);
    let snap = inst.inspector_snapshot();
    assert_eq!(snap.cpu.a, 0x42);
    assert_eq!(snap.cpu.pc, 0x0100);
    assert_eq!(snap.ppu.mode, 0x02);
    assert_eq!(snap.io.len(), 0x80);
    assert_eq!(inst.mem_window(MemSpace::Vram, 0x8010, 1), vec![0x99]);
    assert_eq!(inst.mem_window(MemSpace::Oam, 0xFE9E, 8).len(), 2);
    assert_eq!(inst.mem_window(MemSpace::Io, 0xFF41, 1), vec![0x86]);
}

#[test]
fn inputs_and_frame_ids() {
    let mut inst = Instance::new_scalar(Core::from_rom(program_rom(&[0x00])));
    inst.set_inputs(0xEF);
    assert_eq!(inst.joypad, 0xEF);
    assert_eq!(inst.core.bus.joyp_buttons, 0x0E);
    assert_eq!(inst.core.bus.joyp_dpad, 0x0F);
    assert_eq!(inst.bump_frame_id(), 1);
    assert_eq!(inst.bump_frame_id(), 2);
    inst.next_frame_id = u64::MAX;
    assert_eq!(inst.bump_frame_id(), 0);
}
