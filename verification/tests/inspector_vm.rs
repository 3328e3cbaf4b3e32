//! Inspector view-model updates from kernel snapshots, memory windows and
//! stepping traces.

use gbx::inspector_vm::{InspectorVM, MemVM};
use gbx::service_abi::{CpuVM, DebugRep, InspectorVMMinimal, MemSpace, PpuVM, StepKind, TimersVM};

fn sample_snapshot() -> InspectorVMMinimal {
    InspectorVMMinimal {
        cpu: CpuVM {
            a: 0x12,
            f: 0xB0,
            b: 0x01,
            c: 0x02,
            d: 0x03,
            e: 0x04,
            h: 0x05,
            l: 0x06,
            sp: 0xC000,
            pc: 0x0100,
            ime: true,
            halted: false,
        },
        ppu: PpuVM {
            ly: 0x90,
            mode: 1,
            stat: 0x85,
            lcdc: 0x91,
            scx: 0x10,
            scy: 0x20,
            wy: 0x00,
            wx: 0x07,
            bgp: 0xE4,
            frame_ready: true,
        },
        timers: TimersVM {
            div: 0x12,
            tima: 0x34,
            tma: 0x56,
            tac: 0x07,
        },
        io: vec![0xAA; 0x80],
    }
}

#[test]
fn apply_snapshot_replaces_core_sections() {
    let snapshot = sample_snapshot();
    let mut vm = InspectorVM::default();
    vm.mem.io.fill(0);

    vm.apply_snapshot(&snapshot);

    assert_eq!(vm.cpu.pc, 0x0100);
    assert_eq!(vm.ppu.lcdc, 0x91);
    assert_eq!(vm.timers.tima, 0x34);
    assert_eq!(vm.mem.io[0], 0xAA);
}

#[test]
fn apply_mem_window_tracks_spaces() {
    let mut mem = MemVM::default();
    mem.apply_window(MemSpace::Vram, 0x8000, &[1, 2, 3]);
    mem.apply_window(MemSpace::Oam, 0xFE00, &[4, 5]);
    mem.apply_window(MemSpace::Io, 0xFF10, &[6, 7]);

    assert_eq!(mem.vram_window.as_ref().unwrap().bytes, vec![1, 2, 3]);
    assert_eq!(mem.oam_window.as_ref().unwrap().base, 0xFE00);
    assert_eq!(mem.io[0x10], 6);
    assert_eq!(mem.io[0x11], 7);
}

#[test]
fn apply_debug_rep_updates_disasm_and_mem() {
    let mut vm = InspectorVM::default();
    vm.apply_debug_rep(&DebugRep::MemWindow {
        space: MemSpace::Wram,
        base: 0xC000,
        bytes: vec![0x11, 0x22],
    });

    assert_eq!(vm.mem.wram_window.as_ref().unwrap().bytes, vec![0x11, 0x22]);

    vm.apply_debug_rep(&DebugRep::Stepped {
        kind: StepKind::Instruction,
        cycles: 4,
        pc: 0x0150,
        disasm: Some("NOP".into()),
    });

    let trace = vm.disasm.as_ref().expect("trace");
    assert_eq!(trace.last_pc, 0x0150);
    assert_eq!(trace.disasm_line, "NOP");
}

#[test]
fn short_snapshot_io_is_padded_with_zeros() {
    let mut snapshot = sample_snapshot();
    snapshot.io = vec![0x55; 4];
    let mut vm = InspectorVM::new();
    vm.mem.io = vec![0x99; 3];
    vm.apply_snapshot(&snapshot);
    assert_eq!(vm.mem.io.len(), 0x80);
    assert_eq!(vm.mem.io[3], 0x55);
    assert_eq!(vm.mem.io[4], 0);
    assert_eq!(vm.mem.io[0x7F], 0);
}

#[test]
fn io_window_grows_the_io_view_and_ignores_low_bases() {
    let mut mem = MemVM::default();
    mem.apply_window(MemSpace::Io, 0xFF7F, &[1, 2, 3]);
    assert_eq!(mem.io.len(), 0x82);
    assert_eq!(&mem.io[0x7F..], &[1, 2, 3]);
    mem.apply_window(MemSpace::Io, 0x1234, &[9]);
    assert_eq!(mem.io[0], 9);
    mem.apply_window(MemSpace::Io, 0xFF00, &[]);
    assert_eq!(mem.io.len(), 0x82);
}

#[test]
fn stepped_report_without_disassembly_leaves_an_empty_line() {
    let mut vm = InspectorVM::new();
    vm.apply_debug_rep(&DebugRep::Stepped {
        kind: StepKind::Frame,
        cycles: 70_224,
        pc: 0x0200,
        disasm: None,
    });
    let trace = vm.disasm.as_ref().expect("trace");
    assert_eq!(trace.disasm_line, "");
    assert_eq!(trace.cycles, 70_224);
}
