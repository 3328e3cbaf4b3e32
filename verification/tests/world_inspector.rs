//! Inspector state kept by the world: delegation to the view-model and
//! mirrored counters.

use gbx::inspector_vm::PortMetricsVM;
use gbx::service_abi::{CpuVM, DebugRep, InspectorVMMinimal, PpuVM, StepKind, TimersVM};
use gbx::world::{InspectorState, WorldPerf};

fn sample_snapshot() -> DebugRep {
    DebugRep::Snapshot(InspectorVMMinimal {
        cpu: CpuVM {
            a: 0x10,
            f: 0xB0,
            b: 0,
            c: 0,
            d: 0,
            e: 0,
            h: 0,
            l: 0,
            sp: 0xC000,
            pc: 0x0200,
            ime: false,
            halted: false,
        },
        ppu: PpuVM {
            ly: 0,
            mode: 0,
            stat: 0x80,
            lcdc: 0x91,
            scx: 0,
            scy: 0,
            wy: 0,
            wx: 0,
            bgp: 0,
            frame_ready: false,
        },
        timers: TimersVM {
            div: 0x12,
            tima: 0x34,
            tma: 0x56,
            tac: 0x07,
        },
        io: vec![0; 0x80],
    })
}

#[test]
fn apply_debug_rep_delegates_to_view_model() {
    let mut state = InspectorState::new();
    state.apply_debug_rep(&sample_snapshot());
    assert_eq!(state.vm.cpu.pc, 0x0200);

    state.apply_debug_rep(&DebugRep::Stepped {
        kind: StepKind::Instruction,
        cycles: 8,
        pc: 0x0204,
        disasm: Some("LD A, (HL)".into()),
    });

    assert_eq!(state.vm.disasm.as_ref().unwrap().last_pc, 0x0204);
}

#[test]
fn sync_perf_updates_view_model_counters() {
    let mut state = InspectorState::new();
    let perf = WorldPerf {
        last_frame_id: 77,
        audio_underruns: 3,
    };
    state.sync_perf(&perf);

    assert_eq!(state.vm.perf.last_frame_id, 77);
    assert_eq!(state.vm.perf.audio_underruns, 3);
}

#[test]
fn transport_updates_are_mirrored() {
    let mut state = InspectorState::new();
    let metrics = PortMetricsVM {
        accepted: 1,
        coalesced: 2,
        dropped: 3,
        would_block: 4,
    };
    state.update_transport_gpu(metrics.clone());
    assert_eq!(state.transport_gpu, metrics);
    assert_eq!(state.vm.transport.gpu, metrics);
}

#[test]
fn each_port_update_touches_only_its_port() {
    let mut state = InspectorState::new();
    let metrics = PortMetricsVM {
        accepted: 9,
        coalesced: 0,
        dropped: 1,
        would_block: 0,
    };
    state.update_transport_kernel(metrics);
    state.update_transport_fs(metrics);
    state.update_transport_audio(metrics);
    assert_eq!(state.vm.transport.kernel, metrics);
    assert_eq!(state.vm.transport.fs, metrics);
    assert_eq!(state.vm.transport.audio, metrics);
    assert_eq!(state.vm.transport.gpu, PortMetricsVM::default());
    assert_eq!(state.vm().transport.kernel.accepted, 9);
}
