//! The kernel service end to end: ROM loading, ticks that publish frames,
//! and the debug commands.

use gbx::gb_core::CoreConfig;
use gbx::kernel::{KernelFarm, KernelService};
use gbx::ppu_stub::CYCLES_PER_FRAME;
use gbx::service_abi::{DebugCmd, DebugRep, KernelCmd, KernelRep, MemSpace, StepKind, SubmitOutcome, TickPurpose};

fn new_service(capacity: usize) -> KernelService {
    KernelService::with_capacity(capacity, CoreConfig::default())
}

fn collect_reports(reports: impl IntoIterator<Item = KernelRep>) -> Vec<KernelRep> {
    reports.into_iter().collect()
}

fn load_blank_rom(service: &mut KernelService, group: u16) {
    let load_cmd = KernelCmd::LoadRom {
        group,
        bytes: vec![0x00u8; 0x8000],
    };
    assert_eq!(service.try_submit(&load_cmd), SubmitOutcome::Accepted);
    let reports = collect_reports(service.drain(4));
    assert!(
        reports
            .into_iter()
            .any(|rep| matches!(rep, KernelRep::RomLoaded { group: g, .. } if g == group)),
        "expected RomLoaded report"
    );
}

fn drain_debug(service: &mut KernelService, budget: usize) -> Vec<KernelRep> {
    collect_reports(service.drain(budget))
}

#[test]
fn tick_produces_frame() {
    let mut service = new_service(8);

    let load_cmd = KernelCmd::LoadRom {
        group: 1,
        bytes: vec![0x00u8; 0x8000],
    };
    assert_eq!(service.try_submit(&load_cmd), SubmitOutcome::Accepted);
    let reports = collect_reports(service.drain(4));
    assert!(matches!(reports.as_slice(), [KernelRep::RomLoaded { .. }]));

    let tick_cmd = KernelCmd::Tick {
        group: 1,
        purpose: TickPurpose::Display,
        budget: CYCLES_PER_FRAME,
    };
    assert_eq!(service.try_submit(&tick_cmd), SubmitOutcome::Accepted);
    let mut reports = collect_reports(service.drain(4));
    reports.sort_by_key(|rep| match rep {
        KernelRep::LaneFrame { .. } => 0,
        KernelRep::TickDone { .. } => 1,
        _ => 2,
    });
    assert!(matches!(reports[0], KernelRep::LaneFrame { .. }));
    assert!(matches!(reports[1], KernelRep::TickDone { .. }));
}

#[test]
fn debug_snapshot_reports_initial_cpu_state() {
    let mut service = new_service(8);
    let group = 3;
    load_blank_rom(&mut service, group);

    let outcome = service.try_submit(&KernelCmd::Debug(DebugCmd::Snapshot { group }));
    assert_eq!(outcome, SubmitOutcome::Accepted);

    let reports = drain_debug(&mut service, 4);
    let snapshot = reports
        .into_iter()
        .find_map(|rep| match rep {
            KernelRep::Debug(DebugRep::Snapshot(s)) => Some(s),
            _ => None,
        })
        .expect("snapshot report");

    assert_eq!(snapshot.cpu.pc, 0x0100, "PC should initialise to 0x0100");
    assert_eq!(snapshot.cpu.sp, 0xFFFE, "SP should initialise to 0xFFFE");
    assert_eq!(snapshot.io.len(), 0x80, "IO window should be 0x80 bytes");
}

#[test]
fn debug_mem_window_respects_requested_length() {
    let mut service = new_service(8);
    let group = 4;
    load_blank_rom(&mut service, group);

    let outcome = service.try_submit(&KernelCmd::Debug(DebugCmd::MemWindow {
        group,
        space: MemSpace::Vram,
        base: 0x8000,
        len: 0x20,
    }));
    assert_eq!(outcome, SubmitOutcome::Accepted);

    let reports = drain_debug(&mut service, 4);
    let window = reports
        .into_iter()
        .find_map(|rep| match rep {
            KernelRep::Debug(DebugRep::MemWindow { bytes, .. }) => Some(bytes),
            _ => None,
        })
        .expect("mem window report");

    assert_eq!(window.len(), 0x20);
}

#[test]
fn debug_step_instruction_advances_pc() {
    let mut service = new_service(8);
    let group = 5;
    load_blank_rom(&mut service, group);

    service.try_submit(&KernelCmd::Debug(DebugCmd::Snapshot { group }));
    let pc_before = drain_debug(&mut service, 4)
        .into_iter()
        .find_map(|rep| match rep {
            KernelRep::Debug(DebugRep::Snapshot(snapshot)) => Some(snapshot.cpu.pc),
            _ => None,
        })
        .expect("snapshot after load");

    let outcome = service.try_submit(&KernelCmd::Debug(DebugCmd::StepInstruction {
        group,
        count: 1,
    }));
    assert_eq!(outcome, SubmitOutcome::Accepted);

    let reports = drain_debug(&mut service, 8);
    let stepped = reports
        .into_iter()
        .find_map(|rep| match rep {
            KernelRep::Debug(DebugRep::Stepped {
                kind: StepKind::Instruction,
                cycles,
                pc,
                ..
            }) => Some((cycles, pc)),
            _ => None,
        })
        .expect("stepped report");

    assert!(stepped.0 > 0, "instruction step should consume cycles");
    assert_eq!(
        stepped.1,
        pc_before.wrapping_add(1),
        "PC should advance by one instruction"
    );

    service.try_submit(&KernelCmd::Debug(DebugCmd::Snapshot { group }));
    let snapshot = drain_debug(&mut service, 4)
        .into_iter()
        .find_map(|rep| match rep {
            KernelRep::Debug(DebugRep::Snapshot(s)) => Some(s),
            _ => None,
        })
        .expect("snapshot after step");
    assert_eq!(snapshot.cpu.pc, pc_before.wrapping_add(1));
}

#[test]
fn debug_step_frame_produces_frame_and_tick() {
    let mut service = new_service(16);
    let group = 6;
    load_blank_rom(&mut service, group);

    let outcome = service.try_submit(&KernelCmd::Debug(DebugCmd::StepFrame { group }));
    assert_eq!(outcome, SubmitOutcome::Accepted);

    let reports = drain_debug(&mut service, 16);
    let mut saw_debug = false;
    let mut saw_tick_done = false;

    for rep in reports {
        match rep {
            KernelRep::Debug(DebugRep::Stepped { kind, cycles, .. }) => {
                if matches!(kind, StepKind::Frame) {
                    assert!(cycles > 0, "frame step should consume cycles");
                    saw_debug = true;
                }
            }
            KernelRep::TickDone {
                group: g,
                cycles_done,
                ..
            } if g == group => {
                assert!(cycles_done > 0);
                saw_tick_done = true;
            }
            KernelRep::LaneFrame { group: g, .. } if g == group => {}
            _ => {}
        }
    }

    assert!(saw_debug, "expected debug stepped frame report");
    assert!(saw_tick_done, "expected TickDone alongside frame step");
}

#[test]
fn boot_animation_frames_are_published_after_loading_a_cartridge() {
    let mut farm = KernelFarm::new(CoreConfig::default());
    let mut rom = vec![0u8; 0x8000];
    rom[0x104] = 0xCE;
    farm.load_rom(2, rom);
    let mut out = Vec::new();
    let cycles = farm.tick(2, 100, &mut out);
    assert_eq!(cycles, 100);
    assert_eq!(out.len(), 2);
    match &out[0] {
        KernelRep::LaneFrame { group, lane, span, frame_id } => {
            assert_eq!((*group, *lane, *frame_id), (2, 0, 1));
            assert_eq!((span.width, span.height), (160, 144));
            assert_eq!(span.pixels.len(), 160 * 144 * 4);
        }
        other => panic!("unexpected report {other:?}"),
    }
    assert_eq!(out[1], KernelRep::TickDone { group: 2, lanes_mask: 1, cycles_done: 100 });
}

#[test]
fn input_to_an_unknown_group_is_ignored_and_terminate_forgets_a_group() {
    let mut farm = KernelFarm::new(CoreConfig::default());
    farm.set_inputs(9, 0x00);
    let mut out = Vec::new();
    farm.handle_debug(&DebugCmd::Snapshot { group: 9 }, &mut out);
    farm.set_inputs(9, 0xEF);
    farm.terminate(9);
    let mut out2 = Vec::new();
    farm.handle_debug(&DebugCmd::StepInstruction { group: 9, count: 0 }, &mut out2);
    assert_eq!(
        out2,
        vec![KernelRep::Debug(DebugRep::Stepped { kind: StepKind::Instruction, cycles: 0, pc: 0x0100, disasm: None })]
    );
}

#[test]
fn full_queue_refuses_ticks_without_running_them() {
    let mut service = new_service(1);
    load_blank_rom(&mut service, 1);
    let tick = KernelCmd::Tick { group: 1, purpose: TickPurpose::Exploration, budget: 10 };
    assert_eq!(service.try_submit(&tick), SubmitOutcome::Dropped);
    assert!(service.drain(4).is_empty());
}
