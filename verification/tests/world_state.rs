use gbx::service_abi::{
    AudioRep, DebugCmd, DebugRep, FrameSpan, GpuCmd, GpuRep, KernelCmd, KernelRep, MemSpace,
    StepKind, TickPurpose,
};
use gbx::world::{AvCmd, Intent, IntentPriority, Report, WorkCmd, WorldState};

fn lane_frame(lane: u16, frame_id: u64) -> Report {
    Report::Kernel(KernelRep::LaneFrame { group: 0, lane, span: FrameSpan::empty(), frame_id })
}

#[test]
fn displayed_lane_frames_go_to_the_gpu_and_are_recorded() {
    let mut world = WorldState::new();
    let follow = world.reduce_report(lane_frame(0, 7));
    assert_eq!(
        follow.immediate_av,
        vec![AvCmd::Gpu(GpuCmd::UploadFrame { lane: 0, span: FrameSpan::empty() })]
    );
    assert!(!follow.deferred_pump);
    assert_eq!(world.frame_id(), 7);
    assert_eq!(world.inspector.vm().perf.last_frame_id, 7);

    let follow = world.reduce_report(lane_frame(3, 8));
    assert!(follow.immediate_av.is_empty());
    assert_eq!(world.frame_id(), 8);
}

#[test]
fn finished_ticks_defer_a_pump_only_while_pumping() {
    let mut world = WorldState::new();
    let done = Report::Kernel(KernelRep::TickDone { group: 0, lanes_mask: 1, cycles_done: 70224 });
    assert!(world.reduce_report(done.clone()).deferred_pump);
    world.set_auto_pump(false);
    assert!(!world.reduce_report(done).deferred_pump);
}

#[test]
fn rom_loads_and_underruns_are_counted() {
    let mut world = WorldState::new();
    assert!(!world.rom_loaded());
    world.reduce_report(Report::Kernel(KernelRep::RomLoaded { group: 0, bytes_len: 32768 }));
    world.reduce_report(Report::Kernel(KernelRep::RomLoaded { group: 0, bytes_len: 32768 }));
    assert!(world.rom_loaded());
    assert_eq!(world.rom_events(), 2);
    world.reduce_report(Report::Audio(AudioRep::Underrun));
    world.reduce_report(Report::Audio(AudioRep::Played { frames: 4 }));
    world.reduce_report(Report::Gpu(GpuRep::FrameShown { lane: 0, frame_id: 1 }));
    assert_eq!(world.perf.audio_underruns, 1);
    assert_eq!(world.inspector.vm().perf.audio_underruns, 1);
}

#[test]
fn debug_reports_reach_the_inspector() {
    let mut world = WorldState::new();
    let stepped = DebugRep::Stepped { kind: StepKind::Instruction, cycles: 4, pc: 0x0151, disasm: None };
    world.reduce_report(Report::Kernel(KernelRep::Debug(stepped)));
    let trace = world.inspector.vm().disasm.clone().expect("trace recorded");
    assert_eq!(trace.last_pc, 0x0151);
    assert_eq!(trace.cycles, 4);
}

#[test]
fn display_tick_targets_the_display_purpose() {
    let world = WorldState::default();
    assert_eq!(
        world.display_tick(2, 1000),
        WorkCmd::Kernel(KernelCmd::Tick { group: 2, purpose: TickPurpose::Display, budget: 1000 })
    );
}

#[test]
fn pump_intent_ticks_the_display_group_with_the_given_budget() {
    let mut world = WorldState::new();
    let before = world.clone();
    let cmds = world.reduce_intent(Intent::PumpFrame, 70224);
    assert_eq!(
        cmds,
        vec![WorkCmd::Kernel(KernelCmd::Tick { group: 0, purpose: TickPurpose::Display, budget: 70224 })]
    );
    assert_eq!(world, before);
    let cmds = world.reduce_intent(Intent::PumpFrame, 140448);
    assert_eq!(
        cmds,
        vec![WorkCmd::Kernel(KernelCmd::Tick { group: 0, purpose: TickPurpose::Display, budget: 140448 })]
    );
}

#[test]
fn pause_and_lane_intents_change_the_world_and_emit_nothing() {
    let mut world = WorldState::new();
    assert!(!world.paused);
    assert!(world.reduce_intent(Intent::TogglePause, 70224).is_empty());
    assert!(world.paused);
    assert!(world.reduce_intent(Intent::TogglePause, 70224).is_empty());
    assert!(!world.paused);
    assert!(world.reduce_intent(Intent::SelectDisplayLane(3), 70224).is_empty());
    assert_eq!(world.display_lane, 3);
}

#[test]
fn load_input_and_debug_intents_become_kernel_commands() {
    let mut world = WorldState::new();
    assert_eq!(
        world.reduce_intent(Intent::LoadRom { group: 1, bytes: vec![1, 2, 3] }, 0),
        vec![WorkCmd::Kernel(KernelCmd::LoadRom { group: 1, bytes: vec![1, 2, 3] })]
    );
    assert_eq!(
        world.reduce_intent(Intent::SetInputs { group: 0, joypad: 0xFE }, 0),
        vec![WorkCmd::Kernel(KernelCmd::SetInputs { group: 0, lanes_mask: 0xFFFF_FFFF, joypad: 0xFE })]
    );
    assert_eq!(
        world.reduce_intent(Intent::DebugSnapshot(2), 0),
        vec![WorkCmd::Kernel(KernelCmd::Debug(DebugCmd::Snapshot { group: 2 }))]
    );
    assert_eq!(
        world.reduce_intent(Intent::DebugMem { group: 0, space: MemSpace::Io, base: 0xFF00, len: 16 }, 0),
        vec![WorkCmd::Kernel(KernelCmd::Debug(DebugCmd::MemWindow {
            group: 0,
            space: MemSpace::Io,
            base: 0xFF00,
            len: 16
        }))]
    );
    assert_eq!(
        world.reduce_intent(Intent::DebugStepInstruction { group: 0, count: 5 }, 0),
        vec![WorkCmd::Kernel(KernelCmd::Debug(DebugCmd::StepInstruction { group: 0, count: 5 }))]
    );
    assert_eq!(
        world.reduce_intent(Intent::DebugStepFrame(0), 0),
        vec![WorkCmd::Kernel(KernelCmd::Debug(DebugCmd::StepFrame { group: 0 }))]
    );
    assert!(!world.paused);
}

#[test]
fn intent_priorities_put_control_before_pumping() {
    assert_eq!(Intent::TogglePause.priority(), IntentPriority::P0);
    assert_eq!(Intent::LoadRom { group: 0, bytes: vec![] }.priority(), IntentPriority::P0);
    assert_eq!(Intent::SetInputs { group: 0, joypad: 0xFF }.priority(), IntentPriority::P0);
    assert_eq!(Intent::DebugStepFrame(0).priority(), IntentPriority::P0);
    assert_eq!(Intent::DebugStepInstruction { group: 0, count: 1 }.priority(), IntentPriority::P0);
    assert_eq!(Intent::PumpFrame.priority(), IntentPriority::P1);
    assert_eq!(Intent::SelectDisplayLane(1).priority(), IntentPriority::P1);
    assert_eq!(Intent::DebugSnapshot(0).priority(), IntentPriority::P1);
}
