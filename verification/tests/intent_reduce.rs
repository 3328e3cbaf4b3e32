//! Intent reducer coverage: pumps, ROM loads, stateful intents and the
//! debug inspector flows.

use gbx::service_abi::{DebugCmd, KernelCmd, MemSpace, SubmitPolicy, TickPurpose};
use gbx::world::{Intent, WorkCmd, WorldState};

/// Cycles of one display frame at normal speed.
const BASE_DISPLAY_CYCLES_PER_FRAME: f32 = 70_224.0;

/// The display budget a front end hands the reducer at `speed`.
fn display_budget(speed: f32) -> u32 {
    (BASE_DISPLAY_CYCLES_PER_FRAME * speed).round() as u32
}

fn single_cmd(intent: Intent) -> WorkCmd {
    let mut world = WorldState::new();
    let mut cmds = world.reduce_intent(intent, display_budget(1.0));
    assert_eq!(cmds.len(), 1, "expected exactly one command");
    cmds.pop().unwrap()
}

#[test]
fn pump_frame_emits_display_tick_with_scaled_budget() {
    let mut cases = vec![(1.0f32, 70_224u32), (1.5f32, 105_336u32)];

    for (speed, expected_budget) in cases.drain(..) {
        let mut world = WorldState::new();
        let commands = world.reduce_intent(Intent::PumpFrame, display_budget(speed));
        assert_eq!(commands.len(), 1, "pump frame should emit exactly one command");

        match &commands[0] {
            WorkCmd::Kernel(KernelCmd::Tick { group, purpose, budget }) => {
                assert_eq!(*group, 0, "display tick should target group 0");
                assert_eq!(*purpose, TickPurpose::Display, "pump frame should always request a display tick");
                assert_eq!(*budget, expected_budget, "speed multiplier {speed} should scale display budget");
            }
            other => panic!("unexpected work command for pump frame: {other:?}"),
        }
    }
}

#[test]
fn load_rom_forwards_group_and_payload() {
    let mut world = WorldState::new();
    let payload: Vec<u8> = vec![1u8, 2, 3, 4];

    let commands = world.reduce_intent(Intent::LoadRom { group: 2, bytes: payload.clone() }, display_budget(1.0));

    assert_eq!(commands.len(), 1, "load ROM should emit a single kernel command");
    assert_eq!(commands[0], WorkCmd::Kernel(KernelCmd::LoadRom { group: 2, bytes: payload }));
}

#[test]
fn stateful_intents_update_world_without_emitting_commands() {
    enum Expectation {
        Paused(bool),
        DisplayLane(u16),
    }

    let cases = vec![
        ("toggle_pause", Intent::TogglePause, Expectation::Paused(true)),
        ("select_display_lane", Intent::SelectDisplayLane(7), Expectation::DisplayLane(7)),
    ];

    for (name, intent, expectation) in cases {
        let mut world = WorldState::new();
        let commands = world.reduce_intent(intent, display_budget(1.0));

        assert!(commands.is_empty(), "{name} should not emit work commands, got {commands:?}");

        match expectation {
            Expectation::Paused(value) => {
                assert_eq!(world.paused, value, "{name} should flip paused flag");
            }
            Expectation::DisplayLane(expected) => {
                assert_eq!(world.display_lane, expected, "{name} should update display lane");
            }
        }
    }
}

#[test]
fn debug_snapshot_intent_emits_kernel_command() {
    match single_cmd(Intent::DebugSnapshot(9)) {
        WorkCmd::Kernel(KernelCmd::Debug(DebugCmd::Snapshot { group })) => {
            assert_eq!(group, 9);
        }
        other => panic!("unexpected command: {other:?}"),
    }
}

#[test]
fn debug_mem_intent_emits_window_params() {
    match single_cmd(Intent::DebugMem { group: 1, space: MemSpace::Wram, base: 0xC120, len: 0x40 }) {
        WorkCmd::Kernel(KernelCmd::Debug(DebugCmd::MemWindow { group, space, base, len })) => {
            assert_eq!(group, 1);
            assert_eq!(space, MemSpace::Wram);
            assert_eq!(base, 0xC120);
            assert_eq!(len, 0x40);
        }
        other => panic!("unexpected command: {other:?}"),
    }
}

#[test]
fn debug_step_instruction_uses_lossless_policy() {
    let cmd = single_cmd(Intent::DebugStepInstruction { group: 2, count: 3 });
    assert_eq!(cmd.default_policy(), SubmitPolicy::Lossless);
    match cmd {
        WorkCmd::Kernel(KernelCmd::Debug(DebugCmd::StepInstruction { group, count })) => {
            assert_eq!(group, 2);
            assert_eq!(count, 3);
        }
        other => panic!("unexpected command: {other:?}"),
    }
}

#[test]
fn debug_step_frame_targets_group() {
    match single_cmd(Intent::DebugStepFrame(4)) {
        WorkCmd::Kernel(KernelCmd::Debug(DebugCmd::StepFrame { group })) => {
            assert_eq!(group, 4);
        }
        other => panic!("unexpected command: {other:?}"),
    }
}
