//! Scheduler policies of commands and the service ABI defaults.

use gbx::service_abi::{
    AudioCmd, AudioSpan, DebugCmd, FrameSpan, FsCmd, GpuCmd, KernelCmd, MemSpace, SubmitPolicy, TickPurpose,
};
use gbx::world::{AvCmd, WorkCmd};

#[test]
fn debug_command_policies_and_report_counts() {
    let snap = DebugCmd::Snapshot { group: 1 };
    let mem = DebugCmd::MemWindow { group: 2, space: MemSpace::Oam, base: 0xFE00, len: 4 };
    let step = DebugCmd::StepInstruction { group: 3, count: 5 };
    let frame = DebugCmd::StepFrame { group: 4 };
    assert_eq!(snap.submit_policy(), SubmitPolicy::Coalesce);
    assert_eq!(mem.submit_policy(), SubmitPolicy::Lossless);
    assert_eq!(step.submit_policy(), SubmitPolicy::Lossless);
    assert_eq!(frame.submit_policy(), SubmitPolicy::Lossless);
    assert_eq!(snap.expected_reports(), 1);
    assert_eq!(mem.expected_reports(), 1);
    assert_eq!(step.expected_reports(), 1);
    assert_eq!(frame.expected_reports(), 3);
    assert_eq!([snap.group(), mem.group(), step.group(), frame.group()], [1, 2, 3, 4]);
}

#[test]
fn work_command_policies() {
    let tick = |purpose| WorkCmd::Kernel(KernelCmd::Tick { group: 0, purpose, budget: 1 });
    assert_eq!(tick(TickPurpose::Display).default_policy(), SubmitPolicy::Coalesce);
    assert_eq!(tick(TickPurpose::Exploration).default_policy(), SubmitPolicy::BestEffort);
    assert_eq!(
        WorkCmd::Kernel(KernelCmd::LoadRom { group: 0, bytes: vec![] }).default_policy(),
        SubmitPolicy::Lossless
    );
    assert_eq!(
        WorkCmd::Kernel(KernelCmd::Debug(DebugCmd::Snapshot { group: 0 })).default_policy(),
        SubmitPolicy::Coalesce
    );
    assert_eq!(
        WorkCmd::Fs(FsCmd::Persist { path: "x".to_string(), bytes: vec![] }).default_policy(),
        SubmitPolicy::Coalesce
    );
}

#[test]
fn av_command_policies_follow_the_display_lane() {
    let upload = AvCmd::Gpu(GpuCmd::UploadFrame { lane: 2, span: FrameSpan::default() });
    assert_eq!(upload.default_policy(2), SubmitPolicy::Must);
    assert_eq!(upload.default_policy(0), SubmitPolicy::BestEffort);
    let audio = AvCmd::Audio(AudioCmd::Submit { span: AudioSpan::default() });
    assert_eq!(audio.default_policy(7), SubmitPolicy::Must);
}

#[test]
fn empty_spans() {
    let f = FrameSpan::empty();
    assert_eq!((f.width, f.height, f.pixels.len(), f.slot_span), (0, 0, 0, None));
    let a = AudioSpan::empty();
    assert_eq!((a.samples.len(), a.channels, a.sample_rate_hz), (0, 2, 48_000));
}
