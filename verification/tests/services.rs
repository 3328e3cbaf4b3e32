//! Mock services and the bounded report queue policies.

use gbx::service_abi::{
    AudioCmd, AudioRep, AudioSpan, FrameSpan, FsCmd, FsRep, GpuCmd, GpuRep, SubmitOutcome, SubmitPolicy,
};
use gbx::service_queue::{drain_queue, try_submit_queue, LocalQueue};
use gbx::services::{persist_policy, AudioService, FsService, GpuService};

fn queue_with(n: u32) -> LocalQueue<u32> {
    let mut q = LocalQueue::with_capacity(8);
    for i in 0..n {
        q.push_back(i);
    }
    q
}

#[test]
fn best_effort_drops_when_full() {
    let mut q = queue_with(3);
    let r = try_submit_queue(&mut q, 4, SubmitPolicy::BestEffort, 2, || vec![10, 11]);
    assert_eq!(r, SubmitOutcome::Dropped);
    assert_eq!(q.len(), 3);
    let r = try_submit_queue(&mut q, 4, SubmitPolicy::BestEffort, 1, || vec![10]);
    assert_eq!(r, SubmitOutcome::Accepted);
    assert_eq!(drain_queue(&mut q, 10), vec![0, 1, 2, 10]);
}

#[test]
fn coalesce_evicts_oldest_reports() {
    let mut q = queue_with(3);
    let r = try_submit_queue(&mut q, 4, SubmitPolicy::Coalesce, 2, || vec![10, 11]);
    assert_eq!(r, SubmitOutcome::Coalesced);
    assert_eq!(drain_queue(&mut q, 10), vec![1, 2, 10, 11]);
    let mut q = queue_with(2);
    let r = try_submit_queue(&mut q, 4, SubmitPolicy::Coalesce, 1, || vec![7]);
    assert_eq!(r, SubmitOutcome::Accepted);
    let mut q = queue_with(2);
    let r = try_submit_queue(&mut q, 1, SubmitPolicy::Coalesce, 2, || vec![7, 8]);
    assert_eq!(r, SubmitOutcome::WouldBlock);
    assert_eq!(q.len(), 0);
}

#[test]
fn lossless_and_must_would_block() {
    for policy in [SubmitPolicy::Lossless, SubmitPolicy::Must] {
        let mut q = queue_with(4);
        let r = try_submit_queue(&mut q, 4, policy, 1, || vec![9]);
        assert_eq!(r, SubmitOutcome::WouldBlock);
        assert_eq!(q.len(), 4);
    }
}

#[test]
fn drain_takes_oldest_first() {
    let mut q = queue_with(5);
    assert_eq!(drain_queue(&mut q, 2), vec![0, 1]);
    assert_eq!(drain_queue(&mut q, 0), Vec::<u32>::new());
    assert_eq!(drain_queue(&mut q, 9), vec![2, 3, 4]);
}

#[test]
fn gpu_reports_frames_with_increasing_ids() {
    let mut gpu = GpuService::new(2);
    let cmd = GpuCmd::UploadFrame { lane: 1, span: FrameSpan::empty() };
    assert_eq!(gpu.try_submit(&cmd), SubmitOutcome::Accepted);
    assert_eq!(gpu.try_submit(&cmd), SubmitOutcome::Accepted);
    assert_eq!(gpu.try_submit(&cmd), SubmitOutcome::WouldBlock);
    assert_eq!(
        gpu.drain(8),
        vec![GpuRep::FrameShown { lane: 1, frame_id: 1 }, GpuRep::FrameShown { lane: 1, frame_id: 2 }]
    );
    assert_eq!(gpu.try_submit(&cmd), SubmitOutcome::Accepted);
    assert_eq!(gpu.drain(8), vec![GpuRep::FrameShown { lane: 1, frame_id: 3 }]);
}

#[test]
fn audio_reports_frames_per_channel() {
    let mut audio = AudioService::default();
    let span = AudioSpan { samples: vec![0; 12], channels: 2, sample_rate_hz: 48_000, slot_span: None };
    assert_eq!(audio.try_submit(&AudioCmd::Submit { span }), SubmitOutcome::Accepted);
    let silent = AudioSpan { samples: vec![0; 12], channels: 0, sample_rate_hz: 48_000, slot_span: None };
    audio.try_submit(&AudioCmd::Submit { span: silent });
    assert_eq!(audio.drain(8), vec![AudioRep::Played { frames: 6 }, AudioRep::Played { frames: 0 }]);
}

#[test]
fn manual_saves_are_lossless() {
    assert_eq!(persist_policy(&Some("manual-save".to_string())), SubmitPolicy::Lossless);
    assert_eq!(persist_policy(&Some("auto".to_string())), SubmitPolicy::Coalesce);
    assert_eq!(persist_policy(&None), SubmitPolicy::Coalesce);
}

#[test]
fn fs_service_coalesces_autosaves_but_not_manual_saves() {
    let mut fs = FsService::new(1);
    let auto = FsCmd::Persist { path: "saves/auto".to_string(), bytes: vec![1] };
    assert_eq!(fs.try_submit(&auto), SubmitOutcome::Accepted);
    assert_eq!(fs.try_submit(&auto), SubmitOutcome::Coalesced);
    let manual = FsCmd::Persist { path: "saves/manual-save".to_string(), bytes: vec![2] };
    assert_eq!(fs.try_submit(&manual), SubmitOutcome::WouldBlock);
    assert_eq!(fs.drain(4), vec![FsRep::Saved { path: "saves/auto".to_string(), ok: true }]);
    assert_eq!(fs.try_submit(&manual), SubmitOutcome::Accepted);
}
