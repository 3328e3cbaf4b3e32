use gbx::fabric::{
    audio_service_spec, fs_service_spec, gpu_service_spec, kernel_service_spec, MailboxSpec,
    PortMetrics, RingSpec,
};
use gbx::schema::{TAG_AUDIO_CMD, TAG_FS_REP, TAG_GPU_CMD, TAG_KERNEL_CMD, TAG_KERNEL_REP};
use gbx::service_abi::{SubmitOutcome, SubmitPolicy};

#[test]
fn port_metrics_count_each_outcome() {
    let mut metrics = PortMetrics::new();
    metrics.record(SubmitOutcome::Accepted);
    metrics.record(SubmitOutcome::Accepted);
    metrics.record(SubmitOutcome::Coalesced);
    metrics.record(SubmitOutcome::Dropped);
    metrics.record(SubmitOutcome::WouldBlock);
    metrics.record(SubmitOutcome::WouldBlock);
    metrics.record(SubmitOutcome::WouldBlock);
    let snap = metrics.snapshot();
    assert_eq!(snap.accepted, 2);
    assert_eq!(snap.coalesced, 1);
    assert_eq!(snap.dropped, 1);
    assert_eq!(snap.would_block, 3);
}

#[test]
fn closed_outcomes_are_not_counted() {
    let mut metrics = PortMetrics::new();
    metrics.record(SubmitOutcome::Closed);
    let snap = metrics.snapshot();
    assert_eq!(
        (snap.accepted, snap.coalesced, snap.dropped, snap.would_block),
        (0, 0, 0, 0)
    );
}

#[test]
fn channel_specs_carry_their_sizes() {
    let ring = RingSpec {
        capacity_bytes: 32 * 1024,
        envelope_tag: 0x10,
    };
    let mailbox = MailboxSpec {
        payload_bytes: 64 * 1024,
        envelope_tag: 0x10,
    };
    assert_eq!(ring.capacity_bytes, 32768);
    assert_eq!(mailbox.payload_bytes, 65536);
    assert_eq!(ring.envelope_tag, mailbox.envelope_tag);
}

#[test]
fn service_layouts_size_each_channel() {
    let kernel = kernel_service_spec();
    let lossless = kernel.lossless.as_ref().expect("kernel lossless ring");
    assert_eq!((lossless.capacity_bytes, lossless.envelope_tag), (32 * 1024, TAG_KERNEL_CMD));
    let besteffort = kernel.besteffort.as_ref().expect("kernel best-effort ring");
    assert_eq!((besteffort.capacity_bytes, besteffort.envelope_tag), (32 * 1024, TAG_KERNEL_CMD));
    let mailbox = kernel.coalesce.as_ref().expect("kernel mailbox");
    assert_eq!((mailbox.payload_bytes, mailbox.envelope_tag), (64 * 1024, TAG_KERNEL_CMD));
    assert_eq!((kernel.replies.capacity_bytes, kernel.replies.envelope_tag), (512 * 1024, TAG_KERNEL_REP));
    assert_eq!(kernel.reply_policy, SubmitPolicy::Lossless);
    assert_eq!(kernel.slot_pools.len(), 2);
    assert_eq!((kernel.slot_pools[0].slot_count, kernel.slot_pools[0].slot_size), (8, 128 * 1024));
    assert_eq!((kernel.slot_pools[1].slot_count, kernel.slot_pools[1].slot_size), (6, 16 * 1024));

    let fs = fs_service_spec();
    assert!(fs.besteffort.is_none() && fs.coalesce.is_none() && fs.slot_pools.is_empty());
    assert_eq!((fs.replies.capacity_bytes, fs.replies.envelope_tag), (64 * 1024, TAG_FS_REP));
    let gpu = gpu_service_spec();
    assert_eq!(gpu.lossless.as_ref().map(|r| (r.capacity_bytes, r.envelope_tag)), Some((64 * 1024, TAG_GPU_CMD)));
    let audio = audio_service_spec();
    assert_eq!(audio.lossless.as_ref().map(|r| (r.capacity_bytes, r.envelope_tag)), Some((32 * 1024, TAG_AUDIO_CMD)));
    assert_eq!(audio.replies.capacity_bytes, 32 * 1024);
}
