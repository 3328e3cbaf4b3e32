//! Transport-fabric bookkeeping: per-port submit counters and the sizing of
//! ring and mailbox channels.
use vstd::prelude::*;
use crate::schema::{
    TAG_AUDIO_CMD, TAG_AUDIO_REP, TAG_FS_CMD, TAG_FS_REP, TAG_GPU_CMD, TAG_GPU_REP, TAG_KERNEL_CMD,
    TAG_KERNEL_REP,
};
use crate::service_abi::{SubmitOutcome, SubmitPolicy};

verus! {

/// Specification for a ring-based transport channel.
pub struct RingSpec {
    pub capacity_bytes: usize,
    pub envelope_tag: u8,
}

/// Specification for a mailbox-based (coalescing) transport channel.
pub struct MailboxSpec {
    pub payload_bytes: usize,
    pub envelope_tag: u8,
}

/// Specification for a slot pool (frame, audio or bulk data).
pub struct SlotPoolSpec {
    pub slot_count: usize,
    pub slot_size: usize,
}

/// Channel layout of one service: its command rings and mailbox, its reply
/// ring with the policy replies are sent under, and its slot pools.
pub struct ServiceSpec {
    pub lossless: Option<RingSpec>,
    pub besteffort: Option<RingSpec>,
    pub coalesce: Option<MailboxSpec>,
    pub replies: RingSpec,
    pub reply_policy: SubmitPolicy,
    pub slot_pools: Vec<SlotPoolSpec>,
}

/// A ring of `capacity` bytes whose envelopes carry `tag`.
pub open spec fn ring_is(r: RingSpec, capacity: nat, tag: u8) -> bool {
    r.capacity_bytes == capacity && r.envelope_tag == tag
}

/// A service with only a lossless command ring of `cmd_capacity` bytes, a
/// lossless reply ring of `rep_capacity` bytes and no slot pools.
pub open spec fn lossless_only(s: ServiceSpec, cmd_capacity: nat, cmd_tag: u8, rep_capacity: nat, rep_tag: u8) -> bool {
    &&& s.lossless matches Some(r) && ring_is(r, cmd_capacity, cmd_tag)
    &&& s.besteffort is None
    &&& s.coalesce is None
    &&& ring_is(s.replies, rep_capacity, rep_tag)
    &&& s.reply_policy == SubmitPolicy::Lossless
    &&& s.slot_pools@.len() == 0
}

fn ring(capacity_bytes: usize, envelope_tag: u8) -> (r: RingSpec)
    ensures
        ring_is(r, capacity_bytes as nat, envelope_tag),
{
    RingSpec { capacity_bytes, envelope_tag }
}

/// Kernel service: 32 KiB lossless and best-effort command rings, a 64 KiB
/// coalescing mailbox, a 512 KiB lossless reply ring, a frame pool of 8
/// slots of 128 KiB and an audio pool of 6 slots of 16 KiB.
pub fn kernel_service_spec() -> (s: ServiceSpec)
    ensures
        s.lossless matches Some(r) && ring_is(r, 32 * 1024, TAG_KERNEL_CMD),
        s.besteffort matches Some(r) && ring_is(r, 32 * 1024, TAG_KERNEL_CMD),
        s.coalesce matches Some(m) && m.payload_bytes == 64 * 1024 && m.envelope_tag == TAG_KERNEL_CMD,
        ring_is(s.replies, 512 * 1024, TAG_KERNEL_REP),
        s.reply_policy == SubmitPolicy::Lossless,
        s.slot_pools@.len() == 2,
        s.slot_pools@[0].slot_count == 8 && s.slot_pools@[0].slot_size == 128 * 1024,
        s.slot_pools@[1].slot_count == 6 && s.slot_pools@[1].slot_size == 16 * 1024,
{
    let mut pools: Vec<SlotPoolSpec> = Vec::new();
    pools.push(SlotPoolSpec { slot_count: 8, slot_size: 128 * 1024 });
    pools.push(SlotPoolSpec { slot_count: 6, slot_size: 16 * 1024 });
    ServiceSpec {
        lossless: Some(ring(32 * 1024, TAG_KERNEL_CMD)),
        besteffort: Some(ring(32 * 1024, TAG_KERNEL_CMD)),
        coalesce: Some(MailboxSpec { payload_bytes: 64 * 1024, envelope_tag: TAG_KERNEL_CMD }),
        replies: ring(512 * 1024, TAG_KERNEL_REP),
        reply_policy: SubmitPolicy::Lossless,
        slot_pools: pools,
    }
}

/// File-system service: 32 KiB lossless command ring, 64 KiB reply ring.
pub fn fs_service_spec() -> (s: ServiceSpec)
    ensures
        lossless_only(s, 32 * 1024, TAG_FS_CMD, 64 * 1024, TAG_FS_REP),
{
    ServiceSpec {
        lossless: Some(ring(32 * 1024, TAG_FS_CMD)),
        besteffort: None,
        coalesce: None,
        replies: ring(64 * 1024, TAG_FS_REP),
        reply_policy: SubmitPolicy::Lossless,
        slot_pools: Vec::new(),
    }
}

/// GPU service: 64 KiB lossless command ring, 64 KiB reply ring.
pub fn gpu_service_spec() -> (s: ServiceSpec)
    ensures
        lossless_only(s, 64 * 1024, TAG_GPU_CMD, 64 * 1024, TAG_GPU_REP),
{
    ServiceSpec {
        lossless: Some(ring(64 * 1024, TAG_GPU_CMD)),
        besteffort: None,
        coalesce: None,
        replies: ring(64 * 1024, TAG_GPU_REP),
        reply_policy: SubmitPolicy::Lossless,
        slot_pools: Vec::new(),
    }
}

/// Audio service: 32 KiB lossless command ring, 32 KiB reply ring.
pub fn audio_service_spec() -> (s: ServiceSpec)
    ensures
        lossless_only(s, 32 * 1024, TAG_AUDIO_CMD, 32 * 1024, TAG_AUDIO_REP),
{
    ServiceSpec {
        lossless: Some(ring(32 * 1024, TAG_AUDIO_CMD)),
        besteffort: None,
        coalesce: None,
        replies: ring(32 * 1024, TAG_AUDIO_REP),
        reply_policy: SubmitPolicy::Lossless,
        slot_pools: Vec::new(),
    }
}

/// Counters of a port, read at one instant.
#[derive(Clone, Copy, Debug, Default)]
pub struct PortMetricsSnapshot {
    pub accepted: u32,
    pub coalesced: u32,
    pub dropped: u32,
    pub would_block: u32,
}

/// Running submit counters of a port; each counter wraps at `u32::MAX`.
pub struct PortMetrics {
    accepted: u32,
    coalesced: u32,
    dropped: u32,
    would_block: u32,
}

/// `n + 1` wrapping at 2^32.
pub open spec fn bump(n: u32) -> u32 {
    if n == u32::MAX {
        0
    } else {
        (n + 1) as u32
    }
}

/// The counters after recording one submit outcome: the matching counter
/// moves up by one, and a closed port counts nothing.
pub open spec fn recorded(m: PortMetricsSnapshot, outcome: SubmitOutcome) -> PortMetricsSnapshot {
    match outcome {
        SubmitOutcome::Accepted => PortMetricsSnapshot { accepted: bump(m.accepted), ..m },
        SubmitOutcome::Coalesced => PortMetricsSnapshot { coalesced: bump(m.coalesced), ..m },
        SubmitOutcome::Dropped => PortMetricsSnapshot { dropped: bump(m.dropped), ..m },
        SubmitOutcome::WouldBlock => PortMetricsSnapshot { would_block: bump(m.would_block), ..m },
        SubmitOutcome::Closed => m,
    }
}

/// All counters at zero.
pub open spec fn zero_metrics() -> PortMetricsSnapshot {
    PortMetricsSnapshot { accepted: 0, coalesced: 0, dropped: 0, would_block: 0 }
}

impl View for PortMetrics {
    type V = PortMetricsSnapshot;

    closed spec fn view(&self) -> PortMetricsSnapshot {
        PortMetricsSnapshot {
            accepted: self.accepted,
            coalesced: self.coalesced,
            dropped: self.dropped,
            would_block: self.would_block,
        }
    }
}

impl PortMetrics {
    /// Counters that have recorded nothing yet.
    pub fn new() -> (r: Self)
        ensures
            r@ == zero_metrics(),
    {
        PortMetrics { accepted: 0, coalesced: 0, dropped: 0, would_block: 0 }
    }

    /// Counts one submit outcome.
    pub fn record(&mut self, outcome: SubmitOutcome)
        ensures
            final(self)@ == recorded(old(self)@, outcome),
    {
        match outcome {
            SubmitOutcome::Accepted => {
                self.accepted = self.accepted.wrapping_add(1);
            },
            SubmitOutcome::Coalesced => {
                self.coalesced = self.coalesced.wrapping_add(1);
            },
            SubmitOutcome::Dropped => {
                self.dropped = self.dropped.wrapping_add(1);
            },
            SubmitOutcome::WouldBlock => {
                self.would_block = self.would_block.wrapping_add(1);
            },
            SubmitOutcome::Closed => {},
        }
    }

    /// Reads all counters.
    pub fn snapshot(&self) -> (r: PortMetricsSnapshot)
        ensures
            r == self@,
    {
        PortMetricsSnapshot {
            accepted: self.accepted,
            coalesced: self.coalesced,
            dropped: self.dropped,
            would_block: self.would_block,
        }
    }
}

} // verus!
