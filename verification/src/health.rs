//! Health tracking for service backpressure and recovery: coarse flags for
//! the UI and a countdown window during which best-effort GPU work is
//! throttled after a stall, until a successful `Must` submission.
use vstd::prelude::*;

verus! {

/// Latch-style health indicators exported to the UI layer.
#[derive(Debug, Clone, Copy, PartialEq, Eq, Structural)]
pub struct HealthFlags {
    /// True when the GPU backend has returned `WouldBlock` for critical uploads.
    pub gpu_blocked: bool,
    /// True when ancillary services report sustained backpressure.
    pub service_pressure: bool,
    /// True when any service closed unexpectedly and the app should halt.
    pub fatal: bool,
}

impl Default for HealthFlags {
    fn default() -> (r: Self)
        ensures
            !r.gpu_blocked && !r.service_pressure && !r.fatal,
    {
        HealthFlags { gpu_blocked: false, service_pressure: false, fatal: false }
    }
}

/// Aggregates health flags with stall-relief bookkeeping.
#[derive(Debug, Clone, Copy, PartialEq, Eq, Structural)]
pub struct Health {
    /// Snapshot of coarse health flags.
    pub flags: HealthFlags,
    /// Remaining frames to throttle best-effort GPU work during recovery.
    pub stall_relief_frames: u8,
}

impl Default for Health {
    fn default() -> (r: Self)
        ensures
            !r.flags.gpu_blocked && !r.flags.service_pressure && !r.flags.fatal,
            r.stall_relief_frames == 0,
    {
        Health { flags: HealthFlags::default(), stall_relief_frames: 0 }
    }
}

/// Relief window after one frame of decay: one less, saturating at zero.
pub open spec fn decayed(frames: u8) -> u8 {
    if frames > 0 {
        (frames - 1) as u8
    } else {
        0
    }
}

impl Health {
    /// Starts or extends a stall relief window and marks the GPU as blocked;
    /// the window never shrinks.
    pub fn begin_stall_relief(&mut self, frames: u8)
        ensures
            final(self).flags == (HealthFlags { gpu_blocked: true, ..old(self).flags }),
            final(self).stall_relief_frames == if frames > old(self).stall_relief_frames {
                frames
            } else {
                old(self).stall_relief_frames
            },
    {
        self.flags.gpu_blocked = true;
        if frames > self.stall_relief_frames {
            self.stall_relief_frames = frames;
        }
    }

    /// Decrements the stall relief window by one frame if active.
    pub fn decay_one_frame(&mut self)
        ensures
            final(self).flags == old(self).flags,
            final(self).stall_relief_frames == decayed(old(self).stall_relief_frames),
    {
        if self.stall_relief_frames > 0 {
            self.stall_relief_frames -= 1;
        }
    }

    /// Clears the GPU stall flag after a successful submission and decays relief.
    pub fn clear_on_success(&mut self)
        ensures
            final(self).flags == (HealthFlags { gpu_blocked: false, ..old(self).flags }),
            final(self).stall_relief_frames == decayed(old(self).stall_relief_frames),
    {
        self.flags.gpu_blocked = false;
        self.decay_one_frame();
    }
}

/// Relief window left after `n` frames of decay from `frames`.
pub open spec fn decayed_by(frames: u8, n: nat) -> u8
    decreases n,
{
    if n == 0 {
        frames
    } else {
        decayed(decayed_by(frames, (n - 1) as nat))
    }
}

/// A relief window counts down one frame per decay and stops at zero: after
/// `n` decays a window of `frames` holds `frames - n`, and is spent once `n`
/// reaches `frames`.
pub proof fn lemma_relief_drains(frames: u8, n: nat)
    ensures
        decayed_by(frames, n) == if n >= frames { 0 } else { frames - n },
    decreases n,
{
    if n > 0 {
        lemma_relief_drains(frames, (n - 1) as nat);
    }
}

} // verus!
