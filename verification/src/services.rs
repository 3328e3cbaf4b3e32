//! Mock GPU, audio and filesystem services: each answers a command with one
//! report in a bounded queue, admitted under its scheduler policy.
use vstd::prelude::*;
use crate::service_abi::{AudioCmd, AudioRep, FsCmd, FsRep, GpuCmd, GpuRep, SubmitOutcome, SubmitPolicy};
use crate::service_queue::{drain_queue, outcome_enqueues, submit_outcome, submit_kept, try_submit_queue, LocalQueue};

verus! {

/// Report queue length of the GPU, audio and kernel mocks by default.
pub const DEFAULT_AV_CAPACITY: usize = 128;

/// Report queue length of the filesystem mock by default.
pub const DEFAULT_FS_CAPACITY: usize = 32;

/// Mathematical model of a mock service: its queued reports, its queue
/// capacity and (for the GPU) the last frame identifier handed out.
pub struct ServiceView<Rep> {
    pub queued: Seq<Rep>,
    pub capacity: nat,
    pub frame_counter: u64,
}

/// Mock GPU service: every uploaded frame is reported shown with the next
/// frame identifier.
pub struct GpuService {
    reports: LocalQueue<GpuRep>,
    capacity: usize,
    next_frame_id: u64,
}

impl View for GpuService {
    type V = ServiceView<GpuRep>;

    closed spec fn view(&self) -> ServiceView<GpuRep> {
        ServiceView { queued: self.reports@, capacity: self.capacity as nat, frame_counter: self.next_frame_id }
    }
}

/// Frame identifier after `id`, wrapping at the top of `u64`.
pub open spec fn next_id(id: u64) -> u64 {
    if id == u64::MAX {
        0
    } else {
        (id + 1) as u64
    }
}

/// Lane a GPU command presents.
pub open spec fn gpu_lane(cmd: GpuCmd) -> u16 {
    match cmd {
        GpuCmd::UploadFrame { lane, .. } => lane,
    }
}

/// Effect of submitting a frame upload to the GPU service under the `Must`
/// policy: when admitted, a `FrameShown` report with the next frame
/// identifier is queued; otherwise nothing changes.
pub open spec fn gpu_submitted(
    old: ServiceView<GpuRep>,
    new: ServiceView<GpuRep>,
    cmd: GpuCmd,
    r: SubmitOutcome,
) -> bool {
    &&& r == submit_outcome(old.queued.len() as int, old.capacity as int, SubmitPolicy::Must, 1)
    &&& outcome_enqueues(r) ==> new == (ServiceView {
        queued: old.queued.push(GpuRep::FrameShown { lane: gpu_lane(cmd), frame_id: next_id(old.frame_counter) }),
        frame_counter: next_id(old.frame_counter),
        ..old
    })
    &&& !outcome_enqueues(r) ==> new == old
}

impl GpuService {
    /// Creates a GPU service whose report queue holds `capacity` reports.
    pub fn new(capacity: usize) -> (r: Self)
        ensures
            r@.queued == Seq::<GpuRep>::empty(),
            r@.capacity == capacity,
            r@.frame_counter == 0,
    {
        GpuService { reports: LocalQueue::with_capacity(capacity), capacity, next_frame_id: 0 }
    }

    /// Submits a frame upload under the `Must` policy; when admitted, a
    /// `FrameShown` report with the next frame identifier is queued.
    pub fn try_submit(&mut self, cmd: &GpuCmd) -> (r: SubmitOutcome)
        requires
            old(self)@.queued.len() + 1 <= usize::MAX,
        ensures
            gpu_submitted(old(self)@, final(self)@, *cmd, r),
    {
        let lane = match cmd {
            GpuCmd::UploadFrame { lane, .. } => *lane,
        };
        let frame_id = if self.next_frame_id == u64::MAX { 0 } else { self.next_frame_id + 1 };
        let make = || -> (reps: Vec<GpuRep>)
            ensures
                reps@ == seq![GpuRep::FrameShown { lane, frame_id }],
            {
                let mut reps = Vec::new();
                reps.push(GpuRep::FrameShown { lane, frame_id });
                reps
            };
        let ghost q0 = self.reports@;
        let r = try_submit_queue(&mut self.reports, self.capacity, SubmitPolicy::Must, 1, make);
        proof {
            if outcome_enqueues(r) {
                let reps = choose|reps: Vec<GpuRep>| call_ensures(make, (), reps) && self.reports@ == q0 + reps@;
                assert(self.reports@ =~= q0.push(GpuRep::FrameShown { lane, frame_id }));
            }
        }
        if r == SubmitOutcome::Accepted || r == SubmitOutcome::Coalesced {
            self.next_frame_id = frame_id;
        }
        r
    }

    /// Drains up to `max` reports, oldest first.
    pub fn drain(&mut self, max: usize) -> (r: Vec<GpuRep>)
        ensures
            r@ == old(self)@.queued.subrange(0, if max < old(self)@.queued.len() { max as int } else { old(self)@.queued.len() as int }),
            final(self)@ == (ServiceView {
                queued: old(self)@.queued.subrange(
                    if max < old(self)@.queued.len() { max as int } else { old(self)@.queued.len() as int },
                    old(self)@.queued.len() as int,
                ),
                ..old(self)@
            }),
    {
        drain_queue(&mut self.reports, max)
    }
}

impl Default for GpuService {
    fn default() -> (r: Self)
        ensures
            r@.queued == Seq::<GpuRep>::empty(),
            r@.capacity == DEFAULT_AV_CAPACITY,
            r@.frame_counter == 0,
    {
        GpuService::new(DEFAULT_AV_CAPACITY)
    }
}

/// Mock audio service: every submitted buffer is reported played.
pub struct AudioService {
    reports: LocalQueue<AudioRep>,
    capacity: usize,
}

impl View for AudioService {
    type V = ServiceView<AudioRep>;

    closed spec fn view(&self) -> ServiceView<AudioRep> {
        ServiceView { queued: self.reports@, capacity: self.capacity as nat, frame_counter: 0 }
    }
}

/// Number of audio frames in a buffer: samples per channel (0 without channels).
pub open spec fn played_frames(cmd: AudioCmd) -> usize {
    match cmd {
        AudioCmd::Submit { span } => if span.channels == 0 {
            0
        } else {
            (span.samples@.len() / (span.channels as nat)) as usize
        },
    }
}

/// Effect of submitting a buffer to the audio service under the `Must`
/// policy: when admitted, a `Played` report with the buffer's frame count is
/// queued; otherwise nothing changes.
pub open spec fn audio_submitted(
    old: ServiceView<AudioRep>,
    new: ServiceView<AudioRep>,
    cmd: AudioCmd,
    r: SubmitOutcome,
) -> bool {
    &&& r == submit_outcome(old.queued.len() as int, old.capacity as int, SubmitPolicy::Must, 1)
    &&& outcome_enqueues(r) ==> new == (ServiceView {
        queued: old.queued.push(AudioRep::Played { frames: played_frames(cmd) }),
        ..old
    })
    &&& !outcome_enqueues(r) ==> new == old
}

impl AudioService {
    /// Creates an audio service whose report queue holds `capacity` reports.
    pub fn new(capacity: usize) -> (r: Self)
        ensures
            r@.queued == Seq::<AudioRep>::empty(),
            r@.capacity == capacity,
    {
        AudioService { reports: LocalQueue::with_capacity(capacity), capacity }
    }

    /// Submits a buffer under the `Must` policy; when admitted, a `Played`
    /// report with the buffer's frame count is queued.
    pub fn try_submit(&mut self, cmd: &AudioCmd) -> (r: SubmitOutcome)
        requires
            old(self)@.queued.len() + 1 <= usize::MAX,
        ensures
            audio_submitted(old(self)@, final(self)@, *cmd, r),
    {
        let frames: usize = match cmd {
            AudioCmd::Submit { span } => if span.channels == 0 {
                0
            } else {
                span.samples.len() / (span.channels as usize)
            },
        };
        let make = || -> (reps: Vec<AudioRep>)
            ensures
                reps@ == seq![AudioRep::Played { frames }],
            {
                let mut reps = Vec::new();
                reps.push(AudioRep::Played { frames });
                reps
            };
        let ghost q0 = self.reports@;
        let r = try_submit_queue(&mut self.reports, self.capacity, SubmitPolicy::Must, 1, make);
        proof {
            if outcome_enqueues(r) {
                let reps = choose|reps: Vec<AudioRep>| call_ensures(make, (), reps) && self.reports@ == q0 + reps@;
                assert(self.reports@ =~= q0.push(AudioRep::Played { frames }));
            }
        }
        r
    }

    /// Drains up to `max` reports, oldest first.
    pub fn drain(&mut self, max: usize) -> (r: Vec<AudioRep>)
        ensures
            r@ == old(self)@.queued.subrange(0, if max < old(self)@.queued.len() { max as int } else { old(self)@.queued.len() as int }),
            final(self)@ == (ServiceView {
                queued: old(self)@.queued.subrange(
                    if max < old(self)@.queued.len() { max as int } else { old(self)@.queued.len() as int },
                    old(self)@.queued.len() as int,
                ),
                ..old(self)@
            }),
    {
        drain_queue(&mut self.reports, max)
    }
}

impl Default for AudioService {
    fn default() -> (r: Self)
        ensures
            r@.queued == Seq::<AudioRep>::empty(),
            r@.capacity == DEFAULT_AV_CAPACITY,
    {
        AudioService::new(DEFAULT_AV_CAPACITY)
    }
}

/// `needle` occurs in `hay` as a run of consecutive characters.
pub open spec fn contains_text(hay: Seq<char>, needle: Seq<char>) -> bool {
    exists|i: int|
        0 <= i && i + needle.len() <= hay.len() && #[trigger] hay.subrange(i, i + needle.len())
            == needle
}

/// A path whose final component is `manual-save` under every platform's
/// path syntax: the bare name, or a path ending in `/manual-save` that has
/// no backslash and does not start with `//` (so that no Windows prefix can
/// take the name in).
pub open spec fn plain_manual_save_path(p: Seq<char>) -> bool {
    ||| p == "manual-save"@
    ||| {
        &&& p.len() > 12
        &&& p.subrange(p.len() - 12, p.len() as int) == "/manual-save"@
        &&& !p.contains('\\')
        &&& !(p[0] == '/' && p[1] == '/')
    }
}

/// Calls `std::path::Path::file_name` and returns the final component of
/// `path` as text. The contract claims two facts that hold under every
/// platform's path syntax: a component is a piece of the path itself, and a
/// plain path ending in `/manual-save` (or that bare name) has the final
/// component `manual-save`. Which component other paths give follows the
/// platform's separators and prefixes, and is left unstated; a non-UTF-8
/// component cannot arise from a `&str` path.
#[verifier::external_body]
fn path_file_name(path: &str) -> (r: Option<String>)
    ensures
        r is Some ==> contains_text(path@, r->0@),
        plain_manual_save_path(path@) ==> r is Some && r->0@ == "manual-save"@,
{
    match std::path::Path::new(path).file_name() {
        Some(name) => Some(name.to_string_lossy().into_owned()),
        None => None,
    }
}

/// Scheduler policy for persisting a file whose final path component is
/// `file_name`: manual saves are lossless, everything else coalesces.
pub fn persist_policy(file_name: &Option<String>) -> (r: SubmitPolicy)
    ensures
        r == if file_name matches Some(n) && n@ == "manual-save"@ {
            SubmitPolicy::Lossless
        } else {
            SubmitPolicy::Coalesce
        },
{
    match file_name {
        Some(n) => {
            let manual = "manual-save".to_owned();
            if *n == manual {
                SubmitPolicy::Lossless
            } else {
                SubmitPolicy::Coalesce
            }
        },
        None => SubmitPolicy::Coalesce,
    }
}

/// Mock filesystem service: every persisted payload is reported saved.
pub struct FsService {
    reports: LocalQueue<FsRep>,
    capacity: usize,
}

/// Model of a filesystem report.
pub open spec fn saved_path(r: FsRep) -> Seq<char> {
    match r {
        FsRep::Saved { path, .. } => path@,
    }
}

impl View for FsService {
    type V = ServiceView<FsRep>;

    closed spec fn view(&self) -> ServiceView<FsRep> {
        ServiceView { queued: self.reports@, capacity: self.capacity as nat, frame_counter: 0 }
    }
}

/// Path a filesystem command persists to.
pub open spec fn persist_path(cmd: FsCmd) -> Seq<char> {
    match cmd {
        FsCmd::Persist { path, .. } => path@,
    }
}

/// Effect of submitting a persistence request to the filesystem service
/// under `policy`: the queue keeps what the policy keeps and, when the
/// request is admitted, a successful `Saved` report for its path follows.
pub open spec fn fs_submitted_with(
    old: ServiceView<FsRep>,
    new: ServiceView<FsRep>,
    cmd: FsCmd,
    policy: SubmitPolicy,
    r: SubmitOutcome,
) -> bool {
    let kept = submit_kept(old.queued, old.capacity as int, policy, 1);
    &&& r == submit_outcome(old.queued.len() as int, old.capacity as int, policy, 1)
    &&& outcome_enqueues(r) ==> {
        &&& new.queued.len() == kept.len() + 1
        &&& new.queued.subrange(0, new.queued.len() - 1) == kept
        &&& new.queued.last() matches FsRep::Saved { path, ok }
        &&& path@ == persist_path(cmd)
        &&& ok
    }
    &&& !outcome_enqueues(r) ==> new.queued == kept
    &&& new.capacity == old.capacity
    &&& new.frame_counter == old.frame_counter
}

impl FsService {
    /// Creates a filesystem service whose report queue holds `capacity` reports.
    pub fn new(capacity: usize) -> (r: Self)
        ensures
            r@.queued == Seq::<FsRep>::empty(),
            r@.capacity == capacity,
    {
        FsService { reports: LocalQueue::with_capacity(capacity), capacity }
    }

    /// Submits a persist request, lossless for manual saves and coalescing
    /// otherwise; when admitted, a successful `Saved` report for the path is
    /// queued behind what the policy kept.
    pub fn try_submit(&mut self, cmd: &FsCmd) -> (r: SubmitOutcome)
        requires
            old(self)@.queued.len() + 1 <= usize::MAX,
        ensures
            plain_manual_save_path(persist_path(*cmd)) ==> fs_submitted_with(
                old(self)@,
                final(self)@,
                *cmd,
                SubmitPolicy::Lossless,
                r,
            ),
            !contains_text(persist_path(*cmd), "manual-save"@) ==> fs_submitted_with(
                old(self)@,
                final(self)@,
                *cmd,
                SubmitPolicy::Coalesce,
                r,
            ),
            exists|p: SubmitPolicy|
                (p == SubmitPolicy::Lossless || p == SubmitPolicy::Coalesce) && #[trigger] fs_submitted_with(
                    old(self)@,
                    final(self)@,
                    *cmd,
                    p,
                    r,
                ),
    {
        let path = match cmd {
            FsCmd::Persist { path, .. } => path,
        };
        let name = path_file_name(path.as_str());
        let policy = persist_policy(&name);
        self.submit_with_policy(cmd, policy)
    }

    /// Submits a persist request under `policy`; when admitted, a successful
    /// `Saved` report for the path is queued behind what the policy kept.
    pub fn submit_with_policy(&mut self, cmd: &FsCmd, policy: SubmitPolicy) -> (r: SubmitOutcome)
        requires
            old(self)@.queued.len() + 1 <= usize::MAX,
        ensures
            fs_submitted_with(old(self)@, final(self)@, *cmd, policy, r),
    {
        let path = match cmd {
            FsCmd::Persist { path, .. } => path,
        };
        let make = || -> (reps: Vec<FsRep>)
            ensures
                reps@.len() == 1,
                reps@[0] matches FsRep::Saved { path: p, ok } && p@ == path@ && ok,
            {
                let mut reps = Vec::new();
                reps.push(FsRep::Saved { path: path.clone(), ok: true });
                reps
            };
        let ghost q0 = self.reports@;
        let r = try_submit_queue(&mut self.reports, self.capacity, policy, 1, make);
        proof {
            if outcome_enqueues(r) {
                let kept = submit_kept(q0, self.capacity as int, policy, 1);
                let reps = choose|reps: Vec<FsRep>| call_ensures(make, (), reps) && self.reports@ == kept + reps@;
                assert(self.reports@.subrange(0, self.reports@.len() - 1) == kept);
                assert(self.reports@.last() == reps@[0]);
            }
        }
        r
    }

    /// Drains up to `max` reports, oldest first.
    pub fn drain(&mut self, max: usize) -> (r: Vec<FsRep>)
        ensures
            r@ == old(self)@.queued.subrange(0, if max < old(self)@.queued.len() { max as int } else { old(self)@.queued.len() as int }),
            final(self)@.queued == old(self)@.queued.subrange(
                if max < old(self)@.queued.len() { max as int } else { old(self)@.queued.len() as int },
                old(self)@.queued.len() as int,
            ),
            final(self)@.capacity == old(self)@.capacity,
            final(self)@.frame_counter == old(self)@.frame_counter,
    {
        drain_queue(&mut self.reports, max)
    }
}

impl Default for FsService {
    fn default() -> (r: Self)
        ensures
            r@.queued == Seq::<FsRep>::empty(),
            r@.capacity == DEFAULT_FS_CAPACITY,
    {
        FsService::new(DEFAULT_FS_CAPACITY)
    }
}

} // verus!
