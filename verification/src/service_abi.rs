//! Service ABI types shared between the services and the scheduler: the
//! commands and reports of the kernel, GPU, audio and filesystem services and
//! the inspector payloads they carry.
use vstd::prelude::*;

verus! {

/// Policy describing how the scheduler should handle backpressure.
#[derive(Clone, Copy, Debug, PartialEq, Eq, Structural)]
pub enum SubmitPolicy {
    /// Command must be submitted immediately; failure is surfaced.
    Must,
    /// Replace or merge with pending work of the same kind.
    Coalesce,
    /// Drop when queues are congested.
    BestEffort,
    /// Never drop; scheduler will retry on subsequent frames.
    Lossless,
}

/// Outcome returned when attempting to submit a command.
#[derive(Clone, Copy, Debug, PartialEq, Eq, Structural)]
pub enum SubmitOutcome {
    /// Command entered the queue untouched.
    Accepted,
    /// Command replaced or merged with a pending entry.
    Coalesced,
    /// Command was intentionally dropped per policy.
    Dropped,
    /// Service could not accept without blocking.
    WouldBlock,
    /// Service is closed or unhealthy.
    Closed,
}

/// Describes a contiguous range of slots within a transport pool.
#[derive(Clone, Copy, Debug, PartialEq, Eq, Structural)]
pub struct SlotSpan {
    /// Starting slot index within the pool.
    pub start_idx: u32,
    /// Number of contiguous slots in this span.
    pub count: u32,
}

/// Image span produced by the kernel for presentation.
#[derive(Clone, Debug, PartialEq, Eq)]
pub struct FrameSpan {
    /// Frame width in pixels.
    pub width: u16,
    /// Frame height in pixels.
    pub height: u16,
    /// Raw RGBA pixels (row-major).
    pub pixels: Vec<u8>,
    /// Optional slot span referencing transport-managed memory.
    pub slot_span: Option<SlotSpan>,
}

impl FrameSpan {
    /// Creates an empty frame span placeholder.
    pub fn empty() -> (r: Self)
        ensures
            r.width == 0,
            r.height == 0,
            r.pixels@ == Seq::<u8>::empty(),
            r.slot_span is None,
    {
        FrameSpan { width: 0, height: 0, pixels: Vec::new(), slot_span: None }
    }
}

impl Default for FrameSpan {
    fn default() -> (r: Self)
        ensures
            r.width == 0,
            r.height == 0,
            r.pixels@ == Seq::<u8>::empty(),
            r.slot_span is None,
    {
        Self::empty()
    }
}

/// Audio buffer produced by the kernel.
#[derive(Clone, Debug, PartialEq, Eq)]
pub struct AudioSpan {
    /// Interleaved PCM samples.
    pub samples: Vec<i16>,
    /// Number of channels in the buffer.
    pub channels: u8,
    /// Sample rate in Hertz.
    pub sample_rate_hz: u32,
    /// Optional slot span referencing transport-managed memory.
    pub slot_span: Option<SlotSpan>,
}

impl AudioSpan {
    /// Creates an empty stereo 48 kHz audio span placeholder.
    pub fn empty() -> (r: Self)
        ensures
            r.samples@ == Seq::<i16>::empty(),
            r.channels == 2,
            r.sample_rate_hz == 48_000,
            r.slot_span is None,
    {
        AudioSpan { samples: Vec::new(), channels: 2, sample_rate_hz: 48_000, slot_span: None }
    }
}

impl Default for AudioSpan {
    fn default() -> (r: Self)
        ensures
            r.samples@ == Seq::<i16>::empty(),
            r.channels == 2,
            r.sample_rate_hz == 48_000,
            r.slot_span is None,
    {
        Self::empty()
    }
}

/// Purpose for a kernel tick invocation.
#[derive(Clone, Copy, Debug, PartialEq, Eq, Structural)]
pub enum TickPurpose {
    /// Time-critical tick that advances the display lane.
    Display,
    /// Background exploration tick that can be deferred under load.
    Exploration,
}

/// Memory space targeted by inspector debug commands.
#[derive(Clone, Copy, Debug, PartialEq, Eq, Structural)]
pub enum MemSpace {
    /// Video RAM (0x8000-0x9FFF).
    Vram,
    /// Work RAM (0xC000-0xDFFF).
    Wram,
    /// Object attribute memory (sprite table, 0xFE00-0xFE9F).
    Oam,
    /// I/O register window (0xFF00-0xFF7F).
    Io,
}

/// CPU register snapshot used by inspector view models.
#[derive(Clone, Copy, Debug, PartialEq, Eq, Structural)]
pub struct CpuVM {
    pub a: u8,
    pub f: u8,
    pub b: u8,
    pub c: u8,
    pub d: u8,
    pub e: u8,
    pub h: u8,
    pub l: u8,
    pub sp: u16,
    pub pc: u16,
    pub ime: bool,
    pub halted: bool,
}

/// PPU state snapshot exposed to inspector view models.
#[derive(Clone, Copy, Debug, PartialEq, Eq, Structural)]
pub struct PpuVM {
    pub ly: u8,
    pub mode: u8,
    pub stat: u8,
    pub lcdc: u8,
    pub scx: u8,
    pub scy: u8,
    pub wy: u8,
    pub wx: u8,
    pub bgp: u8,
    pub frame_ready: bool,
}

/// Timer registers snapshot exposed to inspector view models.
#[derive(Clone, Copy, Debug, PartialEq, Eq, Structural)]
pub struct TimersVM {
    pub div: u8,
    pub tima: u8,
    pub tma: u8,
    pub tac: u8,
}

/// Minimal inspector payload emitted with snapshots.
#[derive(Clone, Debug, PartialEq, Eq)]
pub struct InspectorVMMinimal {
    pub cpu: CpuVM,
    pub ppu: PpuVM,
    pub timers: TimersVM,
    pub io: Vec<u8>,
}

/// Execution step classification for debug stepping.
#[derive(Clone, Copy, Debug, PartialEq, Eq, Structural)]
pub enum StepKind {
    /// Exactly one CPU instruction executed.
    Instruction,
    /// Emulation advanced to the next frame boundary.
    Frame,
}

/// Trace information reported after stepping.
#[derive(Clone, Debug, PartialEq, Eq)]
pub struct TraceVM {
    pub last_pc: u16,
    pub disasm_line: String,
    pub cycles: u32,
}

/// Debug command variants routed to the kernel.
#[derive(Clone, Copy, Debug, PartialEq, Eq, Structural)]
pub enum DebugCmd {
    /// Capture a fresh snapshot of CPU/PPU/timer state.
    Snapshot { group: u16 },
    /// Fetch a memory window from the requested address space.
    MemWindow { group: u16, space: MemSpace, base: u16, len: u16 },
    /// Step a specific number of CPU instructions.
    StepInstruction { group: u16, count: u32 },
    /// Step exactly one frame worth of cycles.
    StepFrame { group: u16 },
}

/// Scheduler policy of a debug command: snapshots coalesce, everything else
/// is lossless.
pub open spec fn debug_policy(cmd: DebugCmd) -> SubmitPolicy {
    match cmd {
        DebugCmd::Snapshot { .. } => SubmitPolicy::Coalesce,
        _ => SubmitPolicy::Lossless,
    }
}

/// Number of reports a debug command produces: three for a frame step, one otherwise.
pub open spec fn debug_report_count(cmd: DebugCmd) -> nat {
    match cmd {
        DebugCmd::StepFrame { .. } => 3,
        _ => 1,
    }
}

/// Kernel group a debug command targets.
pub open spec fn debug_group(cmd: DebugCmd) -> u16 {
    match cmd {
        DebugCmd::Snapshot { group } => group,
        DebugCmd::MemWindow { group, .. } => group,
        DebugCmd::StepInstruction { group, .. } => group,
        DebugCmd::StepFrame { group } => group,
    }
}

impl DebugCmd {
    /// Returns the scheduler policy for this debug command.
    pub fn submit_policy(&self) -> (r: SubmitPolicy)
        ensures
            r == debug_policy(*self),
    {
        match self {
            DebugCmd::StepInstruction { .. } | DebugCmd::StepFrame { .. } => SubmitPolicy::Lossless,
            DebugCmd::Snapshot { .. } => SubmitPolicy::Coalesce,
            DebugCmd::MemWindow { .. } => SubmitPolicy::Lossless,
        }
    }

    /// Returns the expected number of reports produced by the command.
    pub fn expected_reports(&self) -> (r: usize)
        ensures
            r == debug_report_count(*self),
    {
        match self {
            DebugCmd::Snapshot { .. } => 1,
            DebugCmd::MemWindow { .. } => 1,
            DebugCmd::StepInstruction { .. } => 1,
            DebugCmd::StepFrame { .. } => 3,
        }
    }

    /// Returns the kernel group the command targets.
    pub fn group(&self) -> (r: u16)
        ensures
            r == debug_group(*self),
    {
        match self {
            DebugCmd::Snapshot { group } => *group,
            DebugCmd::MemWindow { group, .. } => *group,
            DebugCmd::StepInstruction { group, .. } => *group,
            DebugCmd::StepFrame { group } => *group,
        }
    }
}

/// Command directed at the kernel service.
#[derive(Clone, Debug, PartialEq, Eq)]
pub enum KernelCmd {
    /// Advance emulation for a group using the supplied cycle budget.
    Tick {
        /// Kernel group identifier.
        group: u16,
        /// Purpose of this tick, informing scheduling policy decisions.
        purpose: TickPurpose,
        /// Cycle budget granted to this tick.
        budget: u32,
    },
    /// Load ROM bytes into the specified group.
    LoadRom {
        /// Kernel group identifier.
        group: u16,
        /// ROM payload.
        bytes: Vec<u8>,
    },
    /// Update joypad inputs for a group.
    SetInputs {
        /// Kernel group identifier.
        group: u16,
        /// Bitmask indicating active lanes.
        lanes_mask: u32,
        /// Raw joypad state.
        joypad: u8,
    },
    /// Terminate a kernel group.
    Terminate {
        /// Kernel group identifier to terminate.
        group: u16,
    },
    /// Inspector/debug command routed to the kernel.
    Debug(DebugCmd),
}

/// Kernel report variants.
#[derive(Clone, Debug, PartialEq, Eq)]
pub enum KernelRep {
    /// Tick completed with the supplied purpose and lane mask.
    TickDone {
        /// Kernel group identifier.
        group: u16,
        /// Lanes that participated in the tick.
        lanes_mask: u32,
        /// Number of CPU cycles executed during the tick.
        cycles_done: u32,
    },
    /// A frame is ready for a lane.
    LaneFrame {
        /// Kernel group identifier.
        group: u16,
        /// Lane identifier associated with the frame.
        lane: u16,
        /// Contents of the frame.
        span: FrameSpan,
        /// Monotonically increasing frame identifier.
        frame_id: u64,
    },
    /// ROM loading completed for a group.
    RomLoaded {
        /// Kernel group identifier.
        group: u16,
        /// Size of the loaded ROM in bytes.
        bytes_len: usize,
    },
    /// Audio buffer ready for playback.
    AudioReady {
        /// Kernel group identifier.
        group: u16,
        /// Audio contents produced by the kernel.
        span: AudioSpan,
    },
    /// Thumbnail or debug data dropped due to pressure.
    DroppedThumb {
        /// Kernel group identifier.
        group: u16,
        /// Count of dropped thumbnails.
        count: u32,
    },
    /// Inspector/debug payload emitted by the kernel.
    Debug(DebugRep),
}

/// Debug report emitted by the kernel service.
#[derive(Clone, Debug, PartialEq, Eq)]
pub enum DebugRep {
    /// Snapshot payload carrying CPU/PPU/timer state.
    Snapshot(InspectorVMMinimal),
    /// Memory window bytes for a specific address space.
    MemWindow { space: MemSpace, base: u16, bytes: Vec<u8> },
    /// Result of a stepping command.
    Stepped { kind: StepKind, cycles: u32, pc: u16, disasm: Option<String> },
}

/// Command directed at the GPU service.
#[derive(Clone, Debug, PartialEq, Eq)]
pub enum GpuCmd {
    /// Upload a frame span for presentation.
    UploadFrame {
        /// Source lane that produced the frame.
        lane: u16,
        /// Frame contents.
        span: FrameSpan,
    },
}

/// GPU report variants.
#[derive(Clone, Copy, Debug, PartialEq, Eq, Structural)]
pub enum GpuRep {
    /// A frame reached the swap chain.
    FrameShown {
        /// Presented lane.
        lane: u16,
        /// Frame identifier that was completed.
        frame_id: u64,
    },
}

/// Command directed at the audio service.
#[derive(Clone, Debug, PartialEq, Eq)]
pub enum AudioCmd {
    /// Submit an audio span for playback.
    Submit {
        /// Audio buffer to submit.
        span: AudioSpan,
    },
}

/// Audio report variants.
#[derive(Clone, Copy, Debug, PartialEq, Eq, Structural)]
pub enum AudioRep {
    /// Audio buffer played successfully.
    Played {
        /// Number of frames consumed.
        frames: usize,
    },
    /// Audio underrun detected by the backend.
    Underrun,
}

/// Command directed at the filesystem service.
#[derive(Clone, Debug, PartialEq, Eq)]
pub enum FsCmd {
    /// Persist a payload to disk.
    Persist {
        /// Target path for the payload.
        path: String,
        /// Serialized payload bytes.
        bytes: Vec<u8>,
    },
}

/// Filesystem report variants.
#[derive(Clone, Debug, PartialEq, Eq)]
pub enum FsRep {
    /// Persistence operation completed.
    Saved {
        /// Path that was persisted.
        path: String,
        /// Whether the persistence succeeded.
        ok: bool,
    },
}

/// Mathematical model of a frame span.
#[verifier::ext_equal]
pub struct FrameSpanView {
    pub width: u16,
    pub height: u16,
    pub pixels: Seq<u8>,
    pub slot_span: Option<SlotSpan>,
}

impl View for FrameSpan {
    type V = FrameSpanView;

    open spec fn view(&self) -> FrameSpanView {
        FrameSpanView { width: self.width, height: self.height, pixels: self.pixels@, slot_span: self.slot_span }
    }
}

/// Mathematical model of an audio span.
#[verifier::ext_equal]
pub struct AudioSpanView {
    pub samples: Seq<i16>,
    pub channels: u8,
    pub sample_rate_hz: u32,
    pub slot_span: Option<SlotSpan>,
}

impl View for AudioSpan {
    type V = AudioSpanView;

    open spec fn view(&self) -> AudioSpanView {
        AudioSpanView {
            samples: self.samples@,
            channels: self.channels,
            sample_rate_hz: self.sample_rate_hz,
            slot_span: self.slot_span,
        }
    }
}

/// Mathematical model of a minimal inspector snapshot.
#[verifier::ext_equal]
pub struct SnapshotView {
    pub cpu: CpuVM,
    pub ppu: PpuVM,
    pub timers: TimersVM,
    pub io: Seq<u8>,
}

impl View for InspectorVMMinimal {
    type V = SnapshotView;

    open spec fn view(&self) -> SnapshotView {
        SnapshotView { cpu: self.cpu, ppu: self.ppu, timers: self.timers, io: self.io@ }
    }
}

/// Model of an optional text.
pub open spec fn text_view(t: Option<String>) -> Option<Seq<char>> {
    match t {
        Some(s) => Some(s@),
        None => None,
    }
}

/// Mathematical model of a debug report.
pub enum DebugRepView {
    Snapshot(SnapshotView),
    MemWindow { space: MemSpace, base: u16, bytes: Seq<u8> },
    Stepped { kind: StepKind, cycles: u32, pc: u16, disasm: Option<Seq<char>> },
}

impl View for DebugRep {
    type V = DebugRepView;

    open spec fn view(&self) -> DebugRepView {
        match *self {
            DebugRep::Snapshot(s) => DebugRepView::Snapshot(s@),
            DebugRep::MemWindow { space, base, bytes } => DebugRepView::MemWindow { space, base, bytes: bytes@ },
            DebugRep::Stepped { kind, cycles, pc, disasm } => DebugRepView::Stepped {
                kind,
                cycles,
                pc,
                disasm: text_view(disasm),
            },
        }
    }
}

/// Mathematical model of a kernel command.
pub enum KernelCmdView {
    Tick { group: u16, purpose: TickPurpose, budget: u32 },
    LoadRom { group: u16, bytes: Seq<u8> },
    SetInputs { group: u16, lanes_mask: u32, joypad: u8 },
    Terminate { group: u16 },
    Debug(DebugCmd),
}

impl View for KernelCmd {
    type V = KernelCmdView;

    open spec fn view(&self) -> KernelCmdView {
        match *self {
            KernelCmd::Tick { group, purpose, budget } => KernelCmdView::Tick { group, purpose, budget },
            KernelCmd::LoadRom { group, bytes } => KernelCmdView::LoadRom { group, bytes: bytes@ },
            KernelCmd::SetInputs { group, lanes_mask, joypad } => KernelCmdView::SetInputs { group, lanes_mask, joypad },
            KernelCmd::Terminate { group } => KernelCmdView::Terminate { group },
            KernelCmd::Debug(d) => KernelCmdView::Debug(d),
        }
    }
}

/// Mathematical model of a kernel report.
pub enum KernelRepView {
    TickDone { group: u16, lanes_mask: u32, cycles_done: u32 },
    LaneFrame { group: u16, lane: u16, span: FrameSpanView, frame_id: u64 },
    RomLoaded { group: u16, bytes_len: usize },
    AudioReady { group: u16, span: AudioSpanView },
    DroppedThumb { group: u16, count: u32 },
    Debug(DebugRepView),
}

impl View for KernelRep {
    type V = KernelRepView;

    open spec fn view(&self) -> KernelRepView {
        match *self {
            KernelRep::TickDone { group, lanes_mask, cycles_done } => KernelRepView::TickDone { group, lanes_mask, cycles_done },
            KernelRep::LaneFrame { group, lane, span, frame_id } => KernelRepView::LaneFrame {
                group,
                lane,
                span: span@,
                frame_id,
            },
            KernelRep::RomLoaded { group, bytes_len } => KernelRepView::RomLoaded { group, bytes_len },
            KernelRep::AudioReady { group, span } => KernelRepView::AudioReady { group, span: span@ },
            KernelRep::DroppedThumb { group, count } => KernelRepView::DroppedThumb { group, count },
            KernelRep::Debug(d) => KernelRepView::Debug(d@),
        }
    }
}

/// Mathematical model of a filesystem command.
pub struct FsCmdView {
    pub path: Seq<char>,
    pub bytes: Seq<u8>,
}

impl View for FsCmd {
    type V = FsCmdView;

    open spec fn view(&self) -> FsCmdView {
        match *self {
            FsCmd::Persist { path, bytes } => FsCmdView { path: path@, bytes: bytes@ },
        }
    }
}

/// Mathematical model of a filesystem report.
pub struct FsRepView {
    pub path: Seq<char>,
    pub ok: bool,
}

impl View for FsRep {
    type V = FsRepView;

    open spec fn view(&self) -> FsRepView {
        match *self {
            FsRep::Saved { path, ok } => FsRepView { path: path@, ok },
        }
    }
}

/// Copies a byte slice into a fresh vector.
pub(crate) fn copy_bytes(bytes: &[u8]) -> (r: Vec<u8>)
    ensures
        r@ == bytes@,
{
    let mut out: Vec<u8> = Vec::new();
    let mut i: usize = 0;
    while i < bytes.len()
        invariant
            i <= bytes@.len(),
            out@ == bytes@.subrange(0, i as int),
        decreases bytes@.len() - i,
    {
        out.push(bytes[i]);
        i = i + 1;
    }
    out
}

/// Copies an optional text.
pub(crate) fn copy_text(t: &Option<String>) -> (r: Option<String>)
    ensures
        text_view(r) == text_view(*t),
{
    match t {
        Some(s) => Some(s.clone()),
        None => None,
    }
}

} // verus!
