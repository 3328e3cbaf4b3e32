//! World-level message and policy types shared by frontends, the scheduler
//! and the services, with the inspector state kept by the world.
use vstd::prelude::*;
use crate::inspector_vm::{debug_rep_applied, inspector_initial, InspectorVM, InspectorView, PortMetricsVM, PerfVM, TransportVM};
use crate::inspector_vm::zero_metrics;
use crate::service_abi::{
    debug_policy, AudioCmd, AudioRep, DebugCmd, DebugRep, FsCmd, FsRep, GpuCmd, GpuRep, KernelCmd,
    KernelRep, MemSpace, SubmitPolicy, TickPurpose,
};

verus! {

/// Aggregated performance counters.
#[derive(Debug, Clone, Copy, PartialEq, Eq, Structural)]
pub struct WorldPerf {
    /// Monotonic frame identifier for the display lane.
    pub last_frame_id: u64,
    /// Accumulated audio underruns observed.
    pub audio_underruns: u64,
}

impl Default for WorldPerf {
    fn default() -> (r: Self)
        ensures
            r.last_frame_id == 0 && r.audio_underruns == 0,
    {
        WorldPerf { last_frame_id: 0, audio_underruns: 0 }
    }
}

/// Health flags tracked across frames.
#[derive(Debug, Clone, Copy, PartialEq, Eq, Structural)]
pub struct WorldHealth {
    /// Whether the GPU backend signalled sustained backpressure.
    pub gpu_blocked: bool,
    /// Whether any service reported persistent backpressure.
    pub service_pressure: bool,
}

impl Default for WorldHealth {
    fn default() -> (r: Self)
        ensures
            !r.gpu_blocked && !r.service_pressure,
    {
        WorldHealth { gpu_blocked: false, service_pressure: false }
    }
}

/// Priority level for intent scheduling (P0 is highest).
#[derive(Clone, Copy, Debug, PartialEq, Eq, Structural)]
pub enum IntentPriority {
    /// Highest priority, reserved for latency-critical actions.
    P0,
    /// Medium priority for frame progression and UI-affecting intents.
    P1,
    /// Lowest priority for maintenance or background intents.
    P2,
}

/// Work command routed through the scheduler during phase A.
#[derive(Clone, Debug, PartialEq, Eq)]
pub enum WorkCmd {
    /// Command that targets the kernel service.
    Kernel(KernelCmd),
    /// Command that targets the filesystem service.
    Fs(FsCmd),
}

/// Default submission policy of a work command: display ticks coalesce,
/// exploration ticks are best effort, filesystem writes coalesce, debug
/// commands follow their own policy and every other kernel command is lossless.
pub open spec fn work_policy(cmd: WorkCmd) -> SubmitPolicy {
    match cmd {
        WorkCmd::Kernel(KernelCmd::Tick { purpose, .. }) => match purpose {
            TickPurpose::Display => SubmitPolicy::Coalesce,
            TickPurpose::Exploration => SubmitPolicy::BestEffort,
        },
        WorkCmd::Kernel(KernelCmd::Debug(d)) => debug_policy(d),
        WorkCmd::Kernel(_) => SubmitPolicy::Lossless,
        WorkCmd::Fs(_) => SubmitPolicy::Coalesce,
    }
}

impl WorkCmd {
    /// Default submission policy for this command.
    pub fn default_policy(&self) -> (r: SubmitPolicy)
        ensures
            r == work_policy(*self),
    {
        match self {
            WorkCmd::Kernel(KernelCmd::Tick { purpose, .. }) => match purpose {
                TickPurpose::Display => SubmitPolicy::Coalesce,
                TickPurpose::Exploration => SubmitPolicy::BestEffort,
            },
            WorkCmd::Kernel(KernelCmd::LoadRom { .. }) => SubmitPolicy::Lossless,
            WorkCmd::Kernel(KernelCmd::SetInputs { .. }) => SubmitPolicy::Lossless,
            WorkCmd::Kernel(KernelCmd::Terminate { .. }) => SubmitPolicy::Lossless,
            WorkCmd::Kernel(KernelCmd::Debug(cmd)) => cmd.submit_policy(),
            WorkCmd::Fs(FsCmd::Persist { .. }) => SubmitPolicy::Coalesce,
        }
    }
}

/// Immediate audio/video command produced during report reduction.
#[derive(Clone, Debug, PartialEq, Eq)]
pub enum AvCmd {
    /// GPU-bound command.
    Gpu(GpuCmd),
    /// Audio-bound command.
    Audio(AudioCmd),
}

/// Default submission policy of an AV command: audio and frames of the
/// displayed lane must go through, frames of other lanes are best effort.
pub open spec fn av_policy(cmd: AvCmd, display_lane: u16) -> SubmitPolicy {
    match cmd {
        AvCmd::Gpu(GpuCmd::UploadFrame { lane, .. }) => if lane == display_lane {
            SubmitPolicy::Must
        } else {
            SubmitPolicy::BestEffort
        },
        AvCmd::Audio(_) => SubmitPolicy::Must,
    }
}

impl AvCmd {
    /// Default submission policy for this AV command.
    pub fn default_policy(&self, display_lane: u16) -> (r: SubmitPolicy)
        ensures
            r == av_policy(*self, display_lane),
    {
        match self {
            AvCmd::Gpu(GpuCmd::UploadFrame { lane, .. }) => {
                if *lane == display_lane {
                    SubmitPolicy::Must
                } else {
                    SubmitPolicy::BestEffort
                }
            },
            AvCmd::Audio(_) => SubmitPolicy::Must,
        }
    }
}

/// Report emitted by backend services during phase B.
#[derive(Clone, Debug, PartialEq, Eq)]
pub enum Report {
    /// Kernel-originated report.
    Kernel(KernelRep),
    /// GPU-originated report.
    Gpu(GpuRep),
    /// Audio-originated report.
    Audio(AudioRep),
    /// Filesystem-originated report.
    Fs(FsRep),
}

/// State container for the inspector view-model.
#[derive(Clone, Debug, PartialEq, Eq)]
pub struct InspectorState {
    /// Latest inspector view-model snapshot.
    pub vm: InspectorVM,
    /// Transport metrics for the kernel service endpoint.
    pub transport_kernel: PortMetricsVM,
    /// Transport metrics for the filesystem endpoint.
    pub transport_fs: PortMetricsVM,
    /// Transport metrics for the GPU endpoint.
    pub transport_gpu: PortMetricsVM,
    /// Transport metrics for the audio endpoint.
    pub transport_audio: PortMetricsVM,
}

/// Mathematical model of the inspector state.
#[verifier::ext_equal]
pub struct InspectorStateView {
    pub vm: InspectorView,
    pub transport_kernel: PortMetricsVM,
    pub transport_fs: PortMetricsVM,
    pub transport_gpu: PortMetricsVM,
    pub transport_audio: PortMetricsVM,
}

impl View for InspectorState {
    type V = InspectorStateView;

    open spec fn view(&self) -> InspectorStateView {
        InspectorStateView {
            vm: self.vm@,
            transport_kernel: self.transport_kernel,
            transport_fs: self.transport_fs,
            transport_gpu: self.transport_gpu,
            transport_audio: self.transport_audio,
        }
    }
}

/// A fresh inspector state: zeroed view-model and counters.
pub open spec fn inspector_state_initial() -> InspectorStateView {
    InspectorStateView {
        vm: inspector_initial(),
        transport_kernel: zero_metrics(),
        transport_fs: zero_metrics(),
        transport_gpu: zero_metrics(),
        transport_audio: zero_metrics(),
    }
}

impl Default for InspectorState {
    fn default() -> (r: Self)
        ensures
            r@ == inspector_state_initial(),
    {
        InspectorState {
            vm: InspectorVM::default(),
            transport_kernel: PortMetricsVM::default(),
            transport_fs: PortMetricsVM::default(),
            transport_gpu: PortMetricsVM::default(),
            transport_audio: PortMetricsVM::default(),
        }
    }
}

impl InspectorState {
    /// Construct a fresh inspector state.
    pub fn new() -> (r: Self)
        ensures
            r@ == inspector_state_initial(),
    {
        Self::default()
    }

    /// Apply a debug report to the underlying view-model.
    pub fn apply_debug_rep(&mut self, rep: &DebugRep)
        requires
            rep matches DebugRep::MemWindow { bytes, .. } ==> bytes@.len() + 0x100 <= usize::MAX,
        ensures
            final(self)@ == (InspectorStateView { vm: debug_rep_applied(old(self)@.vm, *rep), ..old(self)@ }),
    {
        self.vm.apply_debug_rep(rep);
    }

    /// Synchronize world performance counters into the inspector view.
    pub fn sync_perf(&mut self, perf: &WorldPerf)
        ensures
            final(self)@ == (InspectorStateView {
                vm: InspectorView {
                    perf: PerfVM { last_frame_id: perf.last_frame_id, audio_underruns: perf.audio_underruns },
                    ..old(self)@.vm
                },
                ..old(self)@
            }),
    {
        self.vm.perf.last_frame_id = perf.last_frame_id;
        self.vm.perf.audio_underruns = perf.audio_underruns;
    }

    /// Update kernel transport metrics in the inspector view.
    pub fn update_transport_kernel(&mut self, metrics: PortMetricsVM)
        ensures
            final(self)@ == (InspectorStateView {
                vm: InspectorView { transport: TransportVM { kernel: metrics, ..old(self)@.vm.transport }, ..old(self)@.vm },
                transport_kernel: metrics,
                ..old(self)@
            }),
    {
        self.transport_kernel = metrics;
        self.vm.transport.kernel = metrics;
    }

    /// Update filesystem transport metrics in the inspector view.
    pub fn update_transport_fs(&mut self, metrics: PortMetricsVM)
        ensures
            final(self)@ == (InspectorStateView {
                vm: InspectorView { transport: TransportVM { fs: metrics, ..old(self)@.vm.transport }, ..old(self)@.vm },
                transport_fs: metrics,
                ..old(self)@
            }),
    {
        self.transport_fs = metrics;
        self.vm.transport.fs = metrics;
    }

    /// Update GPU transport metrics in the inspector view.
    pub fn update_transport_gpu(&mut self, metrics: PortMetricsVM)
        ensures
            final(self)@ == (InspectorStateView {
                vm: InspectorView { transport: TransportVM { gpu: metrics, ..old(self)@.vm.transport }, ..old(self)@.vm },
                transport_gpu: metrics,
                ..old(self)@
            }),
    {
        self.transport_gpu = metrics;
        self.vm.transport.gpu = metrics;
    }

    /// Update audio transport metrics in the inspector view.
    pub fn update_transport_audio(&mut self, metrics: PortMetricsVM)
        ensures
            final(self)@ == (InspectorStateView {
                vm: InspectorView { transport: TransportVM { audio: metrics, ..old(self)@.vm.transport }, ..old(self)@.vm },
                transport_audio: metrics,
                ..old(self)@
            }),
    {
        self.transport_audio = metrics;
        self.vm.transport.audio = metrics;
    }

    /// Borrow the underlying inspector view-model.
    pub fn vm(&self) -> (r: &InspectorVM)
        ensures
            r@ == self.vm@,
    {
        &self.vm
    }
}

/// The world state that reports act on: pause flag, displayed lane, frame
/// pumping, ROM load tracking, counters, health and the inspector. (The
/// emulation speed, a floating-point multiplier, is kept by the front end.)
#[derive(Clone, Debug, PartialEq, Eq)]
pub struct WorldState {
    /// Whether the emulator loop is paused.
    pub paused: bool,
    /// Which lane is presented to the user.
    pub display_lane: u16,
    /// Whether the scheduler should enqueue pump intents.
    pub auto_pump: bool,
    /// Whether a ROM has been loaded since boot.
    pub rom_loaded: bool,
    /// Number of ROM load events observed.
    pub rom_events: usize,
    /// Performance counters.
    pub perf: WorldPerf,
    /// Health flags.
    pub health: WorldHealth,
    /// Inspector view-model state.
    pub inspector: InspectorState,
}

/// Model of the world state.
#[verifier::ext_equal]
pub struct WorldStateView {
    pub paused: bool,
    pub display_lane: u16,
    pub auto_pump: bool,
    pub rom_loaded: bool,
    pub rom_events: usize,
    pub perf: WorldPerf,
    pub health: WorldHealth,
    pub inspector: InspectorStateView,
}

impl View for WorldState {
    type V = WorldStateView;

    open spec fn view(&self) -> WorldStateView {
        WorldStateView {
            paused: self.paused,
            display_lane: self.display_lane,
            auto_pump: self.auto_pump,
            rom_loaded: self.rom_loaded,
            rom_events: self.rom_events,
            perf: self.perf,
            health: self.health,
            inspector: self.inspector@,
        }
    }
}

/// Follow-up actions of a report: audio/video commands to submit at once,
/// and whether a `PumpFrame` intent at priority `P1` is deferred to the next
/// frame.
#[derive(Clone, Debug, PartialEq, Eq)]
pub struct ReportFollowUps {
    /// Commands to submit immediately.
    pub immediate_av: Vec<AvCmd>,
    /// Whether a frame pump is deferred to the next frame.
    pub deferred_pump: bool,
}

/// `n + 1`, saturating at the type's maximum.
pub open spec fn saturating_inc(n: u64) -> u64 {
    if n == u64::MAX {
        n
    } else {
        (n + 1) as u64
    }
}

/// The world in its initial state: running, lane 0 shown, pumping on, no
/// ROM, zero counters, fresh inspector.
pub open spec fn world_initial() -> WorldStateView {
    WorldStateView {
        paused: false,
        display_lane: 0,
        auto_pump: true,
        rom_loaded: false,
        rom_events: 0,
        perf: WorldPerf { last_frame_id: 0, audio_underruns: 0 },
        health: WorldHealth { gpu_blocked: false, service_pressure: false },
        inspector: inspector_state_initial(),
    }
}

/// The inspector with the world's counters copied in.
pub open spec fn perf_synced(i: InspectorStateView, perf: WorldPerf) -> InspectorStateView {
    InspectorStateView {
        vm: InspectorView {
            perf: PerfVM { last_frame_id: perf.last_frame_id, audio_underruns: perf.audio_underruns },
            ..i.vm
        },
        ..i
    }
}

/// World after a report: a lane frame records its identifier, a loaded ROM
/// is counted, a debug report reaches the inspector, an audio underrun is
/// counted; then the inspector takes the counters over.
pub open spec fn report_reduced(w: WorldStateView, report: Report) -> WorldStateView {
    let w1 = match report {
        Report::Kernel(KernelRep::LaneFrame { frame_id, .. }) => WorldStateView {
            perf: WorldPerf { last_frame_id: frame_id, ..w.perf },
            ..w
        },
        Report::Kernel(KernelRep::RomLoaded { .. }) => WorldStateView {
            rom_loaded: true,
            rom_events: if w.rom_events == usize::MAX {
                w.rom_events
            } else {
                (w.rom_events + 1) as usize
            },
            ..w
        },
        Report::Kernel(KernelRep::Debug(d)) => WorldStateView {
            inspector: InspectorStateView { vm: debug_rep_applied(w.inspector.vm, d), ..w.inspector },
            ..w
        },
        Report::Audio(AudioRep::Underrun) => WorldStateView {
            perf: WorldPerf { audio_underruns: saturating_inc(w.perf.audio_underruns), ..w.perf },
            ..w
        },
        _ => w,
    };
    WorldStateView { inspector: perf_synced(w1.inspector, w1.perf), ..w1 }
}

/// Commands a report asks for at once: the frame of the displayed lane goes
/// to the GPU.
pub open spec fn report_immediate_av(w: WorldStateView, report: Report) -> Seq<AvCmd> {
    match report {
        Report::Kernel(KernelRep::LaneFrame { lane, span, .. }) => if lane == w.display_lane {
            seq![AvCmd::Gpu(GpuCmd::UploadFrame { lane, span })]
        } else {
            Seq::empty()
        },
        _ => Seq::empty(),
    }
}

/// Whether a report defers a frame pump: a finished tick does while
/// automatic pumping is on.
pub open spec fn report_defers_pump(w: WorldStateView, report: Report) -> bool {
    report matches Report::Kernel(KernelRep::TickDone { .. }) && w.auto_pump
}

impl WorldState {
    /// A world in its initial state.
    pub fn new() -> (r: Self)
        ensures
            r@ == world_initial(),
    {
        WorldState {
            paused: false,
            display_lane: 0,
            auto_pump: true,
            rom_loaded: false,
            rom_events: 0,
            perf: WorldPerf::default(),
            health: WorldHealth::default(),
            inspector: InspectorState::new(),
        }
    }

    /// The work command for a display tick.
    pub fn display_tick(&self, group: u16, budget: u32) -> (r: WorkCmd)
        ensures
            r == WorkCmd::Kernel(KernelCmd::Tick { group, purpose: TickPurpose::Display, budget }),
    {
        WorkCmd::Kernel(KernelCmd::Tick { group, purpose: TickPurpose::Display, budget })
    }

    /// Enables or disables automatic frame pumping.
    pub fn set_auto_pump(&mut self, enabled: bool)
        ensures
            final(self)@ == (WorldStateView { auto_pump: enabled, ..old(self)@ }),
    {
        self.auto_pump = enabled;
    }

    /// Whether a ROM has been loaded since boot.
    pub fn rom_loaded(&self) -> (r: bool)
        ensures
            r == self.rom_loaded,
    {
        self.rom_loaded
    }

    /// Number of ROM load events processed.
    pub fn rom_events(&self) -> (r: usize)
        ensures
            r == self.rom_events,
    {
        self.rom_events
    }

    /// The most recent frame identifier recorded.
    pub fn frame_id(&self) -> (r: u64)
        ensures
            r == self.perf.last_frame_id,
    {
        self.perf.last_frame_id
    }

    /// Records a presented frame.
    pub fn record_present(&mut self, frame_id: u64)
        ensures
            final(self)@ == (WorldStateView {
                perf: WorldPerf { last_frame_id: frame_id, ..old(self)@.perf },
                ..old(self)@
            }),
    {
        self.perf.last_frame_id = frame_id;
    }

    /// Records an audio underrun.
    pub fn record_audio_underrun(&mut self)
        ensures
            final(self)@ == (WorldStateView {
                perf: WorldPerf { audio_underruns: saturating_inc(old(self)@.perf.audio_underruns), ..old(self)@.perf },
                ..old(self)@
            }),
    {
        self.perf.audio_underruns = self.perf.audio_underruns.saturating_add(1);
    }

    /// Processes a report and returns its follow-up actions.
    pub fn reduce_report(&mut self, report: Report) -> (r: ReportFollowUps)
        requires
            report matches Report::Kernel(KernelRep::Debug(DebugRep::MemWindow { bytes, .. })) ==> bytes@.len()
                + 0x100 <= usize::MAX,
        ensures
            final(self)@ == report_reduced(old(self)@, report),
            r.immediate_av@ == report_immediate_av(old(self)@, report),
            r.deferred_pump == report_defers_pump(old(self)@, report),
    {
        let ghost w0 = self@;
        let ghost rep = report;
        let mut immediate_av: Vec<AvCmd> = Vec::new();
        let mut deferred_pump = false;
        match report {
            Report::Kernel(kernel_report) => match kernel_report {
                KernelRep::LaneFrame { lane, span, frame_id, .. } => {
                    if lane == self.display_lane {
                        immediate_av.push(AvCmd::Gpu(GpuCmd::UploadFrame { lane, span }));
                    }
                    self.record_present(frame_id);
                },
                KernelRep::TickDone { .. } => {
                    if self.auto_pump {
                        deferred_pump = true;
                    }
                },
                KernelRep::RomLoaded { .. } => {
                    self.rom_loaded = true;
                    self.rom_events = self.rom_events.saturating_add(1);
                },
                KernelRep::Debug(debug) => {
                    self.inspector.apply_debug_rep(&debug);
                },
                _ => {},
            },
            Report::Audio(audio_report) => match audio_report {
                AudioRep::Underrun => {
                    self.record_audio_underrun();
                },
                AudioRep::Played { .. } => {},
            },
            Report::Gpu(_) | Report::Fs(_) => {},
        }
        let perf = self.perf;
        self.inspector.sync_perf(&perf);
        proof {
            assert(immediate_av@ =~= report_immediate_av(w0, rep));
        }
        ReportFollowUps { immediate_av, deferred_pump }
    }
}

impl Default for WorldState {
    fn default() -> (r: Self)
        ensures
            r@ == world_initial(),
    {
        WorldState::new()
    }
}

/// Group that display ticks target.
pub const DISPLAY_GROUP: u16 = 0;

/// Intent emitted by frontends, reducers or deferred follow-ups, except the
/// speed change, whose multiplier is a float kept by the front end.
#[derive(Clone, Debug, PartialEq, Eq)]
pub enum Intent {
    /// Advance the emulation loop by (at most) one frame.
    PumpFrame,
    /// Toggle the emulation pause flag.
    TogglePause,
    /// Load ROM bytes into a kernel group.
    LoadRom { group: u16, bytes: Vec<u8> },
    /// Apply joypad inputs to a kernel group.
    SetInputs { group: u16, joypad: u8 },
    /// Select which display lane should be presented.
    SelectDisplayLane(u16),
    /// Request a debug snapshot for the given kernel group.
    DebugSnapshot(u16),
    /// Request a memory window from the kernel.
    DebugMem { group: u16, space: MemSpace, base: u16, len: u16 },
    /// Step a number of CPU instructions.
    DebugStepInstruction { group: u16, count: u32 },
    /// Step the kernel forward by exactly one frame.
    DebugStepFrame(u16),
}

/// Scheduler priority of an intent: pause, ROM loads, inputs and stepping
/// are urgent, frame pumps, lane selection and inspection come next.
pub open spec fn intent_priority(i: Intent) -> IntentPriority {
    match i {
        Intent::PumpFrame => IntentPriority::P1,
        Intent::TogglePause => IntentPriority::P0,
        Intent::LoadRom { .. } => IntentPriority::P0,
        Intent::SetInputs { .. } => IntentPriority::P0,
        Intent::SelectDisplayLane(_) => IntentPriority::P1,
        Intent::DebugSnapshot(_) => IntentPriority::P1,
        Intent::DebugMem { .. } => IntentPriority::P1,
        Intent::DebugStepInstruction { .. } => IntentPriority::P0,
        Intent::DebugStepFrame(_) => IntentPriority::P0,
    }
}

impl Intent {
    /// Scheduler priority of this intent.
    pub fn priority(&self) -> (r: IntentPriority)
        ensures
            r == intent_priority(*self),
    {
        match self {
            Intent::PumpFrame => IntentPriority::P1,
            Intent::TogglePause => IntentPriority::P0,
            Intent::LoadRom { .. } => IntentPriority::P0,
            Intent::SetInputs { .. } => IntentPriority::P0,
            Intent::SelectDisplayLane(_) => IntentPriority::P1,
            Intent::DebugSnapshot(_) => IntentPriority::P1,
            Intent::DebugMem { .. } => IntentPriority::P1,
            Intent::DebugStepInstruction { .. } => IntentPriority::P0,
            Intent::DebugStepFrame(_) => IntentPriority::P0,
        }
    }
}

/// Work commands an intent turns into, `display_budget` being the cycle
/// budget of one display frame at the current speed: a pump is a display
/// tick of group 0, loads, inputs (to every lane) and debug requests go to
/// the kernel, and the stateful intents emit nothing.
pub open spec fn intent_commands(i: Intent, display_budget: u32) -> Seq<WorkCmd> {
    match i {
        Intent::PumpFrame => seq![
            WorkCmd::Kernel(
                KernelCmd::Tick { group: DISPLAY_GROUP, purpose: TickPurpose::Display, budget: display_budget },
            ),
        ],
        Intent::LoadRom { group, bytes } => seq![WorkCmd::Kernel(KernelCmd::LoadRom { group, bytes })],
        Intent::SetInputs { group, joypad } => seq![
            WorkCmd::Kernel(KernelCmd::SetInputs { group, lanes_mask: 0xFFFF_FFFF, joypad }),
        ],
        Intent::DebugSnapshot(group) => seq![WorkCmd::Kernel(KernelCmd::Debug(DebugCmd::Snapshot { group }))],
        Intent::DebugMem { group, space, base, len } => seq![
            WorkCmd::Kernel(KernelCmd::Debug(DebugCmd::MemWindow { group, space, base, len })),
        ],
        Intent::DebugStepInstruction { group, count } => seq![
            WorkCmd::Kernel(KernelCmd::Debug(DebugCmd::StepInstruction { group, count })),
        ],
        Intent::DebugStepFrame(group) => seq![WorkCmd::Kernel(KernelCmd::Debug(DebugCmd::StepFrame { group }))],
        Intent::TogglePause | Intent::SelectDisplayLane(_) => Seq::empty(),
    }
}

/// World after an intent: pausing toggles, lane selection switches the
/// displayed lane, every other intent leaves the world as it is.
pub open spec fn intent_applied(w: WorldStateView, i: Intent) -> WorldStateView {
    match i {
        Intent::TogglePause => WorldStateView { paused: !w.paused, ..w },
        Intent::SelectDisplayLane(lane) => WorldStateView { display_lane: lane, ..w },
        _ => w,
    }
}

impl WorldState {
    /// Reduces an intent into zero or more work commands, `display_budget`
    /// being the cycle budget of one display frame at the current speed.
    pub fn reduce_intent(&mut self, intent: Intent, display_budget: u32) -> (r: Vec<WorkCmd>)
        ensures
            final(self)@ == intent_applied(old(self)@, intent),
            r@ == intent_commands(intent, display_budget),
    {
        let ghost i0 = intent;
        let mut out: Vec<WorkCmd> = Vec::new();
        match intent {
            Intent::PumpFrame => {
                out.push(
                    WorkCmd::Kernel(
                        KernelCmd::Tick { group: DISPLAY_GROUP, purpose: TickPurpose::Display, budget: display_budget },
                    ),
                );
            },
            Intent::LoadRom { group, bytes } => {
                out.push(WorkCmd::Kernel(KernelCmd::LoadRom { group, bytes }));
            },
            Intent::TogglePause => {
                self.paused = !self.paused;
            },
            Intent::SelectDisplayLane(lane) => {
                self.display_lane = lane;
            },
            Intent::SetInputs { group, joypad } => {
                out.push(WorkCmd::Kernel(KernelCmd::SetInputs { group, lanes_mask: 0xFFFF_FFFF, joypad }));
            },
            Intent::DebugSnapshot(group) => {
                out.push(WorkCmd::Kernel(KernelCmd::Debug(DebugCmd::Snapshot { group })));
            },
            Intent::DebugMem { group, space, base, len } => {
                out.push(WorkCmd::Kernel(KernelCmd::Debug(DebugCmd::MemWindow { group, space, base, len })));
            },
            Intent::DebugStepInstruction { group, count } => {
                out.push(WorkCmd::Kernel(KernelCmd::Debug(DebugCmd::StepInstruction { group, count })));
            },
            Intent::DebugStepFrame(group) => {
                out.push(WorkCmd::Kernel(KernelCmd::Debug(DebugCmd::StepFrame { group })));
            },
        }
        proof {
            assert(out@ =~= intent_commands(i0, display_budget));
        }
        out
    }
}

} // verus!
