//! The kernel service: a farm of emulation instances keyed by group, how a
//! tick runs an instance and publishes its frames, how debug commands are
//! answered, and how commands are admitted to the report queue.
use vstd::prelude::*;
use std::collections::HashMap;
use crate::bus::{reset_memory_view, set_inputs_view, BusScalar, BusView};
use crate::cpu::cpu_power_on;
use crate::gb_core::{post_boot_view, power_on_view, Core, CoreConfig, CoreView, Model};
use crate::instance::{
    instance_bumped, instance_frame_ready, instance_load_rom, instance_render, instance_step,
    instance_step_instructions, mem_window_of, snapshot_of, Instance, InstanceView,
};
use crate::ppu_stub::{ppu_initial, CYCLES_PER_FRAME};
use crate::service_abi::{
    debug_policy, debug_report_count, DebugCmd, DebugRep, DebugRepView, FrameSpan, FrameSpanView, KernelCmd,
    KernelCmdView, KernelRep, KernelRepView, SnapshotView, StepKind, SubmitOutcome, SubmitPolicy, TickPurpose,
};
use crate::service_queue::{
    drain_queue, outcome_enqueues, submit_admits, submit_kept, submit_outcome, try_submit_queue, LocalQueue,
};
use crate::timers::timers_initial;

verus! {

broadcast use vstd::std_specs::hash::group_hash_axioms;

/// Report queue length of the kernel service by default.
pub const DEFAULT_KERNEL_CAPACITY: usize = 64;

/// Extra frames a tick runs, at most, looking for a frame boundary.
pub const EXTRA_FRAME_ATTEMPTS: usize = 32;

/// Width of published frames: the configured width, 160 where it is zero.
pub open spec fn sink_width(c: CoreConfig) -> u16 {
    if c.frame_width == 0 {
        160
    } else {
        c.frame_width
    }
}

/// Height of published frames: the configured height, 144 where it is zero.
pub open spec fn sink_height(c: CoreConfig) -> u16 {
    if c.frame_height == 0 {
        144
    } else {
        c.frame_height
    }
}

/// Bytes of a published RGBA frame.
pub open spec fn frame_bytes(c: CoreConfig) -> nat {
    (sink_width(c) * sink_height(c) * 4) as nat
}

/// A configuration whose frames hold a boot animation frame and fit in memory.
pub open spec fn config_fits(c: CoreConfig) -> bool {
    &&& sink_width(c) * sink_height(c) >= 160 * 144
    &&& frame_bytes(c) <= usize::MAX
}

/// Instance after publishing a frame for group `id`, and the frame report:
/// the frame is rendered into a zeroed buffer and gets the next frame identifier.
pub open spec fn publish_frame(i: InstanceView, id: u16, c: CoreConfig) -> (InstanceView, KernelRepView) {
    let (i1, px) = instance_render(i, Seq::new(frame_bytes(c), |k: int| 0u8));
    let i2 = instance_bumped(i1);
    (
        i2,
        KernelRepView::LaneFrame {
            group: id,
            lane: 0,
            span: FrameSpanView { width: sink_width(c), height: sink_height(c), pixels: px, slot_span: None },
            frame_id: i2.next_frame_id,
        },
    )
}

/// Extra frames run from attempt `attempt` on, looking for a frame boundary:
/// each runs a frame's worth of cycles; running stops when nothing runs, and
/// a frame is published at the first boundary reached.
pub open spec fn extra_frame_attempts(i: InstanceView, id: u16, c: CoreConfig, attempt: nat, cycles: u32) -> (
    InstanceView,
    Seq<KernelRepView>,
    u32,
)
    decreases 32 - attempt,
{
    if attempt >= 32 || i.boot is Some {
        (i, Seq::empty(), cycles)
    } else {
        let (i1, extra) = instance_step(i, CYCLES_PER_FRAME);
        if extra == 0 {
            (i1, Seq::empty(), cycles)
        } else {
            let c2 = ((cycles + extra) % 0x1_0000_0000) as u32;
            if instance_frame_ready(i1) {
                let (i2, rep) = publish_frame(i1, id, c);
                (i2, seq![rep], c2)
            } else {
                extra_frame_attempts(i1, id, c, attempt + 1, c2)
            }
        }
    }
}

/// One tick of group `id`: run the budget; publish a frame when one is ready
/// or the boot animation runs; otherwise run extra frames looking for a
/// boundary and then publish once more regardless; finally report the tick.
pub open spec fn tick_instance(i: InstanceView, id: u16, budget: u32, c: CoreConfig) -> (
    InstanceView,
    Seq<KernelRepView>,
    u32,
) {
    let (i1, cycles) = instance_step(i, budget);
    if instance_frame_ready(i1) || i1.boot is Some {
        let (i2, rep) = publish_frame(i1, id, c);
        (i2, seq![rep, KernelRepView::TickDone { group: id, lanes_mask: 1, cycles_done: cycles }], cycles)
    } else {
        let (i2, reps, cyc) = extra_frame_attempts(i1, id, c, 0, cycles);
        let (i3, rep) = publish_frame(i2, id, c);
        (i3, reps.push(rep).push(KernelRepView::TickDone { group: id, lanes_mask: 1, cycles_done: cyc }), cyc)
    }
}

/// Mathematical model of the farm.
#[verifier::ext_equal]
pub struct FarmView {
    pub instances: Map<u16, InstanceView>,
    pub config: CoreConfig,
    pub default_rom: Seq<u8>,
    pub boot_rom: Option<Seq<u8>>,
}

/// Bus of a freshly built instance.
pub open spec fn fresh_bus(rom: Seq<u8>, boot_rom: Option<Seq<u8>>) -> BusView {
    reset_memory_view(BusView { rom, boot_rom, serial_shift_reg: 0, ..BusScalar::new_view(rom) })
}

/// Instance the farm creates for a new group: the default cartridge, the
/// boot ROM when there is one (powered on into it) or the post-boot state.
pub open spec fn fresh_instance(f: FarmView) -> InstanceView {
    let c0 = CoreView {
        cpu: cpu_power_on(),
        bus: fresh_bus(f.default_rom, f.boot_rom),
        timers: timers_initial(),
        ppu: ppu_initial(),
        cycles_this_frame: 0,
        config: f.config,
        model: Model::Dmg,
    };
    let core = if f.boot_rom is Some {
        power_on_view(c0, Model::Dmg)
    } else {
        post_boot_view(c0, Model::Dmg)
    };
    InstanceView { core, next_frame_id: 0, joypad: 0xFF, boot: None }
}

/// The instance of group `id`, created on first use.
pub open spec fn farm_instance(f: FarmView, id: u16) -> InstanceView {
    if f.instances.contains_key(id) {
        f.instances[id]
    } else {
        fresh_instance(f)
    }
}

/// Farm with group `id` set to `i`.
pub open spec fn farm_with(f: FarmView, id: u16, i: InstanceView) -> FarmView {
    FarmView { instances: f.instances.insert(id, i), ..f }
}

/// Inspector snapshot report of a core.
pub open spec fn snapshot_report(c: CoreView) -> KernelRepView {
    let (cpu, ppu, timers, io) = snapshot_of(c);
    KernelRepView::Debug(DebugRepView::Snapshot(SnapshotView { cpu, ppu, timers, io }))
}

/// Farm after a debug command, and its reports.
pub open spec fn farm_debug(f: FarmView, cmd: DebugCmd) -> (FarmView, Seq<KernelRepView>) {
    match cmd {
        DebugCmd::Snapshot { group } => {
            let i = farm_instance(f, group);
            (farm_with(f, group, i), seq![snapshot_report(i.core)])
        },
        DebugCmd::MemWindow { group, space, base, len } => {
            let i = farm_instance(f, group);
            (
                farm_with(f, group, i),
                seq![KernelRepView::Debug(DebugRepView::MemWindow { space, base, bytes: mem_window_of(i.core, space, base, len) })],
            )
        },
        DebugCmd::StepInstruction { group, count } => {
            let (i, cycles, pc) = instance_step_instructions(farm_instance(f, group), count);
            (
                farm_with(f, group, i),
                seq![KernelRepView::Debug(DebugRepView::Stepped { kind: StepKind::Instruction, cycles, pc, disasm: None })],
            )
        },
        DebugCmd::StepFrame { group } => {
            let (i, reps, cycles) = tick_instance(farm_instance(f, group), group, CYCLES_PER_FRAME, f.config);
            (
                farm_with(f, group, i),
                reps.push(
                    KernelRepView::Debug(
                        DebugRepView::Stepped { kind: StepKind::Frame, cycles, pc: i.core.cpu.pc, disasm: None },
                    ),
                ),
            )
        },
    }
}

/// Farm after carrying out a kernel command, and its reports.
pub open spec fn farm_apply(f: FarmView, cmd: KernelCmdView) -> (FarmView, Seq<KernelRepView>) {
    match cmd {
        KernelCmdView::Tick { group, budget, .. } => {
            let (i, reps, _) = tick_instance(farm_instance(f, group), group, budget, f.config);
            (farm_with(f, group, i), reps)
        },
        KernelCmdView::LoadRom { group, bytes } => (
            farm_with(f, group, instance_load_rom(farm_instance(f, group), bytes)),
            seq![KernelRepView::RomLoaded { group, bytes_len: bytes.len() as usize }],
        ),
        KernelCmdView::SetInputs { group, joypad, .. } => if f.instances.contains_key(group) {
            let i = f.instances[group];
            (
                farm_with(
                    f,
                    group,
                    InstanceView { joypad, core: CoreView { bus: set_inputs_view(i.core.bus, joypad), ..i.core }, ..i },
                ),
                Seq::empty(),
            )
        } else {
            (f, Seq::empty())
        },
        KernelCmdView::Terminate { group } => (FarmView { instances: f.instances.remove(group), ..f }, Seq::empty()),
        KernelCmdView::Debug(d) => farm_debug(f, d),
    }
}

/// Reports as their models.
pub open spec fn reps_view(v: Seq<KernelRep>) -> Seq<KernelRepView> {
    Seq::new(v.len(), |k: int| v[k]@)
}

/// Allocates a zeroed buffer.
fn zeroed(n: usize) -> (r: Vec<u8>)
    ensures
        r@ == Seq::new(n as nat, |k: int| 0u8),
{
    let mut v: Vec<u8> = Vec::new();
    let mut k: usize = 0;
    while k < n
        invariant
            k <= n,
            v@ == Seq::new(k as nat, |j: int| 0u8),
        decreases n - k,
    {
        v.push(0);
        k = k + 1;
    }
    v
}

/// Renders a frame of `inst` into a fresh buffer, hands out its frame
/// identifier and appends the frame report for group `id`.
fn publish_lane_frames(id: u16, inst: &mut Instance, config: CoreConfig, out: &mut Vec<KernelRep>) -> (r: bool)
    requires
        old(inst).wf(),
        old(inst).core.config == config,
        config_fits(config),
    ensures
        r,
        final(inst).wf(),
        final(inst).core.config == config,
        ({
            let (i, rep) = publish_frame(old(inst)@, id, config);
            &&& final(inst)@ == i
            &&& reps_view(final(out)@) == reps_view(old(out)@).push(rep)
        }),
{
    let width: u16 = if config.frame_width == 0 { 160 } else { config.frame_width };
    let height: u16 = if config.frame_height == 0 { 144 } else { config.frame_height };
    let expected_len = width as usize * height as usize * 4;
    proof {
        assert(config.frame_width * config.frame_height <= width * height) by (nonlinear_arith)
            requires
                config.frame_width <= width,
                config.frame_height <= height,
        ;
    }
    let mut buf = zeroed(expected_len);
    inst.render_into(buf.as_mut_slice());
    let frame_id = inst.bump_frame_id();
    let rep = KernelRep::LaneFrame {
        group: id,
        lane: 0,
        span: FrameSpan { width, height, pixels: buf, slot_span: None },
        frame_id,
    };
    let ghost before = out@;
    out.push(rep);
    assert(reps_view(out@) =~= reps_view(before).push(rep@));
    true
}

/// Collection of emulation instances managed by the kernel service.
pub struct KernelFarm {
    instances: HashMap<u16, Instance>,
    core_config: CoreConfig,
    default_rom: Vec<u8>,
    boot_rom: Option<Vec<u8>>,
}

impl View for KernelFarm {
    type V = FarmView;

    closed spec fn view(&self) -> FarmView {
        FarmView {
            instances: self.instances@.map_values(|i: Instance| i@),
            config: self.core_config,
            default_rom: self.default_rom@,
            boot_rom: match self.boot_rom {
                Some(b) => Some(b@),
                None => None,
            },
        }
    }
}

impl KernelFarm {
    /// Well-formed farm: a configuration that fits, and well-formed instances
    /// built with it.
    pub closed spec fn wf(&self) -> bool {
        &&& config_fits(self.core_config)
        &&& forall|id: u16| #[trigger]
            self.instances@.contains_key(id) ==> self.instances@[id].wf() && self.instances@[id].core.config
                == self.core_config
    }

    /// Creates an empty farm whose instances start from a blank 32 KiB cartridge.
    pub fn new(core_config: CoreConfig) -> (r: Self)
        requires
            config_fits(core_config),
        ensures
            r.wf(),
            r@ == (FarmView {
                instances: Map::empty(),
                config: core_config,
                default_rom: Seq::new(0x8000, |k: int| 0u8),
                boot_rom: None,
            }),
    {
        let r = KernelFarm {
            instances: HashMap::new(),
            core_config,
            default_rom: zeroed(0x8000),
            boot_rom: None,
        };
        assert(r@.instances =~= Map::empty());
        r
    }

    /// Copies the default cartridge.
    fn default_rom_copy(&self) -> (r: Vec<u8>)
        ensures
            r@ == self.default_rom@,
    {
        crate::service_abi::copy_bytes(self.default_rom.as_slice())
    }

    /// Copies the boot ROM, if any.
    fn boot_rom_copy(&self) -> (r: Option<Vec<u8>>)
        ensures
            match r {
                Some(b) => self.boot_rom matches Some(o) && b@ == o@,
                None => self.boot_rom is None,
            },
    {
        match &self.boot_rom {
            Some(b) => Some(crate::service_abi::copy_bytes(b.as_slice())),
            None => None,
        }
    }

    /// Takes the instance of group `id` out of the farm, building it first
    /// when the group is new.
    fn take_instance(&mut self, id: u16) -> (r: Instance)
        requires
            old(self).wf(),
        ensures
            final(self).wf(),
            r.wf(),
            r.core.config == old(self)@.config,
            r@ == farm_instance(old(self)@, id),
            final(self)@ == (FarmView { instances: old(self)@.instances.remove(id), ..old(self)@ }),
    {
        match self.instances.remove(&id) {
            Some(inst) => {
                assert(self@.instances =~= old(self)@.instances.remove(id));
                inst
            },
            None => {
                let rom = self.default_rom_copy();
                let boot = self.boot_rom_copy();
                let has_boot = boot.is_some();
                let bus = BusScalar::new(rom, boot);
                assert(bus@ =~= fresh_bus(self@.default_rom, self@.boot_rom));
                let mut core = Core::new(bus, self.core_config, Model::Dmg);
                if has_boot {
                    core.reset_power_on(Model::Dmg);
                } else {
                    core.reset_post_boot(Model::Dmg);
                }
                let inst = Instance::new_scalar(core);
                assert(self@.instances =~= old(self)@.instances.remove(id));
                assert(inst@ =~= fresh_instance(old(self)@));
                inst
            },
        }
    }

    /// Puts an instance back under group `id`.
    fn put_instance(&mut self, id: u16, inst: Instance)
        requires
            old(self).wf(),
            inst.wf(),
            inst.core.config == old(self)@.config,
        ensures
            final(self).wf(),
            final(self)@ == farm_with(old(self)@, id, inst@),
    {
        self.instances.insert(id, inst);
        assert(self@.instances =~= old(self)@.instances.insert(id, inst@));
    }

    /// Runs group `id` for `budget` cycles and publishes its frames (see
    /// `tick_instance`); returns the cycles run.
    pub fn tick(&mut self, id: u16, budget: u32, out: &mut Vec<KernelRep>) -> (r: u32)
        requires
            old(self).wf(),
        ensures
            final(self).wf(),
            ({
                let (i, reps, cycles) = tick_instance(farm_instance(old(self)@, id), id, budget, old(self)@.config);
                &&& final(self)@ == farm_with(old(self)@, id, i)
                &&& reps_view(final(out)@) == reps_view(old(out)@) + reps
                &&& r == cycles
            }),
    {
        let ghost f0 = self@;
        let ghost out0 = reps_view(out@);
        let config = self.core_config;
        let mut inst = self.take_instance(id);
        let ghost i0 = inst@;
        let mut cycles = inst.step_cycles(budget);
        let ghost i1 = inst@;
        let ghost c1 = cycles;
        let mut published = false;
        if inst.frame_ready() || inst.boot_active() {
            published = publish_lane_frames(id, &mut inst, config, out);
        } else {
            let ghost target = extra_frame_attempts(i1, id, config, 0, c1);
            let mut attempt: usize = 0;
            let mut stop = false;
            while !stop && attempt < EXTRA_FRAME_ATTEMPTS && !inst.boot_active()
                invariant
                    attempt <= EXTRA_FRAME_ATTEMPTS,
                    inst.wf(),
                    inst.core.config == config,
                    config_fits(config),
                    !published,
                    out0.len() <= reps_view(out@).len(),
                    !stop ==> extra_frame_attempts(inst@, id, config, attempt as nat, cycles) == target
                        && reps_view(out@) == out0,
                    stop ==> (inst@, reps_view(out@).subrange(out0.len() as int, reps_view(out@).len() as int), cycles)
                        == target && out0 == reps_view(out@).subrange(0, out0.len() as int),
                decreases EXTRA_FRAME_ATTEMPTS - attempt, (if stop { 0int } else { 1int }),
            {
                let ghost before = inst@;
                let ghost c_before = cycles;
                let extra = inst.step_cycles(CYCLES_PER_FRAME);
                if extra == 0 {
                    stop = true;
                    assert(reps_view(out@).subrange(out0.len() as int, reps_view(out@).len() as int) =~= Seq::empty());
                    assert(out0 =~= reps_view(out@).subrange(0, out0.len() as int));
                } else {
                    cycles = cycles.wrapping_add(extra);
                    if inst.frame_ready() {
                        let ghost at_ready = inst@;
                        publish_lane_frames(id, &mut inst, config, out);
                        stop = true;
                        let ghost (pi, prep) = publish_frame(at_ready, id, config);
                        assert(reps_view(out@).subrange(out0.len() as int, reps_view(out@).len() as int) =~= seq![prep]);
                        assert(out0 =~= reps_view(out@).subrange(0, out0.len() as int));
                    } else {
                        attempt = attempt + 1;
                    }
                }
            }
            proof {
                if !stop {
                    assert(reps_view(out@).subrange(out0.len() as int, reps_view(out@).len() as int) =~= Seq::empty());
                    assert(out0 =~= reps_view(out@).subrange(0, out0.len() as int));
                }
                let m = reps_view(out@);
                assert(m =~= m.subrange(0, out0.len() as int) + m.subrange(out0.len() as int, m.len() as int));
                assert(inst@ == target.0 && cycles == target.2);
                assert(m == out0 + target.1);
            }
            publish_lane_frames(id, &mut inst, config, out);
        }
        let ghost before_done = reps_view(out@);
        out.push(KernelRep::TickDone { group: id, lanes_mask: 1, cycles_done: cycles });
        proof {
            assert(reps_view(out@) =~= before_done.push(KernelRepView::TickDone { group: id, lanes_mask: 1, cycles_done: cycles }));
        }
        self.put_instance(id, inst);
        cycles
    }

    /// Loads a cartridge into group `id` (created on first use); returns its length.
    pub fn load_rom(&mut self, id: u16, rom: Vec<u8>) -> (r: usize)
        requires
            old(self).wf(),
        ensures
            final(self).wf(),
            r == rom@.len(),
            final(self)@ == farm_with(old(self)@, id, instance_load_rom(farm_instance(old(self)@, id), rom@)),
    {
        let len = rom.len();
        let mut inst = self.take_instance(id);
        inst.load_rom(rom);
        self.put_instance(id, inst);
        len
    }

    /// Applies joypad inputs to group `id` if it exists.
    pub fn set_inputs(&mut self, id: u16, joypad: u8)
        requires
            old(self).wf(),
        ensures
            final(self).wf(),
            final(self)@ == farm_apply(old(self)@, KernelCmdView::SetInputs { group: id, lanes_mask: 0, joypad }).0,
    {
        if self.instances.contains_key(&id) {
            let mut inst = self.take_instance(id);
            inst.set_inputs(joypad);
            self.put_instance(id, inst);
        }
    }

    /// Drops group `id`.
    pub fn terminate(&mut self, id: u16)
        requires
            old(self).wf(),
        ensures
            final(self).wf(),
            final(self)@ == (FarmView { instances: old(self)@.instances.remove(id), ..old(self)@ }),
    {
        self.instances.remove(&id);
        assert(self@.instances =~= old(self)@.instances.remove(id));
    }

    /// Program counter of group `id`, 0 for an unknown group.
    fn group_pc(&self, id: u16) -> (r: u16)
        ensures
            r == if self@.instances.contains_key(id) { self@.instances[id].core.cpu.pc } else { 0 },
    {
        match self.instances.get(&id) {
            Some(inst) => inst.pc(),
            None => 0,
        }
    }

    /// Answers a debug command, appending its reports (see `farm_debug`).
    #[verifier::rlimit(60)]
    pub fn handle_debug(&mut self, cmd: &DebugCmd, out: &mut Vec<KernelRep>)
        requires
            old(self).wf(),
        ensures
            final(self).wf(),
            final(self)@ == farm_debug(old(self)@, *cmd).0,
            reps_view(final(out)@) == reps_view(old(out)@) + farm_debug(old(self)@, *cmd).1,
    {
        let ghost before = reps_view(out@);
        match cmd {
            DebugCmd::Snapshot { group } => {
                let inst = self.take_instance(*group);
                let snapshot = inst.inspector_snapshot();
                let rep = KernelRep::Debug(DebugRep::Snapshot(snapshot));
                out.push(rep);
                assert(rep@ == snapshot_report(inst.core@));
                self.put_instance(*group, inst);
            },
            DebugCmd::MemWindow { group, space, base, len } => {
                let inst = self.take_instance(*group);
                let bytes = inst.mem_window(*space, *base, *len);
                out.push(KernelRep::Debug(DebugRep::MemWindow { space: *space, base: *base, bytes }));
                self.put_instance(*group, inst);
            },
            DebugCmd::StepInstruction { group, count } => {
                let mut inst = self.take_instance(*group);
                let (cycles, pc) = inst.step_instructions(*count);
                out.push(KernelRep::Debug(DebugRep::Stepped { kind: StepKind::Instruction, cycles, pc, disasm: None }));
                self.put_instance(*group, inst);
            },
            DebugCmd::StepFrame { group } => {
                let mut intermediate: Vec<KernelRep> = Vec::new();
                let cycles = self.tick(*group, CYCLES_PER_FRAME, &mut intermediate);
                let pc = self.group_pc(*group);
                out.append(&mut intermediate);
                out.push(KernelRep::Debug(DebugRep::Stepped { kind: StepKind::Frame, cycles, pc, disasm: None }));
            },
        }
        assert(reps_view(out@) =~= before + farm_debug(old(self)@, *cmd).1);
    }
}

/// Reports a kernel command is expected to produce (for queue admission).
pub open spec fn kernel_reports_for(cmd: KernelCmdView) -> nat {
    match cmd {
        KernelCmdView::Tick { .. } => 2,
        KernelCmdView::LoadRom { .. } => 1,
        KernelCmdView::SetInputs { .. } => 0,
        KernelCmdView::Terminate { .. } => 0,
        KernelCmdView::Debug(d) => debug_report_count(d),
    }
}

/// Scheduler policy of a kernel command.
pub open spec fn kernel_submit_policy(cmd: KernelCmdView) -> SubmitPolicy {
    match cmd {
        KernelCmdView::Tick { purpose, .. } => match purpose {
            TickPurpose::Display => SubmitPolicy::Coalesce,
            TickPurpose::Exploration => SubmitPolicy::BestEffort,
        },
        KernelCmdView::Debug(d) => debug_policy(d),
        _ => SubmitPolicy::Lossless,
    }
}

/// Kernel service: the farm behind a bounded report queue.
pub struct KernelService {
    reports: LocalQueue<KernelRep>,
    capacity: usize,
    farm: KernelFarm,
}

/// Mathematical model of the kernel service.
pub struct KernelServiceView {
    pub queued: Seq<KernelRepView>,
    pub capacity: nat,
    pub farm: FarmView,
}

/// Effect of submitting a command to the kernel service: when the queue
/// admits the command's expected reports under its policy, the farm carries
/// it out and its reports join what the policy keeps of the queue; otherwise
/// the farm is untouched.
pub open spec fn kernel_submitted(
    old: KernelServiceView,
    new: KernelServiceView,
    cmd: KernelCmdView,
    r: SubmitOutcome,
) -> bool {
    let policy = kernel_submit_policy(cmd);
    let needed = kernel_reports_for(cmd) as int;
    let kept = submit_kept(old.queued, old.capacity as int, policy, needed);
    &&& r == submit_outcome(old.queued.len() as int, old.capacity as int, policy, needed)
    &&& new.capacity == old.capacity
    &&& outcome_enqueues(r) ==> {
        let (f, reps) = farm_apply(old.farm, cmd);
        &&& new.farm == f
        &&& new.queued == kept + reps
    }
    &&& !outcome_enqueues(r) ==> {
        &&& new.farm == old.farm
        &&& new.queued == kept
    }
}

impl View for KernelService {
    type V = KernelServiceView;

    closed spec fn view(&self) -> KernelServiceView {
        KernelServiceView { queued: reps_view(self.reports@), capacity: self.capacity as nat, farm: self.farm@ }
    }
}

impl KernelService {
    /// Well-formed service: a well-formed farm.
    pub closed spec fn wf(&self) -> bool {
        self.farm.wf()
    }

    /// Builds a service whose queue holds `capacity` reports.
    pub fn with_capacity(capacity: usize, core_config: CoreConfig) -> (r: Self)
        requires
            config_fits(core_config),
        ensures
            r.wf(),
            r@.queued == Seq::<KernelRepView>::empty(),
            r@.capacity == capacity,
            r@.farm.instances == Map::<u16, InstanceView>::empty(),
            r@.farm.config == core_config,
    {
        let r = KernelService { reports: LocalQueue::with_capacity(capacity), capacity, farm: KernelFarm::new(core_config) };
        assert(r@.queued =~= Seq::empty());
        r
    }

    /// Builds a service with the default queue length and a custom core configuration.
    pub fn new_with_config(core_config: CoreConfig) -> (r: Self)
        requires
            config_fits(core_config),
        ensures
            r.wf(),
            r@.queued == Seq::<KernelRepView>::empty(),
            r@.capacity == DEFAULT_KERNEL_CAPACITY,
            r@.farm.instances == Map::<u16, InstanceView>::empty(),
            r@.farm.config == core_config,
    {
        Self::with_capacity(DEFAULT_KERNEL_CAPACITY, core_config)
    }

    /// Reports a command is expected to produce.
    pub fn reports_for(cmd: &KernelCmd) -> (r: usize)
        ensures
            r == kernel_reports_for(cmd@),
    {
        match cmd {
            KernelCmd::Tick { .. } => 2,
            KernelCmd::LoadRom { .. } => 1,
            KernelCmd::SetInputs { .. } => 0,
            KernelCmd::Terminate { .. } => 0,
            KernelCmd::Debug(debug) => debug.expected_reports(),
        }
    }

    /// Scheduler policy of a command.
    pub fn submit_policy(cmd: &KernelCmd) -> (r: SubmitPolicy)
        ensures
            r == kernel_submit_policy(cmd@),
    {
        match cmd {
            KernelCmd::Tick { purpose, .. } => match purpose {
                TickPurpose::Display => SubmitPolicy::Coalesce,
                TickPurpose::Exploration => SubmitPolicy::BestEffort,
            },
            KernelCmd::LoadRom { .. } => SubmitPolicy::Lossless,
            KernelCmd::SetInputs { .. } => SubmitPolicy::Lossless,
            KernelCmd::Terminate { .. } => SubmitPolicy::Lossless,
            KernelCmd::Debug(debug) => debug.submit_policy(),
        }
    }

    /// Carries out a command on the farm and returns its reports.
    #[verifier::rlimit(60)]
    fn materialise_reports(&mut self, cmd: &KernelCmd) -> (r: Vec<KernelRep>)
        requires
            old(self).wf(),
        ensures
            final(self).wf(),
            final(self).reports@ == old(self).reports@,
            final(self).capacity == old(self).capacity,
            final(self).farm@ == farm_apply(old(self).farm@, cmd@).0,
            reps_view(r@) == farm_apply(old(self).farm@, cmd@).1,
    {
        let mut out: Vec<KernelRep> = Vec::new();
        match cmd {
            KernelCmd::Tick { group, budget, .. } => {
                self.farm.tick(*group, *budget, &mut out);
            },
            KernelCmd::LoadRom { group, bytes } => {
                let copy = crate::service_abi::copy_bytes(bytes.as_slice());
                let len = self.farm.load_rom(*group, copy);
                out.push(KernelRep::RomLoaded { group: *group, bytes_len: len });
            },
            KernelCmd::SetInputs { group, joypad, .. } => {
                self.farm.set_inputs(*group, *joypad);
            },
            KernelCmd::Terminate { group } => {
                self.farm.terminate(*group);
            },
            KernelCmd::Debug(debug) => {
                self.farm.handle_debug(debug, &mut out);
            },
        }
        assert(reps_view(out@) =~= farm_apply(old(self).farm@, cmd@).1);
        out
    }

    /// Submits a command: when the queue admits its expected reports under
    /// the command's policy, the farm carries it out and its reports are
    /// queued; otherwise the farm is untouched.
    pub fn try_submit(&mut self, cmd: &KernelCmd) -> (r: SubmitOutcome)
        requires
            old(self).wf(),
            old(self)@.queued.len() + 3 <= usize::MAX,
        ensures
            final(self).wf(),
            kernel_submitted(old(self)@, final(self)@, cmd@, r),
    {
        let policy = Self::submit_policy(cmd);
        let needed = Self::reports_for(cmd);
        let admitted = submit_admits(self.reports.len(), self.capacity, policy, needed);
        let reps = if admitted { self.materialise_reports(cmd) } else { Vec::new() };
        let ghost made = reps;
        let ghost q0 = self.reports@;
        let make = move || -> (v: Vec<KernelRep>)
            ensures
                v == made,
            {
                reps
            };
        let r = try_submit_queue(&mut self.reports, self.capacity, policy, needed, make);
        proof {
            let kept = submit_kept(q0, self.capacity as int, policy, needed as int);
            if outcome_enqueues(r) {
                let v = choose|v: Vec<KernelRep>| call_ensures(make, (), v) && self.reports@ == kept + v@;
                assert(reps_view(self.reports@) =~= reps_view(kept) + reps_view(made@));
                assert(reps_view(kept) =~= submit_kept(reps_view(q0), self.capacity as int, policy, needed as int));
            } else {
                assert(reps_view(self.reports@) =~= submit_kept(reps_view(q0), self.capacity as int, policy, needed as int));
            }
        }
        r
    }

    /// Number of reports waiting to be drained.
    pub fn pending(&self) -> (r: usize)
        requires
            self.wf(),
        ensures
            r == self@.queued.len(),
    {
        self.reports.len()
    }

    /// Drains up to `max` reports, oldest first.
    pub fn drain(&mut self, max: usize) -> (r: Vec<KernelRep>)
        requires
            old(self).wf(),
        ensures
            final(self).wf(),
            reps_view(r@) == old(self)@.queued.subrange(
                0,
                if max < old(self)@.queued.len() { max as int } else { old(self)@.queued.len() as int },
            ),
            final(self)@.queued == old(self)@.queued.subrange(
                if max < old(self)@.queued.len() { max as int } else { old(self)@.queued.len() as int },
                old(self)@.queued.len() as int,
            ),
            final(self)@.farm == old(self)@.farm,
            final(self)@.capacity == old(self)@.capacity,
    {
        let r = drain_queue(&mut self.reports, max);
        assert(reps_view(r@) =~= old(self)@.queued.subrange(
            0,
            if max < old(self)@.queued.len() { max as int } else { old(self)@.queued.len() as int },
        ));
        r
    }
}

impl Default for KernelService {
    fn default() -> (r: Self)
        ensures
            r.wf(),
            r@.queued == Seq::<KernelRepView>::empty(),
            r@.capacity == DEFAULT_KERNEL_CAPACITY,
    {
        let config = CoreConfig { frame_width: 160, frame_height: 144 };
        Self::with_capacity(DEFAULT_KERNEL_CAPACITY, config)
    }
}

} // verus!
