//! Codecs between the service messages and their version-1 wire schema:
//! which port class carries each message, which envelope tags it, and how
//! each field crosses the wire.
use vstd::prelude::*;
use crate::schema::{
    AudioCmdV1, AudioRepV1, Encoded, Envelope, FsCmdV1, FsCmdV1View, FsPersistCmdV1, FsRepV1, FsRepV1View,
    GpuCmdV1, GpuRepV1, KernelCmdV1, KernelCmdV1View, KernelDebugCmdV1, KernelDebugMemSpaceV1,
    KernelDebugCpuVmV1, KernelDebugPpuVmV1, KernelDebugRepV1, KernelDebugRepV1View, KernelDebugSnapshotV1,
    KernelDebugStepKindV1, KernelDebugTimersVmV1,
    KernelLoadRomCmdV1, KernelRepV1, KernelRepV1View, KernelSetInputsCmdV1, KernelTerminateCmdV1,
    KernelTickCmdV1, PortClass, SlotSpanV1, TickPurposeV1, SCHEMA_VERSION_V1, TAG_AUDIO_CMD,
    TAG_AUDIO_REP, TAG_FS_CMD, TAG_FS_REP, TAG_GPU_CMD, TAG_GPU_REP, TAG_KERNEL_CMD, TAG_KERNEL_REP,
};
use crate::service_abi::{
    copy_bytes, copy_text, debug_policy, AudioCmd, CpuVM, PpuVM, TimersVM, AudioRep, AudioSpan, AudioSpanView,
    DebugCmd, DebugRep, DebugRepView, FrameSpan, FrameSpanView, FsCmd, FsCmdView, FsRep, FsRepView,
    GpuCmd, GpuRep, InspectorVMMinimal, KernelCmd, KernelCmdView, KernelRep, KernelRepView, MemSpace,
    SlotSpan, SnapshotView, StepKind, SubmitPolicy, TickPurpose,
};

verus! {

/// Why a message could not be encoded or decoded.
#[derive(Clone, Copy, Debug, PartialEq, Eq, Structural)]
pub enum CodecError {
    /// The envelope carries another message kind.
    UnexpectedTag { tag: u8, expected: u8 },
    /// The envelope carries another schema version.
    VersionMismatch { ver: u8, expected: u8 },
    /// The message has no wire form.
    Unsupported,
}

/// Outcome of checking an envelope against the expected tag: the tag is
/// checked first, then the schema version.
pub open spec fn tag_check(envelope: Envelope, expected: u8) -> Result<(), CodecError> {
    if envelope.tag != expected {
        Err(CodecError::UnexpectedTag { tag: envelope.tag, expected })
    } else if envelope.ver != SCHEMA_VERSION_V1 {
        Err(CodecError::VersionMismatch { ver: envelope.ver, expected: SCHEMA_VERSION_V1 })
    } else {
        Ok(())
    }
}

/// Checks that an envelope carries the expected tag and schema version 1.
pub fn ensure_tag(envelope: Envelope, expected: u8) -> (r: Result<(), CodecError>)
    ensures
        r == tag_check(envelope, expected),
{
    if envelope.tag != expected {
        return Err(CodecError::UnexpectedTag { tag: envelope.tag, expected });
    }
    if envelope.ver != SCHEMA_VERSION_V1 {
        return Err(CodecError::VersionMismatch { ver: envelope.ver, expected: SCHEMA_VERSION_V1 });
    }
    Ok(())
}

/// Port class for a scheduler policy: must and lossless traffic share the
/// lossless ring.
pub open spec fn policy_class(policy: SubmitPolicy) -> PortClass {
    match policy {
        SubmitPolicy::Must | SubmitPolicy::Lossless => PortClass::Lossless,
        SubmitPolicy::Coalesce => PortClass::Coalesce,
        SubmitPolicy::BestEffort => PortClass::BestEffort,
    }
}

/// Port class carrying a kernel command.
pub open spec fn kernel_cmd_class(cmd: KernelCmdView) -> PortClass {
    match cmd {
        KernelCmdView::Tick { purpose, .. } => match purpose {
            TickPurpose::Display => PortClass::Coalesce,
            TickPurpose::Exploration => PortClass::BestEffort,
        },
        KernelCmdView::Debug(d) => policy_class(debug_policy(d)),
        _ => PortClass::Lossless,
    }
}

pub open spec fn purpose_to_v1(p: TickPurpose) -> TickPurposeV1 {
    match p {
        TickPurpose::Display => TickPurposeV1::Display,
        TickPurpose::Exploration => TickPurposeV1::Exploration,
    }
}

pub open spec fn purpose_from_v1(p: TickPurposeV1) -> TickPurpose {
    match p {
        TickPurposeV1::Display => TickPurpose::Display,
        TickPurposeV1::Exploration => TickPurpose::Exploration,
    }
}

pub open spec fn space_to_v1(s: MemSpace) -> KernelDebugMemSpaceV1 {
    match s {
        MemSpace::Vram => KernelDebugMemSpaceV1::Vram,
        MemSpace::Wram => KernelDebugMemSpaceV1::Wram,
        MemSpace::Oam => KernelDebugMemSpaceV1::Oam,
        MemSpace::Io => KernelDebugMemSpaceV1::Io,
    }
}

pub open spec fn space_from_v1(s: KernelDebugMemSpaceV1) -> MemSpace {
    match s {
        KernelDebugMemSpaceV1::Vram => MemSpace::Vram,
        KernelDebugMemSpaceV1::Wram => MemSpace::Wram,
        KernelDebugMemSpaceV1::Oam => MemSpace::Oam,
        KernelDebugMemSpaceV1::Io => MemSpace::Io,
    }
}

pub open spec fn step_kind_to_v1(k: StepKind) -> KernelDebugStepKindV1 {
    match k {
        StepKind::Instruction => KernelDebugStepKindV1::Instruction,
        StepKind::Frame => KernelDebugStepKindV1::Frame,
    }
}

pub open spec fn step_kind_from_v1(k: KernelDebugStepKindV1) -> StepKind {
    match k {
        KernelDebugStepKindV1::Instruction => StepKind::Instruction,
        KernelDebugStepKindV1::Frame => StepKind::Frame,
    }
}

/// Wire form of a debug command.
pub open spec fn debug_cmd_to_v1(c: DebugCmd) -> KernelDebugCmdV1 {
    match c {
        DebugCmd::Snapshot { group } => KernelDebugCmdV1::Snapshot { group },
        DebugCmd::MemWindow { group, space, base, len } => KernelDebugCmdV1::MemWindow {
            group,
            space: space_to_v1(space),
            base,
            len,
        },
        DebugCmd::StepInstruction { group, count } => KernelDebugCmdV1::StepInstruction { group, count },
        DebugCmd::StepFrame { group } => KernelDebugCmdV1::StepFrame { group },
    }
}

/// Debug command read from the wire.
pub open spec fn debug_cmd_from_v1(c: KernelDebugCmdV1) -> DebugCmd {
    match c {
        KernelDebugCmdV1::Snapshot { group } => DebugCmd::Snapshot { group },
        KernelDebugCmdV1::MemWindow { group, space, base, len } => DebugCmd::MemWindow {
            group,
            space: space_from_v1(space),
            base,
            len,
        },
        KernelDebugCmdV1::StepInstruction { group, count } => DebugCmd::StepInstruction { group, count },
        KernelDebugCmdV1::StepFrame { group } => DebugCmd::StepFrame { group },
    }
}

/// Wire form of a kernel command (tick and ROM-load groups are not carried).
pub open spec fn kernel_cmd_to_v1(c: KernelCmdView) -> KernelCmdV1View {
    match c {
        KernelCmdView::Tick { purpose, budget, .. } => KernelCmdV1View::Tick(
            KernelTickCmdV1 { purpose: purpose_to_v1(purpose), budget },
        ),
        KernelCmdView::LoadRom { bytes, .. } => KernelCmdV1View::LoadRom(bytes),
        KernelCmdView::SetInputs { group, lanes_mask, joypad } => KernelCmdV1View::SetInputs(
            KernelSetInputsCmdV1 { group, lanes_mask, joypad },
        ),
        KernelCmdView::Terminate { group } => KernelCmdV1View::Terminate(KernelTerminateCmdV1 { group }),
        KernelCmdView::Debug(d) => KernelCmdV1View::Debug(debug_cmd_to_v1(d)),
    }
}

/// Kernel command read from the wire (ticks and ROM loads address group 0).
pub open spec fn kernel_cmd_from_v1(w: KernelCmdV1View) -> KernelCmdView {
    match w {
        KernelCmdV1View::Tick(t) => KernelCmdView::Tick { group: 0, purpose: purpose_from_v1(t.purpose), budget: t.budget },
        KernelCmdV1View::LoadRom(bytes) => KernelCmdView::LoadRom { group: 0, bytes },
        KernelCmdV1View::SetInputs(s) => KernelCmdView::SetInputs {
            group: s.group,
            lanes_mask: s.lanes_mask,
            joypad: s.joypad,
        },
        KernelCmdV1View::Terminate(t) => KernelCmdView::Terminate { group: t.group },
        KernelCmdV1View::Debug(d) => KernelCmdView::Debug(debug_cmd_from_v1(d)),
    }
}

/// Wire form of an optional slot span (absent spans travel as zero slots).
pub open spec fn slot_to_v1(s: Option<SlotSpan>) -> SlotSpanV1 {
    match s {
        Some(slot) => SlotSpanV1 { start_idx: slot.start_idx, count: slot.count },
        None => SlotSpanV1 { start_idx: 0, count: 0 },
    }
}

/// Slot span read from the wire (zero slots mean none).
pub open spec fn slot_from_v1(s: SlotSpanV1) -> Option<SlotSpan> {
    if s.count == 0 {
        None
    } else {
        Some(SlotSpan { start_idx: s.start_idx, count: s.count })
    }
}

/// CPU registers in wire form (field for field).
pub open spec fn cpu_to_v1(c: CpuVM) -> KernelDebugCpuVmV1 {
    KernelDebugCpuVmV1 {
        a: c.a,
        f: c.f,
        b: c.b,
        c: c.c,
        d: c.d,
        e: c.e,
        h: c.h,
        l: c.l,
        sp: c.sp,
        pc: c.pc,
        ime: c.ime,
        halted: c.halted,
    }
}

/// CPU registers read from the wire (field for field).
pub open spec fn cpu_from_v1(c: KernelDebugCpuVmV1) -> CpuVM {
    CpuVM {
        a: c.a,
        f: c.f,
        b: c.b,
        c: c.c,
        d: c.d,
        e: c.e,
        h: c.h,
        l: c.l,
        sp: c.sp,
        pc: c.pc,
        ime: c.ime,
        halted: c.halted,
    }
}

/// PPU registers in wire form (field for field).
pub open spec fn ppu_to_v1(p: PpuVM) -> KernelDebugPpuVmV1 {
    KernelDebugPpuVmV1 {
        ly: p.ly,
        mode: p.mode,
        stat: p.stat,
        lcdc: p.lcdc,
        scx: p.scx,
        scy: p.scy,
        wy: p.wy,
        wx: p.wx,
        bgp: p.bgp,
        frame_ready: p.frame_ready,
    }
}

/// PPU registers read from the wire (field for field).
pub open spec fn ppu_from_v1(p: KernelDebugPpuVmV1) -> PpuVM {
    PpuVM {
        ly: p.ly,
        mode: p.mode,
        stat: p.stat,
        lcdc: p.lcdc,
        scx: p.scx,
        scy: p.scy,
        wy: p.wy,
        wx: p.wx,
        bgp: p.bgp,
        frame_ready: p.frame_ready,
    }
}

/// Timer registers in wire form (field for field).
pub open spec fn timers_to_v1(t: TimersVM) -> KernelDebugTimersVmV1 {
    KernelDebugTimersVmV1 { div: t.div, tima: t.tima, tma: t.tma, tac: t.tac }
}

/// Timer registers read from the wire (field for field).
pub open spec fn timers_from_v1(t: KernelDebugTimersVmV1) -> TimersVM {
    TimersVM { div: t.div, tima: t.tima, tma: t.tma, tac: t.tac }
}

/// Wire form of a debug report.
pub open spec fn debug_rep_to_v1(r: DebugRepView) -> KernelDebugRepV1View {
    match r {
        DebugRepView::Snapshot(s) => KernelDebugRepV1View::Snapshot {
            cpu: cpu_to_v1(s.cpu),
            ppu: ppu_to_v1(s.ppu),
            timers: timers_to_v1(s.timers),
            io: s.io,
        },
        DebugRepView::MemWindow { space, base, bytes } => KernelDebugRepV1View::MemWindow {
            space: space_to_v1(space),
            base,
            bytes,
        },
        DebugRepView::Stepped { kind, cycles, pc, disasm } => KernelDebugRepV1View::Stepped {
            kind: step_kind_to_v1(kind),
            cycles,
            pc,
            disasm,
        },
    }
}

/// Debug report read from the wire.
pub open spec fn debug_rep_from_v1(w: KernelDebugRepV1View) -> DebugRepView {
    match w {
        KernelDebugRepV1View::Snapshot { cpu, ppu, timers, io } => DebugRepView::Snapshot(
            SnapshotView {
                cpu: cpu_from_v1(cpu),
                ppu: ppu_from_v1(ppu),
                timers: timers_from_v1(timers),
                io,
            },
        ),
        KernelDebugRepV1View::MemWindow { space, base, bytes } => DebugRepView::MemWindow {
            space: space_from_v1(space),
            base,
            bytes,
        },
        KernelDebugRepV1View::Stepped { kind, cycles, pc, disasm } => DebugRepView::Stepped {
            kind: step_kind_from_v1(kind),
            cycles,
            pc,
            disasm,
        },
    }
}

/// Port class and wire form of a kernel report; thumbnails have none.
pub open spec fn kernel_rep_to_v1(r: KernelRepView) -> Option<(PortClass, KernelRepV1View)> {
    match r {
        KernelRepView::TickDone { .. } => Some(
            (PortClass::Lossless, KernelRepV1View::TickDone { purpose: TickPurposeV1::Display, budget: 0 }),
        ),
        KernelRepView::LaneFrame { lane, span, frame_id, .. } => Some(
            (
                PortClass::Lossless,
                KernelRepV1View::LaneFrame { lane, frame_id, span: slot_to_v1(span.slot_span), pixels: span.pixels },
            ),
        ),
        KernelRepView::RomLoaded { bytes_len, .. } => Some(
            (PortClass::Lossless, KernelRepV1View::RomLoaded { bytes_len: bytes_len as u32 }),
        ),
        KernelRepView::AudioReady { group, span } => Some(
            (PortClass::Lossless, KernelRepV1View::AudioReady { group, span: slot_to_v1(span.slot_span) }),
        ),
        KernelRepView::DroppedThumb { .. } => None,
        KernelRepView::Debug(d) => Some(
            (
                match d {
                    DebugRepView::Snapshot(_) => PortClass::Coalesce,
                    _ => PortClass::Lossless,
                },
                KernelRepV1View::Debug(debug_rep_to_v1(d)),
            ),
        ),
    }
}

/// The empty stereo 48 kHz audio span with the given slots.
pub open spec fn empty_audio(slot_span: Option<SlotSpan>) -> AudioSpanView {
    AudioSpanView { samples: Seq::empty(), channels: 2, sample_rate_hz: 48_000, slot_span }
}

/// Kernel report read from the wire: group 0, frames of 160×144 pixels,
/// tick and audio details reset.
pub open spec fn kernel_rep_from_v1(w: KernelRepV1View) -> KernelRepView {
    match w {
        KernelRepV1View::TickDone { .. } => KernelRepView::TickDone { group: 0, lanes_mask: 0, cycles_done: 0 },
        KernelRepV1View::LaneFrame { lane, frame_id, span, pixels } => KernelRepView::LaneFrame {
            group: 0,
            lane,
            span: FrameSpanView { width: 160, height: 144, pixels, slot_span: slot_from_v1(span) },
            frame_id,
        },
        KernelRepV1View::RomLoaded { bytes_len } => KernelRepView::RomLoaded { group: 0, bytes_len: bytes_len as usize },
        KernelRepV1View::AudioReady { group, span } => KernelRepView::AudioReady {
            group,
            span: empty_audio(slot_from_v1(span)),
        },
        KernelRepV1View::Debug(d) => KernelRepView::Debug(debug_rep_from_v1(d)),
    }
}

fn encode_purpose(p: TickPurpose) -> (r: TickPurposeV1)
    ensures
        r == purpose_to_v1(p),
{
    match p {
        TickPurpose::Display => TickPurposeV1::Display,
        TickPurpose::Exploration => TickPurposeV1::Exploration,
    }
}

fn decode_purpose(p: TickPurposeV1) -> (r: TickPurpose)
    ensures
        r == purpose_from_v1(p),
{
    match p {
        TickPurposeV1::Display => TickPurpose::Display,
        TickPurposeV1::Exploration => TickPurpose::Exploration,
    }
}

fn encode_mem_space(space: MemSpace) -> (r: KernelDebugMemSpaceV1)
    ensures
        r == space_to_v1(space),
{
    match space {
        MemSpace::Vram => KernelDebugMemSpaceV1::Vram,
        MemSpace::Wram => KernelDebugMemSpaceV1::Wram,
        MemSpace::Oam => KernelDebugMemSpaceV1::Oam,
        MemSpace::Io => KernelDebugMemSpaceV1::Io,
    }
}

fn decode_mem_space(space: KernelDebugMemSpaceV1) -> (r: MemSpace)
    ensures
        r == space_from_v1(space),
{
    match space {
        KernelDebugMemSpaceV1::Vram => MemSpace::Vram,
        KernelDebugMemSpaceV1::Wram => MemSpace::Wram,
        KernelDebugMemSpaceV1::Oam => MemSpace::Oam,
        KernelDebugMemSpaceV1::Io => MemSpace::Io,
    }
}

fn encode_step_kind(kind: StepKind) -> (r: KernelDebugStepKindV1)
    ensures
        r == step_kind_to_v1(kind),
{
    match kind {
        StepKind::Instruction => KernelDebugStepKindV1::Instruction,
        StepKind::Frame => KernelDebugStepKindV1::Frame,
    }
}

fn decode_step_kind(kind: KernelDebugStepKindV1) -> (r: StepKind)
    ensures
        r == step_kind_from_v1(kind),
{
    match kind {
        KernelDebugStepKindV1::Instruction => StepKind::Instruction,
        KernelDebugStepKindV1::Frame => StepKind::Frame,
    }
}

fn encode_debug_cmd(cmd: &DebugCmd) -> (r: KernelDebugCmdV1)
    ensures
        r == debug_cmd_to_v1(*cmd),
{
    match cmd {
        DebugCmd::Snapshot { group } => KernelDebugCmdV1::Snapshot { group: *group },
        DebugCmd::MemWindow { group, space, base, len } => KernelDebugCmdV1::MemWindow {
            group: *group,
            space: encode_mem_space(*space),
            base: *base,
            len: *len,
        },
        DebugCmd::StepInstruction { group, count } => KernelDebugCmdV1::StepInstruction { group: *group, count: *count },
        DebugCmd::StepFrame { group } => KernelDebugCmdV1::StepFrame { group: *group },
    }
}

fn decode_debug_cmd(cmd: &KernelDebugCmdV1) -> (r: DebugCmd)
    ensures
        r == debug_cmd_from_v1(*cmd),
{
    match cmd {
        KernelDebugCmdV1::Snapshot { group } => DebugCmd::Snapshot { group: *group },
        KernelDebugCmdV1::MemWindow { group, space, base, len } => DebugCmd::MemWindow {
            group: *group,
            space: decode_mem_space(*space),
            base: *base,
            len: *len,
        },
        KernelDebugCmdV1::StepInstruction { group, count } => DebugCmd::StepInstruction { group: *group, count: *count },
        KernelDebugCmdV1::StepFrame { group } => DebugCmd::StepFrame { group: *group },
    }
}

fn encode_cpu(cpu: &CpuVM) -> (r: KernelDebugCpuVmV1)
    ensures
        r == cpu_to_v1(*cpu),
{
    KernelDebugCpuVmV1 {
        a: cpu.a,
        f: cpu.f,
        b: cpu.b,
        c: cpu.c,
        d: cpu.d,
        e: cpu.e,
        h: cpu.h,
        l: cpu.l,
        sp: cpu.sp,
        pc: cpu.pc,
        ime: cpu.ime,
        halted: cpu.halted,
    }
}

fn decode_cpu(cpu: &KernelDebugCpuVmV1) -> (r: CpuVM)
    ensures
        r == cpu_from_v1(*cpu),
{
    CpuVM {
        a: cpu.a,
        f: cpu.f,
        b: cpu.b,
        c: cpu.c,
        d: cpu.d,
        e: cpu.e,
        h: cpu.h,
        l: cpu.l,
        sp: cpu.sp,
        pc: cpu.pc,
        ime: cpu.ime,
        halted: cpu.halted,
    }
}

fn encode_ppu(ppu: &PpuVM) -> (r: KernelDebugPpuVmV1)
    ensures
        r == ppu_to_v1(*ppu),
{
    KernelDebugPpuVmV1 {
        ly: ppu.ly,
        mode: ppu.mode,
        stat: ppu.stat,
        lcdc: ppu.lcdc,
        scx: ppu.scx,
        scy: ppu.scy,
        wy: ppu.wy,
        wx: ppu.wx,
        bgp: ppu.bgp,
        frame_ready: ppu.frame_ready,
    }
}

fn decode_ppu(ppu: &KernelDebugPpuVmV1) -> (r: PpuVM)
    ensures
        r == ppu_from_v1(*ppu),
{
    PpuVM {
        ly: ppu.ly,
        mode: ppu.mode,
        stat: ppu.stat,
        lcdc: ppu.lcdc,
        scx: ppu.scx,
        scy: ppu.scy,
        wy: ppu.wy,
        wx: ppu.wx,
        bgp: ppu.bgp,
        frame_ready: ppu.frame_ready,
    }
}

fn encode_timers(timers: &TimersVM) -> (r: KernelDebugTimersVmV1)
    ensures
        r == timers_to_v1(*timers),
{
    KernelDebugTimersVmV1 { div: timers.div, tima: timers.tima, tma: timers.tma, tac: timers.tac }
}

fn decode_timers(timers: &KernelDebugTimersVmV1) -> (r: TimersVM)
    ensures
        r == timers_from_v1(*timers),
{
    TimersVM { div: timers.div, tima: timers.tima, tma: timers.tma, tac: timers.tac }
}

fn encode_snapshot(snapshot: &InspectorVMMinimal) -> (r: KernelDebugSnapshotV1)
    ensures
        r.cpu == cpu_to_v1(snapshot.cpu) && r.ppu == ppu_to_v1(snapshot.ppu) && r.timers
            == timers_to_v1(snapshot.timers) && r.io@ == snapshot.io@,
{
    KernelDebugSnapshotV1 {
        cpu: encode_cpu(&snapshot.cpu),
        ppu: encode_ppu(&snapshot.ppu),
        timers: encode_timers(&snapshot.timers),
        io: copy_bytes(snapshot.io.as_slice()),
    }
}

fn decode_snapshot(snapshot: &KernelDebugSnapshotV1) -> (r: InspectorVMMinimal)
    ensures
        r.cpu == cpu_from_v1(snapshot.cpu) && r.ppu == ppu_from_v1(snapshot.ppu) && r.timers
            == timers_from_v1(snapshot.timers) && r.io@ == snapshot.io@,
{
    InspectorVMMinimal {
        cpu: decode_cpu(&snapshot.cpu),
        ppu: decode_ppu(&snapshot.ppu),
        timers: decode_timers(&snapshot.timers),
        io: copy_bytes(snapshot.io.as_slice()),
    }
}

fn encode_debug_rep(rep: &DebugRep) -> (r: KernelDebugRepV1)
    ensures
        r@ == debug_rep_to_v1(rep@),
{
    match rep {
        DebugRep::Snapshot(snapshot) => KernelDebugRepV1::Snapshot(encode_snapshot(snapshot)),
        DebugRep::MemWindow { space, base, bytes } => KernelDebugRepV1::MemWindow {
            space: encode_mem_space(*space),
            base: *base,
            bytes: copy_bytes(bytes.as_slice()),
        },
        DebugRep::Stepped { kind, cycles, pc, disasm } => KernelDebugRepV1::Stepped {
            kind: encode_step_kind(*kind),
            cycles: *cycles,
            pc: *pc,
            disasm: copy_text(disasm),
        },
    }
}

fn decode_debug_rep(rep: &KernelDebugRepV1) -> (r: DebugRep)
    ensures
        r@ == debug_rep_from_v1(rep@),
{
    match rep {
        KernelDebugRepV1::Snapshot(snapshot) => DebugRep::Snapshot(decode_snapshot(snapshot)),
        KernelDebugRepV1::MemWindow { space, base, bytes } => DebugRep::MemWindow {
            space: decode_mem_space(*space),
            base: *base,
            bytes: copy_bytes(bytes.as_slice()),
        },
        KernelDebugRepV1::Stepped { kind, cycles, pc, disasm } => DebugRep::Stepped {
            kind: decode_step_kind(*kind),
            cycles: *cycles,
            pc: *pc,
            disasm: copy_text(disasm),
        },
    }
}

fn encode_slot_span(span: &Option<SlotSpan>) -> (r: SlotSpanV1)
    ensures
        r == slot_to_v1(*span),
{
    match span {
        Some(slot) => SlotSpanV1 { start_idx: slot.start_idx, count: slot.count },
        None => SlotSpanV1 { start_idx: 0, count: 0 },
    }
}

fn decode_slot_span(span: SlotSpanV1) -> (r: Option<SlotSpan>)
    ensures
        r == slot_from_v1(span),
{
    if span.count == 0 {
        None
    } else {
        Some(SlotSpan { start_idx: span.start_idx, count: span.count })
    }
}

/// Returns a default (empty) frame span placeholder.
pub fn default_frame_span() -> (r: FrameSpan)
    ensures
        r@ == (FrameSpanView { width: 0, height: 0, pixels: Seq::empty(), slot_span: None }),
{
    FrameSpan::default()
}

/// Frame span of a decoded frame report: the default span grown to
/// 160×144, with the carried slots and pixels.
fn frame_span_from_parts(span: SlotSpanV1, pixels: &Vec<u8>) -> (r: FrameSpan)
    ensures
        r@ == (FrameSpanView { width: 160, height: 144, pixels: pixels@, slot_span: slot_from_v1(span) }),
{
    let mut frame_span = default_frame_span();
    if frame_span.width == 0 {
        frame_span.width = 160;
    }
    if frame_span.height == 0 {
        frame_span.height = 144;
    }
    frame_span.slot_span = decode_slot_span(span);
    if pixels.len() > 0 {
        frame_span.pixels = copy_bytes(pixels.as_slice());
    }
    frame_span
}

/// Audio span of a decoded audio report: empty, with the carried slots.
fn audio_span_from_slot(span: SlotSpanV1) -> (r: AudioSpan)
    ensures
        r@ == empty_audio(slot_from_v1(span)),
{
    let mut audio_span = AudioSpan::empty();
    audio_span.slot_span = decode_slot_span(span);
    audio_span
}

/// Codec for kernel service commands and reports.
#[derive(Clone, Copy, Debug)]
pub struct KernelCodec;

impl Default for KernelCodec {
    fn default() -> (r: Self) {
        KernelCodec
    }
}

/// The port class a kernel command travels on: display ticks coalesce,
/// exploration ticks are best effort, debug commands follow their own policy,
/// everything else is lossless.
fn default_kernel_policy(cmd: &KernelCmd) -> (r: PortClass)
    ensures
        r == kernel_cmd_class(cmd@),
{
    match cmd {
        KernelCmd::Tick { purpose, .. } => match purpose {
            TickPurpose::Display => PortClass::Coalesce,
            TickPurpose::Exploration => PortClass::BestEffort,
        },
        KernelCmd::LoadRom { .. } => PortClass::Lossless,
        KernelCmd::SetInputs { .. } => PortClass::Lossless,
        KernelCmd::Terminate { .. } => PortClass::Lossless,
        KernelCmd::Debug(debug) => class_from_policy(debug.submit_policy()),
    }
}

impl KernelCodec {
    /// Encodes a kernel command under the kernel command tag; the port class
    /// follows the command's scheduling policy.
    pub fn encode_cmd(&self, cmd: &KernelCmd) -> (r: Result<Encoded<KernelCmdV1>, CodecError>)
        ensures
            r matches Ok(e) && e.class == kernel_cmd_class(cmd@) && e.envelope == (Envelope {
                tag: TAG_KERNEL_CMD,
                ver: SCHEMA_VERSION_V1,
            }) && e.message@ == kernel_cmd_to_v1(cmd@),
    {
        let class = default_kernel_policy(cmd);
        let message = match cmd {
            KernelCmd::Tick { purpose, budget, .. } => KernelCmdV1::Tick(
                KernelTickCmdV1 { purpose: encode_purpose(*purpose), budget: *budget },
            ),
            KernelCmd::LoadRom { bytes, .. } => KernelCmdV1::LoadRom(
                KernelLoadRomCmdV1 { bytes: copy_bytes(bytes.as_slice()) },
            ),
            KernelCmd::SetInputs { group, lanes_mask, joypad } => KernelCmdV1::SetInputs(
                KernelSetInputsCmdV1 { group: *group, lanes_mask: *lanes_mask, joypad: *joypad },
            ),
            KernelCmd::Terminate { group } => KernelCmdV1::Terminate(KernelTerminateCmdV1 { group: *group }),
            KernelCmd::Debug(debug) => KernelCmdV1::Debug(encode_debug_cmd(debug)),
        };
        Ok(Encoded::new(class, Envelope::new(TAG_KERNEL_CMD, SCHEMA_VERSION_V1), message))
    }

    /// Decodes a kernel command; fails when the envelope is not a version-1
    /// kernel command.
    pub fn decode_cmd(&self, envelope: Envelope, message: &KernelCmdV1) -> (r: Result<KernelCmd, CodecError>)
        ensures
            tag_check(envelope, TAG_KERNEL_CMD) matches Err(e) ==> r == Err::<KernelCmd, CodecError>(e),
            tag_check(envelope, TAG_KERNEL_CMD) is Ok ==> (r matches Ok(c) && c@ == kernel_cmd_from_v1(message@)),
    {
        match ensure_tag(envelope, TAG_KERNEL_CMD) {
            Err(e) => Err(e),
            Ok(()) => Ok(
                match message {
                    KernelCmdV1::Tick(tick) => KernelCmd::Tick {
                        group: 0,
                        purpose: decode_purpose(tick.purpose),
                        budget: tick.budget,
                    },
                    KernelCmdV1::LoadRom(load) => KernelCmd::LoadRom { group: 0, bytes: copy_bytes(load.bytes.as_slice()) },
                    KernelCmdV1::SetInputs(inputs) => KernelCmd::SetInputs {
                        group: inputs.group,
                        lanes_mask: inputs.lanes_mask,
                        joypad: inputs.joypad,
                    },
                    KernelCmdV1::Terminate(term) => KernelCmd::Terminate { group: term.group },
                    KernelCmdV1::Debug(debug) => KernelCmd::Debug(decode_debug_cmd(debug)),
                },
            ),
        }
    }

    /// Encodes a kernel report under the kernel report tag; thumbnail
    /// reports have no wire form.
    pub fn encode_rep(&self, rep: &KernelRep) -> (r: Result<Encoded<KernelRepV1>, CodecError>)
        ensures
            kernel_rep_to_v1(rep@) is None ==> r == Err::<Encoded<KernelRepV1>, CodecError>(CodecError::Unsupported),
            kernel_rep_to_v1(rep@) matches Some(p) ==> (r matches Ok(e) && e.class == p.0 && e.message@ == p.1
                && e.envelope == (Envelope { tag: TAG_KERNEL_REP, ver: SCHEMA_VERSION_V1 })),
    {
        let (class, message) = match rep {
            KernelRep::TickDone { .. } => (
                PortClass::Lossless,
                KernelRepV1::TickDone { purpose: TickPurposeV1::Display, budget: 0 },
            ),
            KernelRep::LaneFrame { lane, frame_id, span, .. } => (
                PortClass::Lossless,
                KernelRepV1::LaneFrame {
                    lane: *lane,
                    frame_id: *frame_id,
                    span: encode_slot_span(&span.slot_span),
                    pixels: copy_bytes(span.pixels.as_slice()),
                },
            ),
            KernelRep::RomLoaded { bytes_len, .. } => (
                PortClass::Lossless,
                KernelRepV1::RomLoaded { bytes_len: *bytes_len as u32 },
            ),
            KernelRep::AudioReady { group, span } => (
                PortClass::Lossless,
                KernelRepV1::AudioReady { group: *group, span: encode_slot_span(&span.slot_span) },
            ),
            KernelRep::DroppedThumb { .. } => {
                return Err(CodecError::Unsupported);
            },
            KernelRep::Debug(rep) => {
                let class = match rep {
                    DebugRep::Snapshot(_) => PortClass::Coalesce,
                    DebugRep::MemWindow { .. } | DebugRep::Stepped { .. } => PortClass::Lossless,
                };
                (class, KernelRepV1::Debug(encode_debug_rep(rep)))
            },
        };
        Ok(Encoded::new(class, Envelope::new(TAG_KERNEL_REP, SCHEMA_VERSION_V1), message))
    }

    /// Decodes a kernel report; fails when the envelope is not a version-1
    /// kernel report.
    pub fn decode_rep(&self, envelope: Envelope, message: &KernelRepV1) -> (r: Result<KernelRep, CodecError>)
        ensures
            tag_check(envelope, TAG_KERNEL_REP) matches Err(e) ==> r == Err::<KernelRep, CodecError>(e),
            tag_check(envelope, TAG_KERNEL_REP) is Ok ==> (r matches Ok(k) && k@ == kernel_rep_from_v1(message@)),
    {
        match ensure_tag(envelope, TAG_KERNEL_REP) {
            Err(e) => Err(e),
            Ok(()) => Ok(
                match message {
                    KernelRepV1::TickDone { .. } => KernelRep::TickDone { group: 0, lanes_mask: 0, cycles_done: 0 },
                    KernelRepV1::LaneFrame { lane, frame_id, span, pixels } => KernelRep::LaneFrame {
                        group: 0,
                        lane: *lane,
                        span: frame_span_from_parts(*span, pixels),
                        frame_id: *frame_id,
                    },
                    KernelRepV1::RomLoaded { bytes_len } => KernelRep::RomLoaded { group: 0, bytes_len: *bytes_len as usize },
                    KernelRepV1::AudioReady { group, span } => KernelRep::AudioReady {
                        group: *group,
                        span: audio_span_from_slot(*span),
                    },
                    KernelRepV1::Debug(rep) => KernelRep::Debug(decode_debug_rep(rep)),
                },
            ),
        }
    }
}

/// Port class for a scheduler policy.
fn class_from_policy(policy: SubmitPolicy) -> (r: PortClass)
    ensures
        r == policy_class(policy),
{
    match policy {
        SubmitPolicy::Must | SubmitPolicy::Lossless => PortClass::Lossless,
        SubmitPolicy::Coalesce => PortClass::Coalesce,
        SubmitPolicy::BestEffort => PortClass::BestEffort,
    }
}

/// Codec for filesystem service commands and reports.
#[derive(Clone, Copy, Debug)]
pub struct FsCodec;

impl Default for FsCodec {
    fn default() -> (r: Self) {
        FsCodec
    }
}

impl FsCodec {
    /// Encodes a persist command (lossless) with its path as the key.
    pub fn encode_cmd(&self, cmd: &FsCmd) -> (r: Result<Encoded<FsCmdV1>, CodecError>)
        ensures
            r matches Ok(e) && e.class == PortClass::Lossless && e.envelope == (Envelope {
                tag: TAG_FS_CMD,
                ver: SCHEMA_VERSION_V1,
            }) && e.message@ == (FsCmdV1View { key: cmd@.path, payload: cmd@.bytes }),
    {
        let message = match cmd {
            FsCmd::Persist { path, bytes } => FsCmdV1::Persist(
                FsPersistCmdV1 { key: path.clone(), payload: copy_bytes(bytes.as_slice()) },
            ),
        };
        Ok(Encoded::new(PortClass::Lossless, Envelope::new(TAG_FS_CMD, SCHEMA_VERSION_V1), message))
    }

    /// Decodes a persist command; fails when the envelope is not a version-1
    /// filesystem command.
    pub fn decode_cmd(&self, envelope: Envelope, message: &FsCmdV1) -> (r: Result<FsCmd, CodecError>)
        ensures
            tag_check(envelope, TAG_FS_CMD) matches Err(e) ==> r == Err::<FsCmd, CodecError>(e),
            tag_check(envelope, TAG_FS_CMD) is Ok ==> (r matches Ok(c) && c@ == (FsCmdView {
                path: message@.key,
                bytes: message@.payload,
            })),
    {
        match ensure_tag(envelope, TAG_FS_CMD) {
            Err(e) => Err(e),
            Ok(()) => match message {
                FsCmdV1::Persist(persist) => Ok(
                    FsCmd::Persist { path: persist.key.clone(), bytes: copy_bytes(persist.payload.as_slice()) },
                ),
            },
        }
    }

    /// Encodes a saved report (lossless) with its path as the key.
    pub fn encode_rep(&self, rep: &FsRep) -> (r: Result<Encoded<FsRepV1>, CodecError>)
        ensures
            r matches Ok(e) && e.class == PortClass::Lossless && e.envelope == (Envelope {
                tag: TAG_FS_REP,
                ver: SCHEMA_VERSION_V1,
            }) && e.message@ == (FsRepV1View { key: rep@.path, ok: rep@.ok }),
    {
        let message = match rep {
            FsRep::Saved { path, ok } => FsRepV1::Saved { key: path.clone(), ok: *ok },
        };
        Ok(Encoded::new(PortClass::Lossless, Envelope::new(TAG_FS_REP, SCHEMA_VERSION_V1), message))
    }

    /// Decodes a saved report; fails when the envelope is not a version-1
    /// filesystem report.
    pub fn decode_rep(&self, envelope: Envelope, message: &FsRepV1) -> (r: Result<FsRep, CodecError>)
        ensures
            tag_check(envelope, TAG_FS_REP) matches Err(e) ==> r == Err::<FsRep, CodecError>(e),
            tag_check(envelope, TAG_FS_REP) is Ok ==> (r matches Ok(k) && k@ == (FsRepView {
                path: message@.key,
                ok: message@.ok,
            })),
    {
        match ensure_tag(envelope, TAG_FS_REP) {
            Err(e) => Err(e),
            Ok(()) => match message {
                FsRepV1::Saved { key, ok } => Ok(FsRep::Saved { path: key.clone(), ok: *ok }),
            },
        }
    }
}

/// Wire form of a GPU report.
pub open spec fn gpu_rep_to_v1(rep: GpuRep) -> GpuRepV1 {
    match rep {
        GpuRep::FrameShown { lane, frame_id } => GpuRepV1::FramePresented { lane, frame_id },
    }
}

/// Lane carried by a GPU command on the wire.
pub open spec fn gpu_cmd_lane_v1(w: GpuCmdV1) -> u16 {
    match w {
        GpuCmdV1::UploadFrame { lane, .. } => lane,
    }
}

/// GPU report read from the wire.
pub open spec fn gpu_rep_from_v1(w: GpuRepV1) -> GpuRep {
    match w {
        GpuRepV1::FramePresented { lane, frame_id } => GpuRep::FrameShown { lane, frame_id },
    }
}

/// Wire form of an audio submission: its frame count.
pub open spec fn audio_cmd_to_v1(cmd: AudioCmd) -> AudioCmdV1 {
    match cmd {
        AudioCmd::Submit { span } => AudioCmdV1::SubmitSamples { frames: audio_frame_count(span@) as u32 },
    }
}

/// Codec for GPU service commands and reports.
#[derive(Clone, Copy, Debug)]
pub struct GpuCodec;

impl Default for GpuCodec {
    fn default() -> (r: Self) {
        GpuCodec
    }
}

impl GpuCodec {
    /// Encodes a frame upload (lossless); only the lane crosses the wire.
    pub fn encode_cmd(&self, cmd: &GpuCmd) -> (r: Result<Encoded<GpuCmdV1>, CodecError>)
        ensures
            r matches Ok(e) && e.class == PortClass::Lossless && e.envelope == (Envelope {
                tag: TAG_GPU_CMD,
                ver: SCHEMA_VERSION_V1,
            }) && e.message == (GpuCmdV1::UploadFrame { lane: crate::services::gpu_lane(*cmd), frame_id: 0 }),
    {
        let message = match cmd {
            GpuCmd::UploadFrame { lane, .. } => GpuCmdV1::UploadFrame { lane: *lane, frame_id: 0 },
        };
        Ok(Encoded::new(PortClass::Lossless, Envelope::new(TAG_GPU_CMD, SCHEMA_VERSION_V1), message))
    }

    /// Decodes a frame upload with an empty frame span; fails when the
    /// envelope is not a version-1 GPU command.
    pub fn decode_cmd(&self, envelope: Envelope, message: &GpuCmdV1) -> (r: Result<GpuCmd, CodecError>)
        ensures
            tag_check(envelope, TAG_GPU_CMD) matches Err(e) ==> r == Err::<GpuCmd, CodecError>(e),
            tag_check(envelope, TAG_GPU_CMD) is Ok ==> (r matches Ok(GpuCmd::UploadFrame { lane, span })
                && lane == gpu_cmd_lane_v1(*message) && span@ == (FrameSpanView {
                width: 0,
                height: 0,
                pixels: Seq::empty(),
                slot_span: None,
            })),
    {
        match ensure_tag(envelope, TAG_GPU_CMD) {
            Err(e) => Err(e),
            Ok(()) => match message {
                GpuCmdV1::UploadFrame { lane, .. } => Ok(GpuCmd::UploadFrame { lane: *lane, span: default_frame_span() }),
            },
        }
    }

    /// Encodes a shown-frame report (lossless).
    pub fn encode_rep(&self, rep: &GpuRep) -> (r: Result<Encoded<GpuRepV1>, CodecError>)
        ensures
            r matches Ok(e) && e.class == PortClass::Lossless && e.envelope == (Envelope {
                tag: TAG_GPU_REP,
                ver: SCHEMA_VERSION_V1,
            }) && e.message == gpu_rep_to_v1(*rep),
    {
        let message = match rep {
            GpuRep::FrameShown { lane, frame_id } => GpuRepV1::FramePresented { lane: *lane, frame_id: *frame_id },
        };
        Ok(Encoded::new(PortClass::Lossless, Envelope::new(TAG_GPU_REP, SCHEMA_VERSION_V1), message))
    }

    /// Decodes a shown-frame report; fails when the envelope is not a
    /// version-1 GPU report.
    pub fn decode_rep(&self, envelope: Envelope, message: &GpuRepV1) -> (r: Result<GpuRep, CodecError>)
        ensures
            tag_check(envelope, TAG_GPU_REP) matches Err(e) ==> r == Err::<GpuRep, CodecError>(e),
            tag_check(envelope, TAG_GPU_REP) is Ok ==> r == Ok::<GpuRep, CodecError>(gpu_rep_from_v1(*message)),
    {
        match ensure_tag(envelope, TAG_GPU_REP) {
            Err(e) => Err(e),
            Ok(()) => match message {
                GpuRepV1::FramePresented { lane, frame_id } => Ok(GpuRep::FrameShown { lane: *lane, frame_id: *frame_id }),
            },
        }
    }
}

/// Audio frames in a span: samples per channel, a channel count of zero
/// counting as one.
pub open spec fn audio_frame_count(span: AudioSpanView) -> nat {
    span.samples.len() / (if span.channels == 0 { 1nat } else { span.channels as nat })
}

/// Number of audio frames in a span.
fn audio_frames(span: &AudioSpan) -> (r: usize)
    ensures
        r == audio_frame_count(span@),
{
    let channels: usize = if span.channels == 0 { 1 } else { span.channels as usize };
    span.samples.len() / channels
}

/// Codec for audio service commands and reports.
#[derive(Clone, Copy, Debug)]
pub struct AudioCodec;

impl Default for AudioCodec {
    fn default() -> (r: Self) {
        AudioCodec
    }
}

impl AudioCodec {
    /// Encodes a buffer submission (lossless) as its frame count.
    pub fn encode_cmd(&self, cmd: &AudioCmd) -> (r: Result<Encoded<AudioCmdV1>, CodecError>)
        ensures
            r matches Ok(e) && e.class == PortClass::Lossless && e.envelope == (Envelope {
                tag: TAG_AUDIO_CMD,
                ver: SCHEMA_VERSION_V1,
            }) && e.message == audio_cmd_to_v1(*cmd),
    {
        let message = match cmd {
            AudioCmd::Submit { span } => AudioCmdV1::SubmitSamples { frames: audio_frames(span) as u32 },
        };
        Ok(Encoded::new(PortClass::Lossless, Envelope::new(TAG_AUDIO_CMD, SCHEMA_VERSION_V1), message))
    }

    /// Decodes a buffer submission as an empty span; fails when the envelope
    /// is not a version-1 audio command.
    pub fn decode_cmd(&self, envelope: Envelope, message: &AudioCmdV1) -> (r: Result<AudioCmd, CodecError>)
        ensures
            tag_check(envelope, TAG_AUDIO_CMD) matches Err(e) ==> r == Err::<AudioCmd, CodecError>(e),
            tag_check(envelope, TAG_AUDIO_CMD) is Ok ==> (r matches Ok(AudioCmd::Submit { span }) && span@ == empty_audio(None)),
    {
        match ensure_tag(envelope, TAG_AUDIO_CMD) {
            Err(e) => Err(e),
            Ok(()) => match message {
                AudioCmdV1::SubmitSamples { .. } => Ok(AudioCmd::Submit { span: AudioSpan::empty() }),
            },
        }
    }

    /// Encodes a playback report (lossless).
    pub fn encode_rep(&self, rep: &AudioRep) -> (r: Result<Encoded<AudioRepV1>, CodecError>)
        ensures
            r matches Ok(e) && e.class == PortClass::Lossless && e.envelope == (Envelope {
                tag: TAG_AUDIO_REP,
                ver: SCHEMA_VERSION_V1,
            }) && e.message == (match *rep {
                AudioRep::Played { frames } => AudioRepV1::Played { frames: frames as u32 },
                AudioRep::Underrun => AudioRepV1::Underrun,
            }),
    {
        let message = match rep {
            AudioRep::Played { frames } => AudioRepV1::Played { frames: *frames as u32 },
            AudioRep::Underrun => AudioRepV1::Underrun,
        };
        Ok(Encoded::new(PortClass::Lossless, Envelope::new(TAG_AUDIO_REP, SCHEMA_VERSION_V1), message))
    }

    /// Decodes a playback report; fails when the envelope is not a version-1
    /// audio report.
    pub fn decode_rep(&self, envelope: Envelope, message: &AudioRepV1) -> (r: Result<AudioRep, CodecError>)
        ensures
            tag_check(envelope, TAG_AUDIO_REP) matches Err(e) ==> r == Err::<AudioRep, CodecError>(e),
            tag_check(envelope, TAG_AUDIO_REP) is Ok ==> r == Ok::<AudioRep, CodecError>(match *message {
                AudioRepV1::Played { frames } => AudioRep::Played { frames: frames as usize },
                AudioRepV1::Underrun => AudioRep::Underrun,
            }),
    {
        match ensure_tag(envelope, TAG_AUDIO_REP) {
            Err(e) => Err(e),
            Ok(()) => match message {
                AudioRepV1::Played { frames } => Ok(AudioRep::Played { frames: *frames as usize }),
                AudioRepV1::Underrun => Ok(AudioRep::Underrun),
            },
        }
    }
}

/// What a kernel command reads as after crossing the wire: ticks and ROM
/// loads lose their group (they address group 0), everything else is kept.
pub open spec fn kernel_cmd_wire_image(c: KernelCmdView) -> KernelCmdView {
    match c {
        KernelCmdView::Tick { purpose, budget, .. } => KernelCmdView::Tick { group: 0, purpose, budget },
        KernelCmdView::LoadRom { bytes, .. } => KernelCmdView::LoadRom { group: 0, bytes },
        _ => c,
    }
}

/// Decoding an encoded kernel command gives the command back, except that
/// ticks and ROM loads address group 0; debug, input and terminate commands
/// come back unchanged.
pub proof fn lemma_kernel_cmd_roundtrip(c: KernelCmdView)
    ensures
        kernel_cmd_from_v1(kernel_cmd_to_v1(c)) == kernel_cmd_wire_image(c),
        (c is Debug || c is SetInputs || c is Terminate) ==> kernel_cmd_from_v1(kernel_cmd_to_v1(c)) == c,
{
}

/// Decoding an encoded debug report gives the report back unchanged.
pub proof fn lemma_debug_rep_roundtrip(r: DebugRepView)
    ensures
        debug_rep_from_v1(debug_rep_to_v1(r)) == r,
{
    match r {
        DebugRepView::Snapshot(s) => {
            assert(debug_rep_from_v1(debug_rep_to_v1(r)) == DebugRepView::Snapshot(SnapshotView { ..s }));
        },
        _ => {},
    }
}

/// Every kernel report but a thumbnail has a wire form, and debug reports
/// come back from it unchanged.
pub proof fn lemma_kernel_rep_roundtrip(r: KernelRepView)
    ensures
        kernel_rep_to_v1(r) is None <==> r is DroppedThumb,
        r matches KernelRepView::Debug(d) ==> kernel_rep_to_v1(r) matches Some(p) && kernel_rep_from_v1(p.1)
            == KernelRepView::Debug(d),
{
    if let KernelRepView::Debug(d) = r {
        lemma_debug_rep_roundtrip(d);
    }
}

/// The port class of a kernel command is the class of the policy the
/// scheduler submits it under: display ticks coalesce, exploration ticks are
/// best effort, debug commands follow their own policy and the rest is lossless.
pub proof fn lemma_kernel_cmd_class_follows_policy(c: KernelCmdView)
    ensures
        kernel_cmd_class(c) == policy_class(
            match c {
                KernelCmdView::Tick { purpose, .. } => match purpose {
                    TickPurpose::Display => SubmitPolicy::Coalesce,
                    TickPurpose::Exploration => SubmitPolicy::BestEffort,
                },
                KernelCmdView::Debug(d) => debug_policy(d),
                _ => SubmitPolicy::Lossless,
            },
        ),
{
}

} // verus!
