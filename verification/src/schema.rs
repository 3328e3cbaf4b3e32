//! Version-1 wire schema of the service messages: the values that travel in
//! transport payloads, and the envelope that tags them.
use vstd::prelude::*;

verus! {

/// Schema version carried by every envelope of this schema.
pub const SCHEMA_VERSION_V1: u8 = 1;
/// Envelope tag of kernel commands.
pub const TAG_KERNEL_CMD: u8 = 0x10;
/// Envelope tag of kernel reports.
pub const TAG_KERNEL_REP: u8 = 0x11;
/// Envelope tag of filesystem commands.
pub const TAG_FS_CMD: u8 = 0x20;
/// Envelope tag of filesystem reports.
pub const TAG_FS_REP: u8 = 0x21;
/// Envelope tag of GPU commands.
pub const TAG_GPU_CMD: u8 = 0x30;
/// Envelope tag of GPU reports.
pub const TAG_GPU_REP: u8 = 0x31;
/// Envelope tag of audio commands.
pub const TAG_AUDIO_CMD: u8 = 0x40;
/// Envelope tag of audio reports.
pub const TAG_AUDIO_REP: u8 = 0x41;

/// Message envelope: payload kind and schema version.
#[derive(Clone, Copy, Debug, PartialEq, Eq, Structural)]
pub struct Envelope {
    pub tag: u8,
    pub ver: u8,
}

impl Envelope {
    /// Creates an envelope.
    pub fn new(tag: u8, ver: u8) -> (r: Self)
        ensures
            r == (Envelope { tag, ver }),
    {
        Envelope { tag, ver }
    }
}

/// Port class determines which queue type delivers a message.
#[derive(Clone, Copy, Debug, PartialEq, Eq, Structural)]
pub enum PortClass {
    /// Lossless delivery via ring buffer (blocking on full).
    Lossless,
    /// Best-effort delivery via ring buffer (drops on full).
    BestEffort,
    /// Coalescing delivery via mailbox (replaces previous value).
    Coalesce,
}

/// An encoded message: its delivery class, its envelope and the schema value
/// that becomes the payload.
#[derive(Clone, Debug)]
pub struct Encoded<M> {
    pub class: PortClass,
    pub envelope: Envelope,
    pub message: M,
}

impl<M> Encoded<M> {
    /// Creates an encoded message.
    pub fn new(class: PortClass, envelope: Envelope, message: M) -> (r: Self)
        ensures
            r.class == class && r.envelope == envelope && r.message == message,
    {
        Encoded { class, envelope, message }
    }
}

#[derive(Clone, Copy, Debug, PartialEq, Eq, Structural)]
pub enum TickPurposeV1 {
    Display,
    Exploration,
}

#[derive(Clone, Copy, Debug, PartialEq, Eq, Structural)]
pub struct KernelTickCmdV1 {
    pub purpose: TickPurposeV1,
    pub budget: u32,
}

#[derive(Clone, Debug, PartialEq, Eq)]
pub struct KernelLoadRomCmdV1 {
    pub bytes: Vec<u8>,
}

#[derive(Clone, Copy, Debug, PartialEq, Eq, Structural)]
pub struct KernelSetInputsCmdV1 {
    pub group: u16,
    pub lanes_mask: u32,
    pub joypad: u8,
}

#[derive(Clone, Copy, Debug, PartialEq, Eq, Structural)]
pub struct KernelTerminateCmdV1 {
    pub group: u16,
}

#[derive(Clone, Copy, Debug, PartialEq, Eq, Structural)]
pub enum KernelDebugMemSpaceV1 {
    Vram,
    Wram,
    Oam,
    Io,
}

#[derive(Clone, Copy, Debug, PartialEq, Eq, Structural)]
pub enum KernelDebugCmdV1 {
    Snapshot { group: u16 },
    MemWindow { group: u16, space: KernelDebugMemSpaceV1, base: u16, len: u16 },
    StepInstruction { group: u16, count: u32 },
    StepFrame { group: u16 },
}

#[derive(Clone, Debug, PartialEq, Eq)]
pub enum KernelCmdV1 {
    Tick(KernelTickCmdV1),
    LoadRom(KernelLoadRomCmdV1),
    SetInputs(KernelSetInputsCmdV1),
    Terminate(KernelTerminateCmdV1),
    Debug(KernelDebugCmdV1),
}

/// Model of a kernel command on the wire.
pub enum KernelCmdV1View {
    Tick(KernelTickCmdV1),
    LoadRom(Seq<u8>),
    SetInputs(KernelSetInputsCmdV1),
    Terminate(KernelTerminateCmdV1),
    Debug(KernelDebugCmdV1),
}

impl View for KernelCmdV1 {
    type V = KernelCmdV1View;

    open spec fn view(&self) -> KernelCmdV1View {
        match *self {
            KernelCmdV1::Tick(t) => KernelCmdV1View::Tick(t),
            KernelCmdV1::LoadRom(l) => KernelCmdV1View::LoadRom(l.bytes@),
            KernelCmdV1::SetInputs(s) => KernelCmdV1View::SetInputs(s),
            KernelCmdV1::Terminate(t) => KernelCmdV1View::Terminate(t),
            KernelCmdV1::Debug(d) => KernelCmdV1View::Debug(d),
        }
    }
}

#[derive(Clone, Copy, Debug, PartialEq, Eq, Structural)]
pub struct SlotSpanV1 {
    pub start_idx: u32,
    pub count: u32,
}

#[derive(Clone, Copy, Debug, PartialEq, Eq, Structural)]
pub enum KernelDebugStepKindV1 {
    Instruction,
    Frame,
}

/// CPU registers on the wire.
#[derive(Clone, Copy, Debug, PartialEq, Eq, Structural)]
pub struct KernelDebugCpuVmV1 {
    pub a: u8,
    pub f: u8,
    pub b: u8,
    pub c: u8,
    pub d: u8,
    pub e: u8,
    pub h: u8,
    pub l: u8,
    pub sp: u16,
    pub pc: u16,
    pub ime: bool,
    pub halted: bool,
}

/// PPU registers on the wire.
#[derive(Clone, Copy, Debug, PartialEq, Eq, Structural)]
pub struct KernelDebugPpuVmV1 {
    pub ly: u8,
    pub mode: u8,
    pub stat: u8,
    pub lcdc: u8,
    pub scx: u8,
    pub scy: u8,
    pub wy: u8,
    pub wx: u8,
    pub bgp: u8,
    pub frame_ready: bool,
}

/// Timer registers on the wire.
#[derive(Clone, Copy, Debug, PartialEq, Eq, Structural)]
pub struct KernelDebugTimersVmV1 {
    pub div: u8,
    pub tima: u8,
    pub tma: u8,
    pub tac: u8,
}

#[derive(Clone, Debug, PartialEq, Eq)]
pub struct KernelDebugSnapshotV1 {
    pub cpu: KernelDebugCpuVmV1,
    pub ppu: KernelDebugPpuVmV1,
    pub timers: KernelDebugTimersVmV1,
    pub io: Vec<u8>,
}

#[derive(Clone, Debug, PartialEq, Eq)]
pub enum KernelDebugRepV1 {
    Snapshot(KernelDebugSnapshotV1),
    MemWindow { space: KernelDebugMemSpaceV1, base: u16, bytes: Vec<u8> },
    Stepped { kind: KernelDebugStepKindV1, cycles: u32, pc: u16, disasm: Option<String> },
}

/// Model of a debug report on the wire.
pub enum KernelDebugRepV1View {
    Snapshot {
        cpu: KernelDebugCpuVmV1,
        ppu: KernelDebugPpuVmV1,
        timers: KernelDebugTimersVmV1,
        io: Seq<u8>,
    },
    MemWindow { space: KernelDebugMemSpaceV1, base: u16, bytes: Seq<u8> },
    Stepped { kind: KernelDebugStepKindV1, cycles: u32, pc: u16, disasm: Option<Seq<char>> },
}

impl View for KernelDebugRepV1 {
    type V = KernelDebugRepV1View;

    open spec fn view(&self) -> KernelDebugRepV1View {
        match *self {
            KernelDebugRepV1::Snapshot(s) => KernelDebugRepV1View::Snapshot {
                cpu: s.cpu,
                ppu: s.ppu,
                timers: s.timers,
                io: s.io@,
            },
            KernelDebugRepV1::MemWindow { space, base, bytes } => KernelDebugRepV1View::MemWindow {
                space,
                base,
                bytes: bytes@,
            },
            KernelDebugRepV1::Stepped { kind, cycles, pc, disasm } => KernelDebugRepV1View::Stepped {
                kind,
                cycles,
                pc,
                disasm: crate::service_abi::text_view(disasm),
            },
        }
    }
}

#[derive(Clone, Debug, PartialEq, Eq)]
pub enum KernelRepV1 {
    TickDone { purpose: TickPurposeV1, budget: u32 },
    LaneFrame { lane: u16, frame_id: u64, span: SlotSpanV1, pixels: Vec<u8> },
    RomLoaded { bytes_len: u32 },
    AudioReady { group: u16, span: SlotSpanV1 },
    Debug(KernelDebugRepV1),
}

/// Model of a kernel report on the wire.
pub enum KernelRepV1View {
    TickDone { purpose: TickPurposeV1, budget: u32 },
    LaneFrame { lane: u16, frame_id: u64, span: SlotSpanV1, pixels: Seq<u8> },
    RomLoaded { bytes_len: u32 },
    AudioReady { group: u16, span: SlotSpanV1 },
    Debug(KernelDebugRepV1View),
}

impl View for KernelRepV1 {
    type V = KernelRepV1View;

    open spec fn view(&self) -> KernelRepV1View {
        match *self {
            KernelRepV1::TickDone { purpose, budget } => KernelRepV1View::TickDone { purpose, budget },
            KernelRepV1::LaneFrame { lane, frame_id, span, pixels } => KernelRepV1View::LaneFrame {
                lane,
                frame_id,
                span,
                pixels: pixels@,
            },
            KernelRepV1::RomLoaded { bytes_len } => KernelRepV1View::RomLoaded { bytes_len },
            KernelRepV1::AudioReady { group, span } => KernelRepV1View::AudioReady { group, span },
            KernelRepV1::Debug(d) => KernelRepV1View::Debug(d@),
        }
    }
}

#[derive(Clone, Debug, PartialEq, Eq)]
pub struct FsPersistCmdV1 {
    pub key: String,
    pub payload: Vec<u8>,
}

#[derive(Clone, Debug, PartialEq, Eq)]
pub enum FsCmdV1 {
    Persist(FsPersistCmdV1),
}

/// Model of a filesystem command on the wire.
pub struct FsCmdV1View {
    pub key: Seq<char>,
    pub payload: Seq<u8>,
}

impl View for FsCmdV1 {
    type V = FsCmdV1View;

    open spec fn view(&self) -> FsCmdV1View {
        match *self {
            FsCmdV1::Persist(p) => FsCmdV1View { key: p.key@, payload: p.payload@ },
        }
    }
}

#[derive(Clone, Debug, PartialEq, Eq)]
pub enum FsRepV1 {
    Saved { key: String, ok: bool },
}

/// Model of a filesystem report on the wire.
pub struct FsRepV1View {
    pub key: Seq<char>,
    pub ok: bool,
}

impl View for FsRepV1 {
    type V = FsRepV1View;

    open spec fn view(&self) -> FsRepV1View {
        match *self {
            FsRepV1::Saved { key, ok } => FsRepV1View { key: key@, ok },
        }
    }
}

#[derive(Clone, Copy, Debug, PartialEq, Eq, Structural)]
pub enum GpuCmdV1 {
    UploadFrame { lane: u16, frame_id: u64 },
}

#[derive(Clone, Copy, Debug, PartialEq, Eq, Structural)]
pub enum GpuRepV1 {
    FramePresented { lane: u16, frame_id: u64 },
}

#[derive(Clone, Copy, Debug, PartialEq, Eq, Structural)]
pub enum AudioCmdV1 {
    SubmitSamples { frames: u32 },
}

#[derive(Clone, Copy, Debug, PartialEq, Eq, Structural)]
pub enum AudioRepV1 {
    Played { frames: u32 },
    Underrun,
}

} // verus!
