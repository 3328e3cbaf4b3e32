//! Inspector view-model shared by the CLI, logging and web debug front ends:
//! the latest CPU/PPU/timer snapshot, memory windows, performance and
//! transport counters, and the last stepping trace.
use vstd::prelude::*;
use crate::service_abi::{CpuVM, DebugRep, InspectorVMMinimal, MemSpace, PpuVM, TimersVM, TraceVM};

verus! {

/// Mathematical model of a memory window.
#[verifier::ext_equal]
pub struct MemWindowView {
    pub base: u16,
    pub bytes: Seq<u8>,
}

/// Mathematical model of the memory view.
#[verifier::ext_equal]
pub struct MemVMView {
    pub io: Seq<u8>,
    pub vram_window: Option<MemWindowView>,
    pub oam_window: Option<MemWindowView>,
    pub wram_window: Option<MemWindowView>,
}

/// Mathematical model of a stepping trace.
#[verifier::ext_equal]
pub struct TraceView {
    pub last_pc: u16,
    pub disasm_line: Seq<char>,
    pub cycles: u32,
}

/// Mathematical model of the whole inspector view-model.
#[verifier::ext_equal]
pub struct InspectorView {
    pub cpu: CpuVM,
    pub ppu: PpuVM,
    pub timers: TimersVM,
    pub mem: MemVMView,
    pub perf: PerfVM,
    pub transport: TransportVM,
    pub disasm: Option<TraceView>,
}

/// Memory window slice returned by the kernel.
#[derive(Clone, Debug, PartialEq, Eq)]
pub struct MemWindow {
    /// Base address of the window.
    pub base: u16,
    /// Raw bytes captured for the requested region.
    pub bytes: Vec<u8>,
}

impl View for MemWindow {
    type V = MemWindowView;

    open spec fn view(&self) -> MemWindowView {
        MemWindowView { base: self.base, bytes: self.bytes@ }
    }
}

/// Model of an optional window.
pub open spec fn window_view(w: Option<MemWindow>) -> Option<MemWindowView> {
    match w {
        Some(w) => Some(w@),
        None => None,
    }
}

/// Memory view captured by the inspector.
#[derive(Clone, Debug, PartialEq, Eq)]
pub struct MemVM {
    /// Snapshot of the IO register region.
    pub io: Vec<u8>,
    /// Optional VRAM window requested by the UI.
    pub vram_window: Option<MemWindow>,
    /// Optional OAM window requested by the UI.
    pub oam_window: Option<MemWindow>,
    /// Optional WRAM window requested by the UI.
    pub wram_window: Option<MemWindow>,
}

impl View for MemVM {
    type V = MemVMView;

    open spec fn view(&self) -> MemVMView {
        MemVMView {
            io: self.io@,
            vram_window: window_view(self.vram_window),
            oam_window: window_view(self.oam_window),
            wram_window: window_view(self.wram_window),
        }
    }
}

/// Model of a trace.
pub open spec fn trace_view(t: Option<TraceVM>) -> Option<TraceView> {
    match t {
        Some(t) => Some(TraceView { last_pc: t.last_pc, disasm_line: t.disasm_line@, cycles: t.cycles }),
        None => None,
    }
}

/// The IO window after a snapshot: `0x80` bytes, the snapshot's first bytes
/// and zeros past its end.
pub open spec fn snapshot_io(src: Seq<u8>) -> Seq<u8> {
    Seq::new(0x80, |i: int| if i < src.len() { src[i] } else { 0u8 })
}

/// First IO slot covered by a window at `base` (0 below `0xFF00`).
pub open spec fn io_start(base: u16) -> int {
    if base >= 0xFF00 {
        base - 0xFF00
    } else {
        0
    }
}

/// The IO window after writing `bytes` from slot `start`: grown with zeros
/// where needed, the written slots replaced, the rest kept.
pub open spec fn io_patched(io: Seq<u8>, start: int, bytes: Seq<u8>) -> Seq<u8> {
    let len = if bytes.len() == 0 {
        io.len() as int
    } else if start + bytes.len() > io.len() {
        start + bytes.len()
    } else {
        io.len() as int
    };
    Seq::new(
        len as nat,
        |i: int|
            if start <= i < start + bytes.len() {
                bytes[i - start]
            } else if i < io.len() {
                io[i]
            } else {
                0u8
            },
    )
}

/// Memory view after a window update for `space`.
pub open spec fn mem_window_applied(m: MemVMView, space: MemSpace, base: u16, bytes: Seq<u8>) -> MemVMView {
    let w = Some(MemWindowView { base, bytes });
    match space {
        MemSpace::Vram => MemVMView { vram_window: w, ..m },
        MemSpace::Wram => MemVMView { wram_window: w, ..m },
        MemSpace::Oam => MemVMView { oam_window: w, ..m },
        MemSpace::Io => MemVMView { io: io_patched(m.io, io_start(base), bytes), ..m },
    }
}

/// Copies a byte slice into a fresh vector.
fn bytes_to_vec(bytes: &[u8]) -> (r: Vec<u8>)
    ensures
        r@ == bytes@,
{
    let mut out: Vec<u8> = Vec::new();
    let mut i: usize = 0;
    while i < bytes.len()
        invariant
            i <= bytes@.len(),
            out@ == bytes@.subrange(0, i as int),
        decreases bytes@.len() - i,
    {
        out.push(bytes[i]);
        i = i + 1;
    }
    out
}

/// Writes `bytes` into `io` from slot `start`, growing it with zeros where needed.
fn patch_io(io: &mut Vec<u8>, start: usize, bytes: &[u8])
    requires
        start <= 0xFF,
        bytes@.len() + 0x100 <= usize::MAX,
    ensures
        final(io)@ == io_patched(old(io)@, start as int, bytes@),
{
    let ghost old_io = io@;
    if bytes.len() > 0 {
        let needed = start + bytes.len();
        while io.len() < needed
            invariant
                old_io.len() <= io@.len() <= if needed > old_io.len() { needed as int } else { old_io.len() as int },
                forall|i: int| 0 <= i < old_io.len() ==> #[trigger] io@[i] == old_io[i],
                forall|i: int| old_io.len() <= i < io@.len() ==> #[trigger] io@[i] == 0u8,
            decreases needed - io@.len(),
        {
            io.push(0);
        }
    }
    let ghost grown = io@;
    let mut idx: usize = 0;
    while idx < bytes.len()
        invariant
            idx <= bytes@.len(),
            start <= 0xFF,
            bytes@.len() + 0x100 <= usize::MAX,
            bytes@.len() > 0 ==> io@.len() >= start + bytes@.len(),
            io@.len() == grown.len(),
            forall|i: int|
                0 <= i < grown.len() ==> #[trigger] io@[i] == if start <= i < start + idx {
                    bytes@[i - start]
                } else {
                    grown[i]
                },
        decreases bytes@.len() - idx,
    {
        io.set(start + idx, bytes[idx]);
        idx = idx + 1;
    }
    assert(io@ =~= io_patched(old_io, start as int, bytes@));
}

impl MemVM {
    /// Apply a memory window update for the provided address space. VRAM,
    /// WRAM and OAM windows are replaced; IO bytes are written into the IO
    /// window from `base - 0xFF00`, growing it with zeros where needed.
    pub fn apply_window(&mut self, space: MemSpace, base: u16, bytes: &[u8])
        requires
            bytes@.len() + 0x100 <= usize::MAX,
        ensures
            final(self)@ == mem_window_applied(old(self)@, space, base, bytes@),
    {
        match space {
            MemSpace::Vram => {
                let v = bytes_to_vec(bytes);
                self.vram_window = Some(MemWindow { base, bytes: v });
                assert(window_view(self.vram_window) =~= Some(MemWindowView { base, bytes: bytes@ }));
            },
            MemSpace::Wram => {
                let v = bytes_to_vec(bytes);
                self.wram_window = Some(MemWindow { base, bytes: v });
                assert(window_view(self.wram_window) =~= Some(MemWindowView { base, bytes: bytes@ }));
            },
            MemSpace::Oam => {
                let v = bytes_to_vec(bytes);
                self.oam_window = Some(MemWindow { base, bytes: v });
                assert(window_view(self.oam_window) =~= Some(MemWindowView { base, bytes: bytes@ }));
            },
            MemSpace::Io => {
                let start: usize = if base >= 0xFF00 { (base - 0xFF00) as usize } else { 0 };
                patch_io(&mut self.io, start, bytes);
            },
        }
    }
}

impl Default for MemVM {
    fn default() -> (r: Self)
        ensures
            r@ == (MemVMView {
                io: Seq::new(0x80, |i: int| 0u8),
                vram_window: None,
                oam_window: None,
                wram_window: None,
            }),
    {
        let mut io: Vec<u8> = Vec::new();
        let mut i: usize = 0;
        while i < 0x80
            invariant
                i <= 0x80,
                io@ == Seq::new(i as nat, |k: int| 0u8),
            decreases 0x80 - i,
        {
            io.push(0);
            i = i + 1;
        }
        MemVM { io, vram_window: None, oam_window: None, wram_window: None }
    }
}

/// Aggregated performance counters from the world.
#[derive(Clone, Copy, Debug, PartialEq, Eq, Structural)]
pub struct PerfVM {
    /// Last frame identifier presented on the display lane.
    pub last_frame_id: u64,
    /// Total audio underruns observed since startup.
    pub audio_underruns: u64,
}

impl Default for PerfVM {
    fn default() -> (r: Self)
        ensures
            r.last_frame_id == 0 && r.audio_underruns == 0,
    {
        PerfVM { last_frame_id: 0, audio_underruns: 0 }
    }
}

/// Per-port transport counters.
#[derive(Clone, Copy, Debug, PartialEq, Eq, Structural)]
pub struct PortMetricsVM {
    /// Number of commands accepted.
    pub accepted: u32,
    /// Number of commands coalesced.
    pub coalesced: u32,
    /// Number of commands dropped.
    pub dropped: u32,
    /// Number of commands that would block.
    pub would_block: u32,
}

/// All port counters at zero.
pub open spec fn zero_metrics() -> PortMetricsVM {
    PortMetricsVM { accepted: 0, coalesced: 0, dropped: 0, would_block: 0 }
}

impl Default for PortMetricsVM {
    fn default() -> (r: Self)
        ensures
            r == zero_metrics(),
    {
        PortMetricsVM { accepted: 0, coalesced: 0, dropped: 0, would_block: 0 }
    }
}

/// Transport metrics tracked per service port.
#[derive(Clone, Copy, Debug, PartialEq, Eq, Structural)]
pub struct TransportVM {
    /// Kernel transport counters.
    pub kernel: PortMetricsVM,
    /// Filesystem transport counters.
    pub fs: PortMetricsVM,
    /// GPU transport counters.
    pub gpu: PortMetricsVM,
    /// Audio transport counters.
    pub audio: PortMetricsVM,
}

impl Default for TransportVM {
    fn default() -> (r: Self)
        ensures
            r.kernel == zero_metrics() && r.fs == zero_metrics() && r.gpu == zero_metrics()
                && r.audio == zero_metrics(),
    {
        TransportVM {
            kernel: PortMetricsVM::default(),
            fs: PortMetricsVM::default(),
            gpu: PortMetricsVM::default(),
            audio: PortMetricsVM::default(),
        }
    }
}

/// Inspector view-model shared across CLI, logfile, and web frontends.
#[derive(Clone, Debug, PartialEq, Eq)]
pub struct InspectorVM {
    /// CPU register and control state.
    pub cpu: CpuVM,
    /// PPU registers and raster state.
    pub ppu: PpuVM,
    /// Timer register snapshot.
    pub timers: TimersVM,
    /// Memory windows exposed to the front ends.
    pub mem: MemVM,
    /// Aggregated world performance counters.
    pub perf: PerfVM,
    /// Transport metrics for each service endpoint.
    pub transport: TransportVM,
    /// Last disassembly trace emitted by stepping.
    pub disasm: Option<TraceVM>,
}

impl View for InspectorVM {
    type V = InspectorView;

    open spec fn view(&self) -> InspectorView {
        InspectorView {
            cpu: self.cpu,
            ppu: self.ppu,
            timers: self.timers,
            mem: self.mem@,
            perf: self.perf,
            transport: self.transport,
            disasm: trace_view(self.disasm),
        }
    }
}

/// The zeroed view-model.
pub open spec fn inspector_initial() -> InspectorView {
    InspectorView {
        cpu: CpuVM {
            a: 0,
            f: 0,
            b: 0,
            c: 0,
            d: 0,
            e: 0,
            h: 0,
            l: 0,
            sp: 0,
            pc: 0,
            ime: false,
            halted: false,
        },
        ppu: PpuVM {
            ly: 0,
            mode: 0,
            stat: 0,
            lcdc: 0,
            scx: 0,
            scy: 0,
            wy: 0,
            wx: 0,
            bgp: 0,
            frame_ready: false,
        },
        timers: TimersVM { div: 0, tima: 0, tma: 0, tac: 0 },
        mem: MemVMView { io: Seq::new(0x80, |i: int| 0u8), vram_window: None, oam_window: None, wram_window: None },
        perf: PerfVM { last_frame_id: 0, audio_underruns: 0 },
        transport: TransportVM {
            kernel: zero_metrics(),
            fs: zero_metrics(),
            gpu: zero_metrics(),
            audio: zero_metrics(),
        },
        disasm: None,
    }
}

/// View-model after a kernel snapshot: CPU, PPU and timers replaced and the
/// IO window refilled from the snapshot.
pub open spec fn snapshot_applied(v: InspectorView, s: InspectorVMMinimal) -> InspectorView {
    InspectorView {
        cpu: s.cpu,
        ppu: s.ppu,
        timers: s.timers,
        mem: MemVMView { io: snapshot_io(s.io@), ..v.mem },
        ..v
    }
}

/// View-model after a debug report.
pub open spec fn debug_rep_applied(v: InspectorView, rep: DebugRep) -> InspectorView {
    match rep {
        DebugRep::Snapshot(s) => snapshot_applied(v, s),
        DebugRep::MemWindow { space, base, bytes } => InspectorView {
            mem: mem_window_applied(v.mem, space, base, bytes@),
            ..v
        },
        DebugRep::Stepped { kind, cycles, pc, disasm } => InspectorView {
            disasm: Some(
                TraceView {
                    last_pc: pc,
                    disasm_line: match disasm {
                        Some(s) => s@,
                        None => Seq::<char>::empty(),
                    },
                    cycles,
                },
            ),
            ..v
        },
    }
}

impl Default for InspectorVM {
    fn default() -> (r: Self)
        ensures
            r@ == inspector_initial(),
    {
        InspectorVM {
            cpu: CpuVM {
                a: 0,
                f: 0,
                b: 0,
                c: 0,
                d: 0,
                e: 0,
                h: 0,
                l: 0,
                sp: 0,
                pc: 0,
                ime: false,
                halted: false,
            },
            ppu: PpuVM {
                ly: 0,
                mode: 0,
                stat: 0,
                lcdc: 0,
                scx: 0,
                scy: 0,
                wy: 0,
                wx: 0,
                bgp: 0,
                frame_ready: false,
            },
            timers: TimersVM { div: 0, tima: 0, tma: 0, tac: 0 },
            mem: MemVM::default(),
            perf: PerfVM::default(),
            transport: TransportVM::default(),
            disasm: None,
        }
    }
}

impl InspectorVM {
    /// Construct a new inspector view-model with zeroed state.
    pub fn new() -> (r: Self)
        ensures
            r@ == inspector_initial(),
    {
        Self::default()
    }

    /// Applies a minimal snapshot emitted by the kernel.
    pub fn apply_snapshot(&mut self, snapshot: &InspectorVMMinimal)
        ensures
            final(self)@ == snapshot_applied(old(self)@, *snapshot),
    {
        self.cpu = snapshot.cpu;
        self.ppu = snapshot.ppu;
        self.timers = snapshot.timers;
        let mut io: Vec<u8> = Vec::new();
        let mut i: usize = 0;
        while i < 0x80
            invariant
                i <= 0x80,
                io@ == snapshot_io(snapshot.io@).subrange(0, i as int),
            decreases 0x80 - i,
        {
            let b: u8 = if i < snapshot.io.len() { snapshot.io[i] } else { 0 };
            io.push(b);
            i = i + 1;
        }
        self.mem.io = io;
    }

    /// Applies a debug report payload to the view-model.
    pub fn apply_debug_rep(&mut self, rep: &DebugRep)
        requires
            rep matches DebugRep::MemWindow { bytes, .. } ==> bytes@.len() + 0x100 <= usize::MAX,
        ensures
            final(self)@ == debug_rep_applied(old(self)@, *rep),
    {
        match rep {
            DebugRep::Snapshot(snapshot) => self.apply_snapshot(snapshot),
            DebugRep::MemWindow { space, base, bytes } => {
                self.mem.apply_window(*space, *base, bytes.as_slice());
            },
            DebugRep::Stepped { kind, cycles, pc, disasm } => {
                let line = match disasm {
                    Some(s) => s.clone(),
                    None => String::new(),
                };
                self.disasm = Some(TraceVM { last_pc: *pc, disasm_line: line, cycles: *cycles });
            },
        }
    }
}

} // verus!
