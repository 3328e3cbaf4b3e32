//! Round-trip coverage for the kernel codec: commands and reports through
//! their wire schema and back.

use gbx::codecs::{CodecError, KernelCodec, FsCodec, GpuCodec, AudioCodec};
use gbx::schema::{Envelope, PortClass, SCHEMA_VERSION_V1, TAG_KERNEL_CMD, TAG_KERNEL_REP, TAG_FS_CMD};
use gbx::service_abi::{
    AudioCmd, AudioRep, AudioSpan, CpuVM, DebugCmd, DebugRep, FrameSpan, FsCmd, FsRep, GpuCmd, GpuRep,
    InspectorVMMinimal, KernelCmd, KernelRep, MemSpace, PpuVM, SlotSpan, StepKind, TickPurpose, TimersVM,
};

fn roundtrip_cmd(cmd: KernelCmd) {
    let codec = KernelCodec;
    let encoded = codec.encode_cmd(&cmd).expect("encode");
    assert_eq!(port_class_for(&cmd), encoded.class, "port class mismatch");
    let decoded = codec
        .decode_cmd(encoded.envelope, &encoded.message)
        .expect("decode");
    assert_eq!(cmd, decoded);
}

fn roundtrip_rep(rep: KernelRep) {
    let codec = KernelCodec;
    let encoded = codec.encode_rep(&rep).expect("encode");
    let decoded = codec
        .decode_rep(encoded.envelope, &encoded.message)
        .expect("decode");
    assert_eq!(rep, decoded);
}

fn port_class_for(cmd: &KernelCmd) -> PortClass {
    match cmd {
        KernelCmd::Tick { .. } => PortClass::Coalesce,
        KernelCmd::LoadRom { .. } => PortClass::Lossless,
        KernelCmd::SetInputs { .. } => PortClass::Lossless,
        KernelCmd::Terminate { .. } => PortClass::Lossless,
        KernelCmd::Debug(DebugCmd::Snapshot { .. }) => PortClass::Coalesce,
        KernelCmd::Debug(_) => PortClass::Lossless,
    }
}

#[test]
fn debug_cmds_roundtrip() {
    roundtrip_cmd(KernelCmd::Debug(DebugCmd::Snapshot { group: 7 }));
    roundtrip_cmd(KernelCmd::Debug(DebugCmd::MemWindow {
        group: 3,
        space: MemSpace::Vram,
        base: 0x8123,
        len: 0x20,
    }));
    roundtrip_cmd(KernelCmd::Debug(DebugCmd::StepInstruction {
        group: 1,
        count: 17,
    }));
    roundtrip_cmd(KernelCmd::Debug(DebugCmd::StepFrame { group: 9 }));
}

#[test]
fn debug_reps_roundtrip() {
    let snapshot = DebugRep::Snapshot(InspectorVMMinimal {
        cpu: CpuVM {
            a: 0x12,
            f: 0xB0,
            b: 0x01,
            c: 0x02,
            d: 0x03,
            e: 0x04,
            h: 0x05,
            l: 0x06,
            sp: 0xC000,
            pc: 0x0100,
            ime: true,
            halted: false,
        },
        ppu: PpuVM {
            ly: 0x90,
            mode: 1,
            stat: 0x85,
            lcdc: 0x91,
            scx: 0x10,
            scy: 0x20,
            wy: 0x00,
            wx: 0x07,
            bgp: 0xE4,
            frame_ready: true,
        },
        timers: TimersVM {
            div: 0x12,
            tima: 0x34,
            tma: 0x56,
            tac: 0x07,
        },
        io: vec![0xAA; 0x80],
    });

    let mem_window = DebugRep::MemWindow {
        space: MemSpace::Oam,
        base: 0xFE00,
        bytes: vec![0x01, 0x02, 0x03, 0x04],
    };

    let stepped = DebugRep::Stepped {
        kind: StepKind::Instruction,
        cycles: 12,
        pc: 0x1234,
        disasm: Some("NOP".to_string()),
    };

    roundtrip_rep(KernelRep::Debug(snapshot));
    roundtrip_rep(KernelRep::Debug(mem_window));
    roundtrip_rep(KernelRep::Debug(stepped));
}

#[test]
fn legacy_non_debug_roundtrip() {
    let cmd = KernelCmd::Tick {
        group: 0,
        purpose: TickPurpose::Display,
        budget: 10,
    };
    let codec = KernelCodec;
    let encoded = codec.encode_cmd(&cmd).expect("encode");
    let decoded = codec
        .decode_cmd(encoded.envelope, &encoded.message)
        .expect("decode");
    assert!(matches!(decoded, KernelCmd::Tick { .. }));

    roundtrip_cmd(KernelCmd::Terminate { group: 4 });

    let rep = KernelRep::TickDone {
        group: 0,
        lanes_mask: 1,
        cycles_done: 101,
    };
    let encoded = codec.encode_rep(&rep).expect("encode");
    let decoded = codec
        .decode_rep(encoded.envelope, &encoded.message)
        .expect("decode");
    assert!(matches!(decoded, KernelRep::TickDone { .. }));
}

#[test]
fn envelope_metadata_is_preserved() {
    let cmd = KernelCmd::Debug(DebugCmd::StepFrame { group: 2 });
    let codec = KernelCodec;
    let encoded = codec.encode_cmd(&cmd).expect("encode");
    assert_eq!(TAG_KERNEL_CMD, encoded.envelope.tag);
    assert_eq!(SCHEMA_VERSION_V1, encoded.envelope.ver);

    let decoded = codec
        .decode_cmd(encoded.envelope, &encoded.message)
        .expect("decode");
    assert_eq!(cmd, decoded);
}

#[test]
fn debug_rep_contains_trace_defaults() {
    let rep = KernelRep::Debug(DebugRep::Stepped {
        kind: StepKind::Frame,
        cycles: 70_224,
        pc: 0x2000,
        disasm: None,
    });
    let codec = KernelCodec;
    let encoded = codec.encode_rep(&rep).expect("encode");
    let decoded = codec
        .decode_rep(encoded.envelope, &encoded.message)
        .expect("decode");
    assert_eq!(rep, decoded);
}

#[test]
fn tick_and_rom_load_lose_their_group_on_the_wire() {
    let codec = KernelCodec;
    let cmd = KernelCmd::Tick { group: 5, purpose: TickPurpose::Exploration, budget: 99 };
    let encoded = codec.encode_cmd(&cmd).unwrap();
    assert_eq!(encoded.class, PortClass::BestEffort);
    let decoded = codec.decode_cmd(encoded.envelope, &encoded.message).unwrap();
    assert_eq!(decoded, KernelCmd::Tick { group: 0, purpose: TickPurpose::Exploration, budget: 99 });

    let cmd = KernelCmd::LoadRom { group: 3, bytes: vec![1, 2, 3] };
    let encoded = codec.encode_cmd(&cmd).unwrap();
    let decoded = codec.decode_cmd(encoded.envelope, &encoded.message).unwrap();
    assert_eq!(decoded, KernelCmd::LoadRom { group: 0, bytes: vec![1, 2, 3] });

    let cmd = KernelCmd::SetInputs { group: 2, lanes_mask: 0xFFFF_FFFF, joypad: 0xEF };
    roundtrip_cmd(cmd);
}

#[test]
fn wrong_tag_and_version_are_refused() {
    let codec = KernelCodec;
    let encoded = codec.encode_cmd(&KernelCmd::Terminate { group: 1 }).unwrap();
    let bad_tag = Envelope { tag: TAG_KERNEL_REP, ver: SCHEMA_VERSION_V1 };
    assert_eq!(
        codec.decode_cmd(bad_tag, &encoded.message),
        Err(CodecError::UnexpectedTag { tag: TAG_KERNEL_REP, expected: TAG_KERNEL_CMD })
    );
    let bad_ver = Envelope { tag: TAG_KERNEL_CMD, ver: SCHEMA_VERSION_V1 + 1 };
    assert_eq!(
        codec.decode_cmd(bad_ver, &encoded.message),
        Err(CodecError::VersionMismatch { ver: SCHEMA_VERSION_V1 + 1, expected: SCHEMA_VERSION_V1 })
    );
}

#[test]
fn thumbnails_have_no_wire_form() {
    let codec = KernelCodec;
    let rep = KernelRep::DroppedThumb { group: 1, count: 3 };
    assert_eq!(codec.encode_rep(&rep).err(), Some(CodecError::Unsupported));
}

#[test]
fn frames_and_audio_come_back_with_wire_defaults() {
    let codec = KernelCodec;
    let rep = KernelRep::LaneFrame {
        group: 4,
        lane: 2,
        span: FrameSpan {
            width: 10,
            height: 10,
            pixels: vec![7, 8, 9],
            slot_span: Some(SlotSpan { start_idx: 3, count: 1 }),
        },
        frame_id: 42,
    };
    let encoded = codec.encode_rep(&rep).unwrap();
    assert_eq!(encoded.class, PortClass::Lossless);
    let decoded = codec.decode_rep(encoded.envelope, &encoded.message).unwrap();
    assert_eq!(
        decoded,
        KernelRep::LaneFrame {
            group: 0,
            lane: 2,
            span: FrameSpan {
                width: 160,
                height: 144,
                pixels: vec![7, 8, 9],
                slot_span: Some(SlotSpan { start_idx: 3, count: 1 }),
            },
            frame_id: 42,
        }
    );

    let rep = KernelRep::AudioReady {
        group: 6,
        span: AudioSpan { samples: vec![1, 2], channels: 1, sample_rate_hz: 8000, slot_span: None },
    };
    let encoded = codec.encode_rep(&rep).unwrap();
    let decoded = codec.decode_rep(encoded.envelope, &encoded.message).unwrap();
    assert_eq!(decoded, KernelRep::AudioReady { group: 6, span: AudioSpan::empty() });

    let rep = KernelRep::RomLoaded { group: 1, bytes_len: 0x8000 };
    let encoded = codec.encode_rep(&rep).unwrap();
    let decoded = codec.decode_rep(encoded.envelope, &encoded.message).unwrap();
    assert_eq!(decoded, KernelRep::RomLoaded { group: 0, bytes_len: 0x8000 });
}

#[test]
fn snapshot_reports_travel_on_the_coalescing_port() {
    let codec = KernelCodec;
    let rep = KernelRep::Debug(DebugRep::MemWindow { space: MemSpace::Io, base: 0xFF00, bytes: vec![] });
    assert_eq!(codec.encode_rep(&rep).unwrap().class, PortClass::Lossless);
}

#[test]
fn service_codecs_roundtrip() {
    let fs = FsCodec;
    let cmd = FsCmd::Persist { path: "saves/manual-save".to_string(), bytes: vec![1, 2] };
    let encoded = fs.encode_cmd(&cmd).unwrap();
    assert_eq!(encoded.envelope.tag, TAG_FS_CMD);
    assert_eq!(fs.decode_cmd(encoded.envelope, &encoded.message).unwrap(), cmd);
    let rep = FsRep::Saved { path: "a".to_string(), ok: false };
    let encoded = fs.encode_rep(&rep).unwrap();
    assert_eq!(fs.decode_rep(encoded.envelope, &encoded.message).unwrap(), rep);

    let gpu = GpuCodec;
    let cmd = GpuCmd::UploadFrame { lane: 3, span: FrameSpan::empty() };
    let encoded = gpu.encode_cmd(&cmd).unwrap();
    assert_eq!(gpu.decode_cmd(encoded.envelope, &encoded.message).unwrap(), cmd);
    let rep = GpuRep::FrameShown { lane: 1, frame_id: 9 };
    let encoded = gpu.encode_rep(&rep).unwrap();
    assert_eq!(gpu.decode_rep(encoded.envelope, &encoded.message).unwrap(), rep);

    let audio = AudioCodec;
    let cmd = AudioCmd::Submit { span: AudioSpan { samples: vec![0; 10], channels: 2, sample_rate_hz: 48_000, slot_span: None } };
    let encoded = audio.encode_cmd(&cmd).unwrap();
    assert_eq!(encoded.message, gbx::schema::AudioCmdV1::SubmitSamples { frames: 5 });
    assert_eq!(audio.decode_cmd(encoded.envelope, &encoded.message).unwrap(), AudioCmd::Submit { span: AudioSpan::empty() });
    let rep = AudioRep::Played { frames: 480 };
    let encoded = audio.encode_rep(&rep).unwrap();
    assert_eq!(audio.decode_rep(encoded.envelope, &encoded.message).unwrap(), rep);
    let encoded = audio.encode_rep(&AudioRep::Underrun).unwrap();
    assert_eq!(audio.decode_rep(encoded.envelope, &encoded.message).unwrap(), AudioRep::Underrun);
}
