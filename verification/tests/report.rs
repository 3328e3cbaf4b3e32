use gbx::inspector_vm::{InspectorVM, MemVM, PerfVM, PortMetricsVM, TransportVM};
use gbx::report::{hexdump, parse_u16, parse_u32, snapshot, step_frame, step_instruction};

fn sample_vm() -> InspectorVM {
    let mut vm = InspectorVM::default();
    vm.cpu.a = 0x12;
    vm.cpu.f = 0xB0;
    vm.cpu.sp = 0xC000;
    vm.cpu.pc = 0x0200;
    vm.cpu.ime = true;
    vm.ppu.mode = 1;
    vm.ppu.lcdc = 0x91;
    vm.ppu.stat = 0x85;
    vm.timers.div = 0x12;
    vm.timers.tima = 0x34;
    vm.mem = MemVM::default();
    vm.perf = PerfVM {
        last_frame_id: 7,
        audio_underruns: 1,
    };
    vm.transport = TransportVM {
        kernel: PortMetricsVM {
            accepted: 1,
            coalesced: 2,
            dropped: 3,
            would_block: 4,
        },
        ..TransportVM::default()
    };
    vm
}

#[test]
fn snapshot_render_matches_expectation() {
    assert_eq!(
        snapshot(&sample_vm()),
        "Registers: AF=12B0 BC=0000 DE=0000 HL=0000\n\
         SP=C000 PC=0200 IME=1 HALT=0\n\
         PPU: LY=00 MODE=1 LCDC=91 STAT=85\n\
         Timers: DIV=12 TIMA=34 TMA=00 TAC=00\n"
    );
}

#[test]
fn hexdump_render_matches_expectation() {
    let bytes = [0x00u8, 0x11, 0x22, 0x33, 0x44];
    let expected = format!("8000: 00 11 22 33 44 {}\n", "   ".repeat(11));
    assert_eq!(hexdump(0x8000, &bytes), expected);
}

#[test]
fn step_instruction_render_matches_expectation() {
    assert_eq!(
        step_instruction(3, 12, 0x0150),
        "Stepped 3 instruction(s) -> PC=0150 cycles=12\n"
    );
}

#[test]
fn step_frame_render_reports_pc_and_cycles() {
    assert_eq!(
        step_frame(70224, 0xC3A0),
        "Advanced one frame -> PC=C3A0 cycles=70224\n"
    );
}

#[test]
fn hexdump_of_empty_window_prints_the_address_alone() {
    assert_eq!(hexdump(0xFF00, &[]), "FF00: \n");
}

#[test]
fn hexdump_wraps_addresses_and_splits_lines() {
    let bytes: Vec<u8> = (0u8..17).collect();
    let out = hexdump(0xFFF8, &bytes);
    let lines: Vec<&str> = out.lines().collect();
    assert_eq!(lines.len(), 2);
    assert_eq!(
        lines[0],
        "FFF8: 00 01 02 03 04 05 06 07 08 09 0A 0B 0C 0D 0E 0F "
    );
    assert_eq!(lines[1], format!("0008: 10 {}", "   ".repeat(15)));
}

#[test]
fn parse_numbers_in_decimal_and_hex() {
    assert_eq!(parse_u16("0x8000"), Ok(0x8000));
    assert_eq!(parse_u16("0xffFF"), Ok(0xFFFF));
    assert_eq!(parse_u16("160"), Ok(160));
    assert_eq!(parse_u16("+7"), Ok(7));
    assert_eq!(parse_u32("4294967295"), Ok(u32::MAX));
    assert_eq!(parse_u32("0x10"), Ok(16));
}

#[test]
fn parse_numbers_reject_malformed_or_large_input() {
    assert_eq!(parse_u16("65536"), Err("invalid number '65536'".to_string()));
    assert_eq!(parse_u16("0x10000"), Err("invalid hex value '0x10000'".to_string()));
    assert_eq!(parse_u16("0xg"), Err("invalid hex value '0xg'".to_string()));
    assert_eq!(parse_u16(""), Err("invalid number ''".to_string()));
    assert_eq!(parse_u16("+"), Err("invalid number '+'".to_string()));
    assert_eq!(parse_u16("-1"), Err("invalid number '-1'".to_string()));
    assert_eq!(parse_u16("0X10"), Err("invalid number '0X10'".to_string()));
    assert_eq!(parse_u32("4294967296"), Err("invalid number '4294967296'".to_string()));
    assert_eq!(parse_u32("0x"), Err("invalid hex value '0x'".to_string()));
}
