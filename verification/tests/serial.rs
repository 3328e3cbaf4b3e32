//! Serial link timing: internal clock transfers, external clock waits and
//! retriggers during a transfer.

use gbx::bus::BusScalar;

const SERIAL_STEP_CYCLES: u32 = 512;
const FIRST_BIT_CYCLES: u32 = SERIAL_STEP_CYCLES;

fn make_bus() -> BusScalar {
    BusScalar::new(vec![0u8; 0x8000], None)
}

#[test]
fn serial_internal_transfer_ticks_every_512_cycles() {
    let mut bus = make_bus();
    bus.io.write(BusScalar::io_sb_index(), b'A');
    bus.write_serial_control(0x81);

    assert!(bus.serial_active);
    assert!(bus.serial_internal_clock);
    assert_eq!(bus.serial_bits_remaining, 8);

    bus.advance_serial(FIRST_BIT_CYCLES - 1);
    assert_eq!(bus.serial_bits_remaining, 8);
    assert_eq!(bus.io.read(BusScalar::io_sb_index()), b'A');
    assert_eq!(bus.io.sc_raw() & 0x80, 0x80);

    bus.advance_serial(1);
    assert_eq!(bus.serial_bits_remaining, 7);
    assert_eq!(bus.io.sc_raw() & 0x80, 0x80);

    for _ in 0..6 {
        bus.advance_serial(SERIAL_STEP_CYCLES);
    }
    assert_eq!(bus.serial_bits_remaining, 1);

    bus.advance_serial(SERIAL_STEP_CYCLES);

    assert!(!bus.serial_active);
    assert_eq!(bus.io.sc_raw() & 0x80, 0);
    assert_ne!(bus.io.if_reg() & 0x08, 0);
    assert_eq!(bus.io.read(BusScalar::io_sb_index()), 0xFF);
    assert_eq!(bus.take_serial(), "A");
}

#[test]
fn serial_external_clock_waits_for_remote_partner() {
    let mut bus = make_bus();
    bus.io.write(BusScalar::io_sb_index(), b'B');
    bus.write_serial_control(0x80);

    assert!(bus.serial_active);
    assert!(!bus.serial_internal_clock);
    assert_eq!(bus.serial_bits_remaining, 8);

    bus.advance_serial(SERIAL_STEP_CYCLES * 8);

    assert!(bus.serial_active);
    assert_eq!(bus.serial_bits_remaining, 8);
    assert_eq!(bus.io.sc_raw() & 0x80, 0x80);
    assert_eq!(bus.io.if_reg() & 0x08, 0);
    assert!(bus.serial_out.is_empty());
    assert_eq!(bus.io.read(BusScalar::io_sb_index()), b'B');
}

#[test]
fn serial_retrigger_during_active_transfer_is_ignored() {
    let mut bus = make_bus();
    bus.io.write(BusScalar::io_sb_index(), b'C');
    bus.write_serial_control(0x81);
    bus.advance_serial(SERIAL_STEP_CYCLES);

    assert_eq!(bus.serial_bits_remaining, 7);

    bus.write_serial_control(0x81);

    assert_eq!(bus.serial_bits_remaining, 7);
    assert!(bus.serial_active);
}

#[test]
fn serial_transfer_completes_in_one_call_of_4096_cycles() {
    let mut bus = make_bus();
    bus.io.write(BusScalar::io_sb_index(), b'Z');
    bus.write_serial_control(0x81);
    bus.advance_serial(4095);
    assert!(bus.serial_active);
    assert_eq!(bus.serial_bits_remaining, 1);
    bus.advance_serial(1);
    assert!(!bus.serial_active);
    assert_eq!(bus.io.read(BusScalar::io_sb_index()), 0xFF);
    assert_eq!(bus.take_serial(), "Z");
}

#[test]
fn serial_log_decodes_utf8_and_empties_the_buffer() {
    let mut bus = make_bus();
    bus.serial_out = vec![0x4F, 0x4B, 0xC3, 0xA9];
    assert_eq!(bus.take_serial(), "OK\u{e9}");
    assert_eq!(bus.take_serial(), "");
}
