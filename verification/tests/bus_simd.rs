use gbx::bus::{InterruptCtrl, SerialIo};
use gbx::bus_simd::BusSimd;
use gbx::timers::TimerIo;

fn blank_rom() -> Vec<u8> {
    vec![0u8; 0x8000]
}

#[test]
fn lanes_start_identical_and_count_matches() {
    let mut bus = BusSimd::<4>::new(blank_rom());
    assert_eq!(bus.lane_count(), 4);
    let bytes = bus.read8(&[0xC000; 4]);
    assert_eq!(bytes, vec![0, 0, 0, 0]);
    assert_eq!(bus.read_ie(), 0);
}

#[test]
fn memory_accesses_go_lane_by_lane() {
    let mut bus = BusSimd::<4>::new(blank_rom());
    bus.write8(&[0xC000, 0xC001, 0xC002, 0xC003], &[1, 2, 3, 4]);
    assert_eq!(bus.read8(&[0xC000, 0xC001, 0xC002, 0xC003]), vec![1, 2, 3, 4]);
    assert_eq!(bus.read8(&[0xC000; 4]), vec![1, 0, 0, 0]);
}

#[test]
fn register_writes_reach_every_lane() {
    let mut bus = BusSimd::<2>::new(blank_rom());
    bus.write_tima(0x42);
    bus.write_if(0x01);
    assert_eq!(bus.read_tima(), 0x42);
    assert_eq!(TimerIo::read_tima(bus.lane(1)), 0x42);
    assert_eq!(bus.read_if(), 0xE1);
    assert_eq!(TimerIo::read_if(bus.lane(1)), 0xE1);
}

#[test]
fn latched_timer_writes_come_from_the_first_lane_that_has_one() {
    let mut bus = BusSimd::<4>::new(blank_rom());
    bus.write8(&[0xC000, 0xFF05, 0xFF05, 0xC000], &[0, 7, 9, 0]);
    assert_eq!(bus.take_tima_write(), Some(7));
    assert_eq!(bus.take_tima_write(), None);
    assert!(!bus.take_div_reset());
}

#[test]
fn lane_mut_changes_one_lane_only() {
    let mut bus = BusSimd::<2>::new(blank_rom());
    bus.lane_mut(1).ie = 0x1F;
    assert_eq!(bus.lane(1).ie, 0x1F);
    assert_eq!(bus.read_ie(), 0);
    bus.step_serial(4);
    bus.set_inputs(0xEF);
    assert_eq!(bus.lane(0).joyp_buttons, 0x0E);
    assert_eq!(bus.lane(1).joyp_buttons, 0x0E);
}
