//! The lane-parallel execution backend: per-lane ALU results, flags from the
//! whole vector (Z) or lane 0 (H, C), masks and word packing.

use gbx::exec::{Exec, Flags, MaskValue};
use gbx::exec_simd::{LaneMask, SimdExec};

#[test]
fn simd_add8_adds_lane_by_lane_with_flags_from_lane_zero() {
    let mut f = Flags::new();
    let r = SimdExec::<4>::add8([0x0F, 0xFF, 0x10, 0x00], [0x01, 0x01, 0x20, 0x00], false, &mut f);
    assert_eq!(r, [0x10, 0x00, 0x30, 0x00]);
    assert!(f.h && !f.c && !f.z && !f.n);

    let r = SimdExec::<4>::add8([0xFF; 4], [0x01; 4], false, &mut f);
    assert_eq!(r, [0x00; 4]);
    assert!(f.z && f.h && f.c && !f.n);

    let r = SimdExec::<2>::add8([0x10, 0x20], [0x20, 0x30], true, &mut f);
    assert_eq!(r, [0x31, 0x51]);
}

#[test]
fn simd_sub8_subtracts_lane_by_lane_with_borrow_flags() {
    let mut f = Flags::new();
    let r = SimdExec::<2>::sub8([0x10, 0x05], [0x01, 0x05], false, &mut f);
    assert_eq!(r, [0x0F, 0x00]);
    assert!(f.n && f.h && !f.c && !f.z);
    let r = SimdExec::<2>::sub8([0x00, 0x00], [0x01, 0x00], false, &mut f);
    assert_eq!(r, [0xFF, 0x00]);
    assert!(f.c && !f.z);
    SimdExec::<2>::sub8([0x05, 0x07], [0x05, 0x07], false, &mut f);
    assert!(f.z);
}

#[test]
fn simd_bitwise_and_masks_work_per_lane() {
    assert_eq!(SimdExec::<4>::and([0xF0, 0x0F, 0xFF, 0], [0xFF, 0xF0, 0x3C, 1]), [0xF0, 0x00, 0x3C, 0]);
    assert_eq!(SimdExec::<2>::or([0xF0, 0x01], [0x0F, 0x02]), [0xFF, 0x03]);
    assert_eq!(SimdExec::<2>::xor([0xFF, 0x0F], [0x0F, 0x0F]), [0xF0, 0x00]);

    let mask = SimdExec::<4>::eq8([1, 2, 3, 4], [1, 0, 3, 0]);
    assert_eq!(mask.into_inner(), [true, false, true, false]);
    assert!(mask.lane(0) && !mask.lane(1));
    assert_eq!(SimdExec::<4>::select8(mask, [9; 4], [7; 4]), [9, 7, 9, 7]);
    assert!(mask.to_bool());
    assert_eq!(LaneMask::<4>::from_bool(true).into_inner(), [true; 4]);
    assert_eq!(LaneMask::<4>::false_mask(), LaneMask::new([false; 4]));
    assert_eq!(LaneMask::<8>::true_mask().into_inner(), [true; 8]);
}

#[test]
fn simd_words_pack_and_unpack_per_lane() {
    let w = SimdExec::<2>::combine_u16([0x12, 0xAB], [0x34, 0xCD]);
    assert_eq!(w, [0x1234, 0xABCD]);
    assert_eq!(SimdExec::<2>::split_u16(w), ([0x12, 0xAB], [0x34, 0xCD]));
    assert_eq!(SimdExec::<8>::from_u8(0x42), [0x42; 8]);
    assert_eq!(SimdExec::<4>::from_u16(0xBEEF), [0xBEEF; 4]);
    assert_eq!(SimdExec::<2>::to_u8([5, 6]), 5);
    assert_eq!(SimdExec::<2>::to_u16([0x1111, 0x2222]), 0x1111);
}

#[test]
fn uniform_lanes_give_the_scalar_flags() {
    use_scalar_and_lanes(0x3A, 0xC6, false);
    use_scalar_and_lanes(0x0F, 0x01, true);
    use_scalar_and_lanes(0x00, 0x01, false);
}

fn use_scalar_and_lanes(x: u8, y: u8, carry: bool) {
    let mut fs = Flags::new();
    let mut fl = Flags::new();
    let s = gbx::exec::Scalar::add8(x, y, carry, &mut fs);
    let l = SimdExec::<4>::add8([x; 4], [y; 4], carry, &mut fl);
    assert_eq!(l, [s; 4]);
    assert_eq!(fl, fs);
    let s = gbx::exec::Scalar::sub8(x, y, carry, &mut fs);
    let l = SimdExec::<4>::sub8([x; 4], [y; 4], carry, &mut fl);
    assert_eq!(l, [s; 4]);
    assert_eq!(fl, fs);
}
