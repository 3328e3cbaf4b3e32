//! Lane-parallel execution backend: `LANES` Game Boy instances run side by
//! side, every byte, word and flag element holding one value per lane.
use vstd::prelude::*;
use crate::exec::{add8_flags, add8_value, sub8_flags, sub8_value, Exec, Flags, MaskValue, Scalar};

verus! {

/// Per-lane flag mask of the lane-parallel backend.
#[derive(Clone, Copy, Debug, PartialEq, Eq)]
pub struct LaneMask<const LANES: usize> {
    inner: [bool; LANES],
}

impl<const LANES: usize> View for LaneMask<LANES> {
    type V = Seq<bool>;

    closed spec fn view(&self) -> Seq<bool> {
        self.inner@
    }
}

impl<const LANES: usize> LaneMask<LANES> {
    /// A mask with the given per-lane values.
    pub fn new(inner: [bool; LANES]) -> (r: Self)
        ensures
            r@ == inner@,
    {
        LaneMask { inner }
    }

    /// The per-lane values.
    pub fn into_inner(self) -> (r: [bool; LANES])
        ensures
            r@ == self@,
    {
        self.inner
    }

    /// The value of lane `lane`.
    pub fn lane(&self, lane: usize) -> (r: bool)
        requires
            lane < LANES,
        ensures
            r == self@[lane as int],
    {
        self.inner[lane]
    }
}

/// Every lane holds `v`.
pub open spec fn all_lanes<T>(s: Seq<T>, v: T) -> bool {
    forall|i: int| 0 <= i < s.len() ==> s[i] == v
}

/// Lane 0 of `s`, or `none` when there are no lanes.
pub open spec fn first_lane<T>(s: Seq<T>, none: T) -> T {
    if s.len() > 0 {
        s[0]
    } else {
        none
    }
}

impl<const LANES: usize> MaskValue for LaneMask<LANES> {
    fn false_mask() -> (r: Self)
        ensures
            all_lanes(r@, false),
    {
        LaneMask { inner: [false; LANES] }
    }

    fn true_mask() -> (r: Self)
        ensures
            all_lanes(r@, true),
    {
        LaneMask { inner: [true; LANES] }
    }

    fn to_bool(self) -> (r: bool)
        ensures
            r == first_lane(self@, false),
    {
        if LANES == 0 {
            false
        } else {
            self.inner[0]
        }
    }

    fn from_bool(value: bool) -> (r: Self)
        ensures
            all_lanes(r@, value),
    {
        LaneMask { inner: [value; LANES] }
    }
}

/// Byte-wise operation applied lane by lane.
#[derive(Clone, Copy)]
enum LaneOp {
    And,
    Or,
    Xor,
    Add(bool),
    Sub(bool),
}

spec fn lane_op_value(op: LaneOp, a: u8, b: u8) -> u8 {
    match op {
        LaneOp::And => a & b,
        LaneOp::Or => a | b,
        LaneOp::Xor => a ^ b,
        LaneOp::Add(carry) => add8_value(a, b, carry),
        LaneOp::Sub(borrow) => sub8_value(a, b, borrow),
    }
}

fn lane_op_byte(op: LaneOp, a: u8, b: u8) -> (r: u8)
    ensures
        r == lane_op_value(op, a, b),
{
    let mut f = Flags::new();
    match op {
        LaneOp::And => a & b,
        LaneOp::Or => a | b,
        LaneOp::Xor => a ^ b,
        LaneOp::Add(carry) => Scalar::add8(a, b, carry, &mut f),
        LaneOp::Sub(borrow) => Scalar::sub8(a, b, borrow, &mut f),
    }
}

fn zip_lanes<const LANES: usize>(op: LaneOp, a: [u8; LANES], b: [u8; LANES]) -> (r: [u8; LANES])
    ensures
        forall|i: int| 0 <= i < LANES ==> #[trigger] r@[i] == lane_op_value(op, a@[i], b@[i]),
{
    let mut out = a;
    let mut i: usize = 0;
    while i < LANES
        invariant
            i <= LANES,
            forall|j: int| 0 <= j < i ==> #[trigger] out@[j] == lane_op_value(op, a@[j], b@[j]),
        decreases LANES - i,
    {
        let v = lane_op_byte(op, a[i], b[i]);
        out.set(i, v);
        i += 1;
    }
    out
}

fn all_zero<const LANES: usize>(v: &[u8; LANES]) -> (r: bool)
    ensures
        r == all_lanes(v@, 0u8),
{
    let mut i: usize = 0;
    while i < LANES
        invariant
            i <= LANES,
            forall|j: int| 0 <= j < i ==> v@[j] == 0u8,
        decreases LANES - i,
    {
        if v[i] != 0 {
            return false;
        }
        i += 1;
    }
    true
}

/// Flags of a lane-parallel addition: Z when every lane's sum is zero, N
/// clear, H and C those of lane 0.
pub open spec fn lanes_add8_flags(a: Seq<u8>, b: Seq<u8>, carry: bool) -> Flags {
    Flags {
        z: forall|i: int| 0 <= i < a.len() ==> add8_value(a[i], b[i], carry) == 0,
        n: false,
        h: a.len() > 0 && add8_flags(a[0], b[0], carry).h,
        c: a.len() > 0 && add8_flags(a[0], b[0], carry).c,
    }
}

/// Flags of a lane-parallel subtraction: Z when every lane's difference is
/// zero, N set, H and C those of lane 0.
pub open spec fn lanes_sub8_flags(a: Seq<u8>, b: Seq<u8>, borrow: bool) -> Flags {
    Flags {
        z: forall|i: int| 0 <= i < a.len() ==> sub8_value(a[i], b[i], borrow) == 0,
        n: true,
        h: a.len() > 0 && sub8_flags(a[0], b[0], borrow).h,
        c: a.len() > 0 && sub8_flags(a[0], b[0], borrow).c,
    }
}

/// When every lane holds the same operands, the lane-parallel flags are
/// those of the scalar ALU on those operands.
pub proof fn lemma_uniform_lanes_flags(a: Seq<u8>, b: Seq<u8>, x: u8, y: u8, carry: bool)
    requires
        a.len() > 0,
        b.len() == a.len(),
        all_lanes(a, x),
        all_lanes(b, y),
    ensures
        lanes_add8_flags(a, b, carry) == add8_flags(x, y, carry),
        lanes_sub8_flags(a, b, carry) == sub8_flags(x, y, carry),
{
    assert(a[0] == x && b[0] == y);
}

/// Lane-parallel execution backend over `LANES` instances: a marker type
/// carrying the element types and operations.
#[derive(Clone, Copy)]
pub struct SimdExec<const LANES: usize>;

impl<const LANES: usize> Exec for SimdExec<LANES> {
    type U8 = [u8; LANES];
    type U16 = [u16; LANES];
    type Mask = LaneMask<LANES>;

    fn from_u8(value: u8) -> (r: [u8; LANES])
        ensures
            all_lanes(r@, value),
    {
        [value; LANES]
    }

    fn from_u16(value: u16) -> (r: [u16; LANES])
        ensures
            all_lanes(r@, value),
    {
        [value; LANES]
    }

    fn to_u8(value: [u8; LANES]) -> (r: u8)
        ensures
            r == first_lane(value@, 0u8),
    {
        if LANES == 0 {
            0
        } else {
            value[0]
        }
    }

    fn to_u16(value: [u16; LANES]) -> (r: u16)
        ensures
            r == first_lane(value@, 0u16),
    {
        if LANES == 0 {
            0
        } else {
            value[0]
        }
    }

    fn combine_u16(high: [u8; LANES], low: [u8; LANES]) -> (r: [u16; LANES])
        ensures
            forall|i: int| 0 <= i < LANES ==> #[trigger] r@[i] == high@[i] * 256 + low@[i],
    {
        let mut out: [u16; LANES] = [0u16; LANES];
        let mut i: usize = 0;
        while i < LANES
            invariant
                i <= LANES,
                forall|j: int| 0 <= j < i ==> #[trigger] out@[j] == high@[j] * 256 + low@[j],
            decreases LANES - i,
        {
            let w = Scalar::combine_u16(high[i], low[i]);
            out.set(i, w);
            i += 1;
        }
        out
    }

    fn split_u16(value: [u16; LANES]) -> (r: ([u8; LANES], [u8; LANES]))
        ensures
            forall|i: int| 0 <= i < LANES ==> #[trigger] r.0@[i] == value@[i] / 256 && r.1@[i] == value@[i] % 256,
    {
        let mut hi: [u8; LANES] = [0u8; LANES];
        let mut lo: [u8; LANES] = [0u8; LANES];
        let mut i: usize = 0;
        while i < LANES
            invariant
                i <= LANES,
                forall|j: int| 0 <= j < i ==> #[trigger] hi@[j] == value@[j] / 256,
                forall|j: int| 0 <= j < i ==> #[trigger] lo@[j] == value@[j] % 256,
            decreases LANES - i,
        {
            let (h, l) = Scalar::split_u16(value[i]);
            hi.set(i, h);
            lo.set(i, l);
            i += 1;
        }
        (hi, lo)
    }

    fn and(a: [u8; LANES], b: [u8; LANES]) -> (r: [u8; LANES])
        ensures
            forall|i: int| 0 <= i < LANES ==> #[trigger] r@[i] == a@[i] & b@[i],
    {
        zip_lanes(LaneOp::And, a, b)
    }

    fn or(a: [u8; LANES], b: [u8; LANES]) -> (r: [u8; LANES])
        ensures
            forall|i: int| 0 <= i < LANES ==> #[trigger] r@[i] == a@[i] | b@[i],
    {
        zip_lanes(LaneOp::Or, a, b)
    }

    fn xor(a: [u8; LANES], b: [u8; LANES]) -> (r: [u8; LANES])
        ensures
            forall|i: int| 0 <= i < LANES ==> #[trigger] r@[i] == a@[i] ^ b@[i],
    {
        zip_lanes(LaneOp::Xor, a, b)
    }

    fn add8(a: [u8; LANES], b: [u8; LANES], carry: bool, f: &mut Flags) -> (r: [u8; LANES])
        ensures
            forall|i: int| 0 <= i < LANES ==> #[trigger] r@[i] == add8_value(a@[i], b@[i], carry),
            *final(f) == lanes_add8_flags(a@, b@, carry),
    {
        let sum = zip_lanes(LaneOp::Add(carry), a, b);
        let zero = all_zero(&sum);
        proof {
            assert(zero == (forall|j: int| 0 <= j < LANES ==> add8_value(a@[j], b@[j], carry) == 0)) by {
                if zero {
                    assert forall|j: int| 0 <= j < LANES implies add8_value(a@[j], b@[j], carry) == 0 by {
                        assert(sum@[j] == lane_op_value(LaneOp::Add(carry), a@[j], b@[j]));
                    }
                } else {
                    let j = choose|j: int| 0 <= j < sum@.len() && sum@[j] != 0u8;
                    assert(sum@[j] == lane_op_value(LaneOp::Add(carry), a@[j], b@[j]));
                }
            }
        }
        let mut f0 = Flags::new();
        if LANES > 0 {
            Scalar::add8(a[0], b[0], carry, &mut f0);
        }
        f.z = zero;
        f.n = false;
        f.h = LANES > 0 && f0.h;
        f.c = LANES > 0 && f0.c;
        sum
    }

    fn sub8(a: [u8; LANES], b: [u8; LANES], borrow: bool, f: &mut Flags) -> (r: [u8; LANES])
        ensures
            forall|i: int| 0 <= i < LANES ==> #[trigger] r@[i] == sub8_value(a@[i], b@[i], borrow),
            *final(f) == lanes_sub8_flags(a@, b@, borrow),
    {
        let diff = zip_lanes(LaneOp::Sub(borrow), a, b);
        let zero = all_zero(&diff);
        proof {
            assert(zero == (forall|j: int| 0 <= j < LANES ==> sub8_value(a@[j], b@[j], borrow) == 0)) by {
                if zero {
                    assert forall|j: int| 0 <= j < LANES implies sub8_value(a@[j], b@[j], borrow) == 0 by {
                        assert(diff@[j] == lane_op_value(LaneOp::Sub(borrow), a@[j], b@[j]));
                    }
                } else {
                    let j = choose|j: int| 0 <= j < diff@.len() && diff@[j] != 0u8;
                    assert(diff@[j] == lane_op_value(LaneOp::Sub(borrow), a@[j], b@[j]));
                }
            }
        }
        let mut f0 = Flags::new();
        if LANES > 0 {
            Scalar::sub8(a[0], b[0], borrow, &mut f0);
        }
        f.z = zero;
        f.n = true;
        f.h = LANES > 0 && f0.h;
        f.c = LANES > 0 && f0.c;
        diff
    }

    fn eq8(a: [u8; LANES], b: [u8; LANES]) -> (r: LaneMask<LANES>)
        ensures
            forall|i: int| 0 <= i < LANES ==> #[trigger] r@[i] == (a@[i] == b@[i]),
    {
        let mut out: [bool; LANES] = [false; LANES];
        let mut i: usize = 0;
        while i < LANES
            invariant
                i <= LANES,
                forall|j: int| 0 <= j < i ==> #[trigger] out@[j] == (a@[j] == b@[j]),
            decreases LANES - i,
        {
            out.set(i, a[i] == b[i]);
            i += 1;
        }
        LaneMask { inner: out }
    }

    fn select8(mask: LaneMask<LANES>, if_true: [u8; LANES], if_false: [u8; LANES]) -> (r: [u8; LANES])
        ensures
            forall|i: int| 0 <= i < LANES ==> #[trigger] r@[i] == (if mask@[i] { if_true@[i] } else { if_false@[i] }),
    {
        let mut out = if_false;
        let mut i: usize = 0;
        while i < LANES
            invariant
                i <= LANES,
                forall|j: int| 0 <= j < i ==> #[trigger] out@[j] == (if mask@[j] { if_true@[j] } else { if_false@[j] }),
                forall|j: int| i <= j < LANES ==> #[trigger] out@[j] == if_false@[j],
            decreases LANES - i,
        {
            if mask.inner[i] {
                out.set(i, if_true[i]);
            }
            i += 1;
        }
        out
    }
}

} // verus!
