//! Flag register and the scalar execution backend (8-bit ALU, word packing).
use vstd::prelude::*;

verus! {

/// Numeric value (0 or 1) of a carry/borrow bit.
pub open spec fn bit_of(b: bool) -> int {
    if b {
        1
    } else {
        0
    }
}

/// `a + b + carry` truncated to a byte.
pub open spec fn add8_value(a: u8, b: u8, carry: bool) -> u8 {
    ((a + b + bit_of(carry)) % 256) as u8
}

/// `a - b - borrow` wrapped into a byte.
pub open spec fn sub8_value(a: u8, b: u8, borrow: bool) -> u8 {
    ((a - b - bit_of(borrow)) % 256) as u8
}

/// Flags produced by an 8-bit addition with carry-in.
pub open spec fn add8_flags(a: u8, b: u8, carry: bool) -> Flags {
    Flags {
        z: add8_value(a, b, carry) == 0,
        n: false,
        h: (a % 16) + (b % 16) + bit_of(carry) >= 16,
        c: a + b + bit_of(carry) >= 256,
    }
}

/// Flags produced by an 8-bit subtraction with borrow-in.
pub open spec fn sub8_flags(a: u8, b: u8, borrow: bool) -> Flags {
    Flags {
        z: sub8_value(a, b, borrow) == 0,
        n: true,
        h: (a % 16) < (b % 16) + bit_of(borrow),
        c: a < b + bit_of(borrow),
    }
}

/// The `F` register byte that encodes a flag set: Z, N, H, C in bits 7..4.
pub open spec fn flags_byte(f: Flags) -> u8 {
    ((if f.z { 0x80int } else { 0 }) + (if f.n { 0x40int } else { 0 }) + (if f.h {
        0x20int
    } else {
        0
    }) + (if f.c { 0x10int } else { 0 })) as u8
}

/// The flag set that an `F` register byte decodes to (low nibble ignored).
pub open spec fn flags_of_byte(value: u8) -> Flags {
    Flags {
        z: value & 0x80 != 0,
        n: value & 0x40 != 0,
        h: value & 0x20 != 0,
        c: value & 0x10 != 0,
    }
}

proof fn lemma_add8_flag_bits(a: u8, b: u8, c: u8, sum: u8)
    by (bit_vector)
    requires
        c <= 1,
        sum == ((a + b + c) % 256) as u8,
    ensures
        (((a ^ b ^ sum) & 0x10u8) != 0u8) == ((a % 16) + (b % 16) + c >= 16),
        ((((a & b) | ((a | b) & !sum)) & 0x80u8) != 0u8) == (a + b + c >= 256),
{
}

proof fn lemma_sub8_flag_bits(a: u8, b: u8, c: u8, diff: u8)
    by (bit_vector)
    requires
        c <= 1,
        diff == ((a + 512 - b - c) % 256) as u8,
    ensures
        (((a ^ b ^ diff) & 0x10u8) != 0u8) == ((a % 16) < (b % 16) + c),
        ((((!a & b) | ((!(a ^ b)) & diff)) & 0x80u8) != 0u8) == (a < b + c),
{
}

/// Decoding an `F` byte and encoding it again keeps exactly the high nibble.
pub proof fn lemma_flags_byte_roundtrip(value: u8)
    ensures
        flags_byte(flags_of_byte(value)) == value & 0xF0,
{
    assert(((if value & 0x80 != 0 { 0x80int } else { 0 }) + (if value & 0x40 != 0 {
        0x40int
    } else {
        0
    }) + (if value & 0x20 != 0 { 0x20int } else { 0 }) + (if value & 0x10 != 0 {
        0x10int
    } else {
        0
    })) == (value & 0xF0) as int) by (bit_vector);
}

/// Encoding a flag set and decoding the byte gives the same flags back.
pub proof fn lemma_flags_of_byte_roundtrip(f: Flags)
    ensures
        flags_of_byte(flags_byte(f)) == f,
{
    let zb: u8 = if f.z { 0x80 } else { 0 };
    let nb: u8 = if f.n { 0x40 } else { 0 };
    let hb: u8 = if f.h { 0x20 } else { 0 };
    let cb: u8 = if f.c { 0x10 } else { 0 };
    let w: u8 = (zb + nb + hb + cb) as u8;
    assert(w == flags_byte(f));
    assert({
        &&& (w & 0x80 != 0) == (zb == 0x80)
        &&& (w & 0x40 != 0) == (nb == 0x40)
        &&& (w & 0x20 != 0) == (hb == 0x20)
        &&& (w & 0x10 != 0) == (cb == 0x10)
    }) by (bit_vector)
        requires
            zb == 0x80u8 || zb == 0u8,
            nb == 0x40u8 || nb == 0u8,
            hb == 0x20u8 || hb == 0u8,
            cb == 0x10u8 || cb == 0u8,
            w == (zb + nb + hb + cb) as u8,
    ;
}

/// Flag register: zero, subtract, half-carry and carry bits.
#[derive(Clone, Copy, Debug, PartialEq, Eq)]
pub struct Flags {
    /// Zero flag.
    pub z: bool,
    /// Subtract flag.
    pub n: bool,
    /// Half-carry flag.
    pub h: bool,
    /// Carry flag.
    pub c: bool,
}

impl Default for Flags {
    fn default() -> (r: Self)
        ensures
            r == (Flags { z: false, n: false, h: false, c: false }),
    {
        Self::new()
    }
}

impl Flags {
    /// Creates flags with all bits cleared.
    pub fn new() -> (r: Self)
        ensures
            r == (Flags { z: false, n: false, h: false, c: false }),
    {
        Flags { z: false, n: false, h: false, c: false }
    }

    /// Sets the zero flag.
    pub fn set_z(&mut self, value: bool)
        ensures
            *final(self) == (Flags { z: value, ..*old(self) }),
    {
        self.z = value;
    }

    /// Sets the subtract flag.
    pub fn set_n(&mut self, value: bool)
        ensures
            *final(self) == (Flags { n: value, ..*old(self) }),
    {
        self.n = value;
    }

    /// Sets the half-carry flag.
    pub fn set_h(&mut self, value: bool)
        ensures
            *final(self) == (Flags { h: value, ..*old(self) }),
    {
        self.h = value;
    }

    /// Sets the carry flag.
    pub fn set_c(&mut self, value: bool)
        ensures
            *final(self) == (Flags { c: value, ..*old(self) }),
    {
        self.c = value;
    }

    /// Returns the zero flag.
    pub fn z(&self) -> (r: bool)
        ensures
            r == self.z,
    {
        self.z
    }

    /// Returns the subtract flag.
    pub fn n(&self) -> (r: bool)
        ensures
            r == self.n,
    {
        self.n
    }

    /// Returns the half-carry flag.
    pub fn h(&self) -> (r: bool)
        ensures
            r == self.h,
    {
        self.h
    }

    /// Returns the carry flag.
    pub fn c(&self) -> (r: bool)
        ensures
            r == self.c,
    {
        self.c
    }

    /// Encodes the flag bits into the CPU's `F` register representation.
    pub fn to_byte(&self) -> (r: u8)
        ensures
            r == flags_byte(*self),
    {
        let z: u8 = if self.z { 0x80 } else { 0 };
        let n: u8 = if self.n { 0x40 } else { 0 };
        let h: u8 = if self.h { 0x20 } else { 0 };
        let c: u8 = if self.c { 0x10 } else { 0 };
        z + n + h + c
    }

    /// Restores flags from an `F` register value.
    pub fn from_byte(&mut self, value: u8)
        ensures
            *final(self) == flags_of_byte(value),
    {
        self.set_z(value & 0x80 != 0);
        self.set_n(value & 0x40 != 0);
        self.set_h(value & 0x20 != 0);
        self.set_c(value & 0x10 != 0);
    }
}

/// A flag value of an execution backend.
pub trait MaskValue: Copy + PartialEq {
    /// The canonical false value.
    fn false_mask() -> Self;

    /// The canonical true value.
    fn true_mask() -> Self;

    /// The value as a boolean.
    fn to_bool(self) -> bool;

    /// The value for a boolean.
    fn from_bool(value: bool) -> Self;
}

impl MaskValue for bool {
    fn false_mask() -> (r: bool)
        ensures
            r == false,
    {
        false
    }

    fn true_mask() -> (r: bool)
        ensures
            r == true,
    {
        true
    }

    fn to_bool(self) -> (r: bool)
        ensures
            r == self,
    {
        self
    }

    fn from_bool(value: bool) -> (r: bool)
        ensures
            r == value,
    {
        value
    }
}

/// Execution backend used by the instruction handlers: the element types of
/// bytes, words and flags, and the ALU primitives on them.
pub trait Exec: Copy {
    /// An 8-bit element.
    type U8: Copy;
    /// A 16-bit element.
    type U16: Copy;
    /// A flag element.
    type Mask: MaskValue;

    /// The element for a byte.
    fn from_u8(value: u8) -> Self::U8;

    /// The element for a word.
    fn from_u16(value: u16) -> Self::U16;

    /// The byte of an element.
    fn to_u8(value: Self::U8) -> u8;

    /// The word of an element.
    fn to_u16(value: Self::U16) -> u16;

    /// Combines two bytes into a word (`high` in the upper byte).
    fn combine_u16(high: Self::U8, low: Self::U8) -> Self::U16;

    /// Splits a word into its `(high, low)` bytes.
    fn split_u16(value: Self::U16) -> (Self::U8, Self::U8);

    /// Bitwise AND.
    fn and(a: Self::U8, b: Self::U8) -> Self::U8;

    /// Bitwise OR.
    fn or(a: Self::U8, b: Self::U8) -> Self::U8;

    /// Bitwise XOR.
    fn xor(a: Self::U8, b: Self::U8) -> Self::U8;

    /// Adds two bytes with an optional carry-in, updating the flags.
    fn add8(a: Self::U8, b: Self::U8, carry: bool, f: &mut Flags) -> Self::U8;

    /// Subtracts two bytes with an optional borrow-in, updating the flags.
    fn sub8(a: Self::U8, b: Self::U8, borrow: bool, f: &mut Flags) -> Self::U8;

    /// Equality as a flag.
    fn eq8(a: Self::U8, b: Self::U8) -> Self::Mask;

    /// `if_true` where the flag is set, `if_false` elsewhere.
    fn select8(mask: Self::Mask, if_true: Self::U8, if_false: Self::U8) -> Self::U8;
}

/// Scalar execution backend: one Game Boy instance, plain bytes and words.
#[derive(Clone, Copy)]
pub struct Scalar;

impl Exec for Scalar {
    type U8 = u8;
    type U16 = u16;
    type Mask = bool;

    fn from_u8(value: u8) -> (r: u8)
        ensures
            r == value,
    {
        value
    }

    fn from_u16(value: u16) -> (r: u16)
        ensures
            r == value,
    {
        value
    }

    fn to_u8(value: u8) -> (r: u8)
        ensures
            r == value,
    {
        value
    }

    fn to_u16(value: u16) -> (r: u16)
        ensures
            r == value,
    {
        value
    }

    fn combine_u16(high: u8, low: u8) -> (r: u16)
        ensures
            r == high * 256 + low,
    {
        proof {
            crate::bits::lemma_word_bytes();
        }
        (high as u16) << 8u16 | (low as u16)
    }

    fn split_u16(value: u16) -> (r: (u8, u8))
        ensures
            r.0 == value / 256,
            r.1 == value % 256,
    {
        proof {
            crate::bits::lemma_word_bytes();
        }
        ((value >> 8u16) as u8, (value & 0x00FFu16) as u8)
    }

    fn and(a: u8, b: u8) -> (r: u8)
        ensures
            r == a & b,
    {
        a & b
    }

    fn or(a: u8, b: u8) -> (r: u8)
        ensures
            r == a | b,
    {
        a | b
    }

    fn xor(a: u8, b: u8) -> (r: u8)
        ensures
            r == a ^ b,
    {
        a ^ b
    }

    fn add8(a: u8, b: u8, carry: bool, f: &mut Flags) -> (r: u8)
        ensures
            r == add8_value(a, b, carry),
            *final(f) == add8_flags(a, b, carry),
    {
        let cin: u8 = if carry { 1 } else { 0 };
        let sum = a.wrapping_add(b).wrapping_add(cin);
        proof {
            lemma_add8_flag_bits(a, b, cin, sum);
        }
        let half = ((a ^ b ^ sum) & 0x10) != 0;
        let carry_out = (((a & b) | ((a | b) & !sum)) & 0x80) != 0;
        f.set_z(sum == 0);
        f.set_n(false);
        f.set_h(half);
        f.set_c(carry_out);
        sum
    }

    fn sub8(a: u8, b: u8, borrow: bool, f: &mut Flags) -> (r: u8)
        ensures
            r == sub8_value(a, b, borrow),
            *final(f) == sub8_flags(a, b, borrow),
    {
        let cin: u8 = if borrow { 1 } else { 0 };
        let diff = a.wrapping_sub(b).wrapping_sub(cin);
        assert(diff == ((a + 512 - b - cin) % 256) as u8);
        proof {
            lemma_sub8_flag_bits(a, b, cin, diff);
        }
        let half = ((a ^ b ^ diff) & 0x10) != 0;
        let borrow_out = (((!a & b) | ((!(a ^ b)) & diff)) & 0x80) != 0;
        f.set_z(diff == 0);
        f.set_n(true);
        f.set_h(half);
        f.set_c(borrow_out);
        diff
    }

    fn eq8(a: u8, b: u8) -> (r: bool)
        ensures
            r == (a == b),
    {
        a == b
    }

    fn select8(mask: bool, if_true: u8, if_false: u8) -> (r: u8)
        ensures
            r == (if mask { if_true } else { if_false }),
    {
        if mask {
            if_true
        } else {
            if_false
        }
    }
}

} // verus!
