//! CPU register file: 8-bit registers, register pairs, stack and fetch helpers.
use vstd::prelude::*;
use crate::bus::{BusScalar, BusView};
use crate::exec::{flags_byte, flags_of_byte, Exec, Flags, Scalar};
use crate::mmu::{read8_scalar, read8_view, write8_scalar, write8_view};

verus! {

/// The 16-bit word made of a high and a low byte.
pub open spec fn word(hi: u8, lo: u8) -> u16 {
    (hi * 256 + lo) as u16
}

/// `v + 1` modulo 2^16.
pub open spec fn inc16(v: u16) -> u16 {
    ((v + 1) % 65536) as u16
}

/// `v - 1` modulo 2^16.
pub open spec fn dec16(v: u16) -> u16 {
    ((v + 65535) % 65536) as u16
}

/// The `HL` register pair.
pub open spec fn hl_of(c: Cpu) -> u16 {
    word(c.h, c.l)
}

/// The `BC` register pair.
pub open spec fn bc_of(c: Cpu) -> u16 {
    word(c.b, c.c)
}

/// The `DE` register pair.
pub open spec fn de_of(c: Cpu) -> u16 {
    word(c.d, c.e)
}

/// The `AF` register pair.
pub open spec fn af_of(c: Cpu) -> u16 {
    word(c.a, flags_byte(c.f))
}

/// Register file with `HL` replaced by `v`.
pub open spec fn with_hl(c: Cpu, v: u16) -> Cpu {
    Cpu { h: (v / 256) as u8, l: (v % 256) as u8, ..c }
}

/// Register file with `BC` replaced by `v`.
pub open spec fn with_bc(c: Cpu, v: u16) -> Cpu {
    Cpu { b: (v / 256) as u8, c: (v % 256) as u8, ..c }
}

/// Register file with `DE` replaced by `v`.
pub open spec fn with_de(c: Cpu, v: u16) -> Cpu {
    Cpu { d: (v / 256) as u8, e: (v % 256) as u8, ..c }
}

/// Register file with `AF` replaced by `v` (low nibble of `F` always zero).
pub open spec fn with_af(c: Cpu, v: u16) -> Cpu {
    Cpu { a: (v / 256) as u8, f: flags_of_byte(((v % 256) as u8) & 0xF0), ..c }
}

/// Bus after pushing `value` at `sp`: high byte at `sp - 1`, low byte at `sp - 2`.
pub open spec fn push16_bus(b: BusView, sp: u16, value: u16) -> BusView {
    write8_view(
        write8_view(b, dec16(sp), (value / 256) as u8),
        dec16(dec16(sp)),
        (value % 256) as u8,
    )
}

/// Word popped from `sp` (low byte first).
pub open spec fn pop16_value(b: BusView, sp: u16) -> u16 {
    word(read8_view(b, inc16(sp)), read8_view(b, sp))
}

/// Power-on register values of the DMG.
pub open spec fn cpu_power_on() -> Cpu {
    Cpu {
        a: 0x01,
        f: flags_of_byte(0xB0),
        b: 0x00,
        c: 0x13,
        d: 0x00,
        e: 0xD8,
        h: 0x01,
        l: 0x4D,
        sp: 0xFFFE,
        pc: 0x0100,
        ime: false,
        halted: false,
        enable_ime_pending: false,
    }
}

/// CPU register file and execution state.
#[derive(Clone, Copy, Debug, PartialEq, Eq)]
pub struct Cpu {
    pub a: u8,
    pub f: Flags,
    pub b: u8,
    pub c: u8,
    pub d: u8,
    pub e: u8,
    pub h: u8,
    pub l: u8,
    pub sp: u16,
    pub pc: u16,
    pub ime: bool,
    pub halted: bool,
    pub enable_ime_pending: bool,
}

impl Cpu {
    /// Creates a CPU with power-on defaults.
    pub fn new() -> (r: Self)
        ensures
            r == cpu_power_on(),
    {
        let mut flags = Flags::new();
        flags.from_byte(0xB0);
        Cpu {
            a: 0x01,
            f: flags,
            b: 0x00,
            c: 0x13,
            d: 0x00,
            e: 0xD8,
            h: 0x01,
            l: 0x4D,
            sp: 0xFFFE,
            pc: 0x0100,
            ime: false,
            halted: false,
            enable_ime_pending: false,
        }
    }

    /// Returns the `HL` register pair.
    pub fn hl(&self) -> (r: u16)
        ensures
            r == hl_of(*self),
    {
        Scalar::combine_u16(self.h, self.l)
    }

    /// Updates the `HL` register pair.
    pub fn set_hl(&mut self, value: u16)
        ensures
            *final(self) == with_hl(*old(self), value),
    {
        let (h, l) = Scalar::split_u16(value);
        self.h = h;
        self.l = l;
    }

    /// Returns the `BC` register pair.
    pub fn bc(&self) -> (r: u16)
        ensures
            r == bc_of(*self),
    {
        Scalar::combine_u16(self.b, self.c)
    }

    /// Updates the `BC` register pair.
    pub fn set_bc(&mut self, value: u16)
        ensures
            *final(self) == with_bc(*old(self), value),
    {
        let (b, c) = Scalar::split_u16(value);
        self.b = b;
        self.c = c;
    }

    /// Returns the `DE` register pair.
    pub fn de(&self) -> (r: u16)
        ensures
            r == de_of(*self),
    {
        Scalar::combine_u16(self.d, self.e)
    }

    /// Updates the `DE` register pair.
    pub fn set_de(&mut self, value: u16)
        ensures
            *final(self) == with_de(*old(self), value),
    {
        let (d, e) = Scalar::split_u16(value);
        self.d = d;
        self.e = e;
    }

    /// Returns the `AF` register pair.
    pub fn af(&self) -> (r: u16)
        ensures
            r == af_of(*self),
    {
        Scalar::combine_u16(self.a, self.f.to_byte())
    }

    /// Sets the `AF` register pair; the low nibble of `F` is forced to zero.
    pub fn set_af(&mut self, value: u16)
        ensures
            *final(self) == with_af(*old(self), value),
    {
        let (a, f) = Scalar::split_u16(value);
        self.a = a;
        self.f.from_byte(f & 0xF0);
    }

    /// Reads the byte at `PC` and advances the program counter.
    pub fn fetch8(&mut self, bus: &mut BusScalar) -> (r: u8)
        ensures
            r == read8_view(old(bus)@, old(self).pc),
            *final(self) == (Cpu { pc: inc16(old(self).pc), ..*old(self) }),
            *final(bus) == *old(bus),
    {
        let pc = self.pc;
        let byte = read8_scalar(bus, pc);
        self.pc = pc.wrapping_add(1);
        byte
    }

    /// Reads the next two bytes as a little-endian 16-bit value.
    pub fn fetch16(&mut self, bus: &mut BusScalar) -> (r: u16)
        ensures
            r == word(
                read8_view(old(bus)@, inc16(old(self).pc)),
                read8_view(old(bus)@, old(self).pc),
            ),
            *final(self) == (Cpu { pc: inc16(inc16(old(self).pc)), ..*old(self) }),
            *final(bus) == *old(bus),
    {
        let lo = self.fetch8(bus);
        let hi = self.fetch8(bus);
        Scalar::combine_u16(hi, lo)
    }

    /// Pushes a 16-bit value onto the stack (high byte first).
    pub fn push16(&mut self, bus: &mut BusScalar, value: u16)
        ensures
            final(bus)@ == push16_bus(old(bus)@, old(self).sp, value),
            *final(self) == (Cpu { sp: dec16(dec16(old(self).sp)), ..*old(self) }),
    {
        let mut sp = self.sp;
        let (hi, lo) = Scalar::split_u16(value);
        sp = sp.wrapping_sub(1);
        write8_scalar(bus, sp, hi);
        sp = sp.wrapping_sub(1);
        write8_scalar(bus, sp, lo);
        self.sp = sp;
    }

    /// Pops a 16-bit value from the stack (low byte first).
    pub fn pop16(&mut self, bus: &mut BusScalar) -> (r: u16)
        ensures
            r == pop16_value(old(bus)@, old(self).sp),
            *final(self) == (Cpu { sp: inc16(inc16(old(self).sp)), ..*old(self) }),
            *final(bus) == *old(bus),
    {
        let mut sp = self.sp;
        let lo = read8_scalar(bus, sp);
        sp = sp.wrapping_add(1);
        let hi = read8_scalar(bus, sp);
        sp = sp.wrapping_add(1);
        self.sp = sp;
        Scalar::combine_u16(hi, lo)
    }
}

} // verus!
