//! Instruction semantics: one specification per opcode family, and the
//! executable handlers proved to follow them.
use vstd::prelude::*;
use crate::cpu::{
    af_of, bc_of, de_of, dec16, hl_of, inc16, with_af, with_bc, with_de, with_hl, Cpu,
};
use crate::exec::{add8_flags, add8_value, sub8_flags, sub8_value, Exec, Flags, Scalar};
use crate::gb_core::{
    add_sp_e8_spec, dec_flags, fetch16_view, fetch8_view, inc_flags, pop16_view, push16_view,
    set_bus, set_cpu, sext8, Core, CoreView,
};
use crate::mmu::{read8_scalar, read8_view, write8_scalar, write8_view};

verus! {

/// Execution cost for common instruction classes.
#[derive(Clone, Copy, Debug, PartialEq, Eq)]
pub enum CycleCost {
    /// 4-cycle operations.
    Clocks4,
    /// 8-cycle operations.
    Clocks8,
    /// 12-cycle operations.
    Clocks12,
    /// 16-cycle operations.
    Clocks16,
    /// 20-cycle operations.
    Clocks20,
    /// 24-cycle operations.
    Clocks24,
}

/// Number of cycles a cost class stands for.
pub open spec fn cycle_cost_value(c: CycleCost) -> u32 {
    match c {
        CycleCost::Clocks4 => 4,
        CycleCost::Clocks8 => 8,
        CycleCost::Clocks12 => 12,
        CycleCost::Clocks16 => 16,
        CycleCost::Clocks20 => 20,
        CycleCost::Clocks24 => 24,
    }
}

impl CycleCost {
    /// Returns the cycle count as `u32`.
    pub fn as_u32(self) -> (r: u32)
        ensures
            r == cycle_cost_value(self),
    {
        match self {
            CycleCost::Clocks4 => 4,
            CycleCost::Clocks8 => 8,
            CycleCost::Clocks12 => 12,
            CycleCost::Clocks16 => 16,
            CycleCost::Clocks20 => 20,
            CycleCost::Clocks24 => 24,
        }
    }
}

/// High-level ALU operation categories used by opcode helpers.
#[derive(Clone, Copy, Debug, PartialEq, Eq)]
pub enum AluOp {
    /// 8-bit addition.
    Add,
    /// 8-bit addition with carry.
    Adc,
    /// 8-bit subtraction.
    Sub,
    /// 8-bit subtraction with borrow.
    Sbc,
    /// Bitwise AND.
    And,
    /// Bitwise XOR.
    Xor,
    /// Bitwise OR.
    Or,
    /// Compare (subtraction without storing the result).
    Cp,
}

/// Operand selected by the 3-bit register code (6 = memory at `HL`) and its extra cycles.
pub open spec fn reg8_view(s: CoreView, code: u8) -> (u8, u32) {
    let r = code & 0x07;
    if r == 0 {
        (s.cpu.b, 0)
    } else if r == 1 {
        (s.cpu.c, 0)
    } else if r == 2 {
        (s.cpu.d, 0)
    } else if r == 3 {
        (s.cpu.e, 0)
    } else if r == 4 {
        (s.cpu.h, 0)
    } else if r == 5 {
        (s.cpu.l, 0)
    } else if r == 6 {
        (read8_view(s.bus, hl_of(s.cpu)), 4)
    } else {
        (s.cpu.a, 0)
    }
}

/// Register file with the register named by `code` (not 6) replaced.
pub open spec fn set_reg8(c: Cpu, code: u8, v: u8) -> Cpu {
    let r = code & 0x07;
    if r == 0 {
        Cpu { b: v, ..c }
    } else if r == 1 {
        Cpu { c: v, ..c }
    } else if r == 2 {
        Cpu { d: v, ..c }
    } else if r == 3 {
        Cpu { e: v, ..c }
    } else if r == 4 {
        Cpu { h: v, ..c }
    } else if r == 5 {
        Cpu { l: v, ..c }
    } else {
        Cpu { a: v, ..c }
    }
}

/// Store to the operand selected by `code` and its extra cycles.
pub open spec fn write_r8_view(s: CoreView, code: u8, v: u8) -> (CoreView, u32) {
    if code & 0x07 == 6 {
        (set_bus(s, write8_view(s.bus, hl_of(s.cpu), v)), 4)
    } else {
        (set_cpu(s, set_reg8(s.cpu, code, v)), 0)
    }
}

/// Branch condition `cc` (NZ, Z, NC, C).
pub open spec fn cond_spec(f: Flags, cc: u8) -> bool {
    let k = cc & 0x03;
    if k == 0 {
        !f.z
    } else if k == 1 {
        f.z
    } else if k == 2 {
        !f.c
    } else {
        f.c
    }
}

/// Flags of the logical operations (H set only for AND).
pub open spec fn logic_flags(r: u8, h: bool) -> Flags {
    Flags { z: r == 0, n: false, h: h, c: false }
}

/// Register file after `A <- A op operand`.
pub open spec fn alu_cpu(c: Cpu, operand: u8, op: AluOp) -> Cpu {
    match op {
        AluOp::Add => Cpu { a: add8_value(c.a, operand, false), f: add8_flags(c.a, operand, false), ..c },
        AluOp::Adc => Cpu { a: add8_value(c.a, operand, c.f.c), f: add8_flags(c.a, operand, c.f.c), ..c },
        AluOp::Sub => Cpu { a: sub8_value(c.a, operand, false), f: sub8_flags(c.a, operand, false), ..c },
        AluOp::Sbc => Cpu { a: sub8_value(c.a, operand, c.f.c), f: sub8_flags(c.a, operand, c.f.c), ..c },
        AluOp::And => Cpu { a: c.a & operand, f: logic_flags(c.a & operand, true), ..c },
        AluOp::Xor => Cpu { a: c.a ^ operand, f: logic_flags(c.a ^ operand, false), ..c },
        AluOp::Or => Cpu { a: c.a | operand, f: logic_flags(c.a | operand, false), ..c },
        AluOp::Cp => Cpu { f: sub8_flags(c.a, operand, false), ..c },
    }
}

/// Register pair selected by `rp` in the `BC, DE, HL, SP` group.
pub open spec fn rp_sp_value(c: Cpu, rp: u8) -> u16 {
    let k = rp & 0x03;
    if k == 0 {
        bc_of(c)
    } else if k == 1 {
        de_of(c)
    } else if k == 2 {
        hl_of(c)
    } else {
        c.sp
    }
}

/// Register file with the pair selected by `rp` (`BC, DE, HL, SP`) replaced.
pub open spec fn set_rp_sp(c: Cpu, rp: u8, v: u16) -> Cpu {
    let k = rp & 0x03;
    if k == 0 {
        with_bc(c, v)
    } else if k == 1 {
        with_de(c, v)
    } else if k == 2 {
        with_hl(c, v)
    } else {
        Cpu { sp: v, ..c }
    }
}

/// Register pair selected by `rp` in the `BC, DE, HL, AF` group.
pub open spec fn rp_af_value(c: Cpu, rp: u8) -> u16 {
    let k = rp & 0x03;
    if k == 0 {
        bc_of(c)
    } else if k == 1 {
        de_of(c)
    } else if k == 2 {
        hl_of(c)
    } else {
        af_of(c)
    }
}

/// Register file with the pair selected by `rp` (`BC, DE, HL, AF`) replaced.
pub open spec fn set_rp_af(c: Cpu, rp: u8, v: u16) -> Cpu {
    let k = rp & 0x03;
    if k == 0 {
        with_bc(c, v)
    } else if k == 1 {
        with_de(c, v)
    } else if k == 2 {
        with_hl(c, v)
    } else {
        with_af(c, v)
    }
}

/// `LD rr, d16`.
pub open spec fn ld_rr_d16_view(s: CoreView, rp: u8) -> (CoreView, u32) {
    let (s1, imm) = fetch16_view(s);
    (set_cpu(s1, set_rp_sp(s1.cpu, rp, imm)), 12)
}

/// `LD (BC|DE), A` (`rp` 0 or 1).
pub open spec fn ld_mem_rr_a_view(s: CoreView, rp: u8) -> (CoreView, u32) {
    let addr = if rp & 0x03 == 0 {
        bc_of(s.cpu)
    } else {
        de_of(s.cpu)
    };
    (set_bus(s, write8_view(s.bus, addr, s.cpu.a)), 8)
}

/// `LD A, (BC|DE)` (`rp` 0 or 1).
pub open spec fn ld_a_mem_rr_view(s: CoreView, rp: u8) -> (CoreView, u32) {
    let addr = if rp & 0x03 == 0 {
        bc_of(s.cpu)
    } else {
        de_of(s.cpu)
    };
    (set_cpu(s, Cpu { a: read8_view(s.bus, addr), ..s.cpu }), 8)
}

/// `LD r, d8`.
pub open spec fn ld_r_d8_view(s: CoreView, dst: u8) -> (CoreView, u32) {
    let (s1, imm) = fetch8_view(s);
    let (s2, extra) = write_r8_view(s1, dst, imm);
    (s2, (8 + extra) as u32)
}

/// `LD (HL), d8`.
pub open spec fn ld_hl_d8_view(s: CoreView) -> (CoreView, u32) {
    let (s1, imm) = fetch8_view(s);
    (set_bus(s1, write8_view(s1.bus, hl_of(s1.cpu), imm)), 12)
}

/// `LD (a16), SP`: low byte at `a16`, high byte at `a16 + 1`.
pub open spec fn ld_mem_a16_sp_view(s: CoreView) -> (CoreView, u32) {
    let (s1, addr) = fetch16_view(s);
    let sp = s1.cpu.sp;
    let b1 = write8_view(s1.bus, addr, (sp % 256) as u8);
    (set_bus(s1, write8_view(b1, inc16(addr), (sp / 256) as u8)), 20)
}

/// `LDH (a8), A`.
pub open spec fn ldh_a8_a_view(s: CoreView) -> (CoreView, u32) {
    let (s1, off) = fetch8_view(s);
    (set_bus(s1, write8_view(s1.bus, (0xFF00 + off) as u16, s1.cpu.a)), 12)
}

/// `LDH A, (a8)`.
pub open spec fn ldh_a_a8_view(s: CoreView) -> (CoreView, u32) {
    let (s1, off) = fetch8_view(s);
    (set_cpu(s1, Cpu { a: read8_view(s1.bus, (0xFF00 + off) as u16), ..s1.cpu }), 12)
}

/// `LD (C), A`.
pub open spec fn ldh_c_a_view(s: CoreView) -> (CoreView, u32) {
    (set_bus(s, write8_view(s.bus, (0xFF00 + s.cpu.c) as u16, s.cpu.a)), 8)
}

/// `LD A, (C)`.
pub open spec fn ldh_a_c_view(s: CoreView) -> (CoreView, u32) {
    (set_cpu(s, Cpu { a: read8_view(s.bus, (0xFF00 + s.cpu.c) as u16), ..s.cpu }), 8)
}

/// `LD A, (a16)`.
pub open spec fn ld_a_a16_view(s: CoreView) -> (CoreView, u32) {
    let (s1, addr) = fetch16_view(s);
    (set_cpu(s1, Cpu { a: read8_view(s1.bus, addr), ..s1.cpu }), 16)
}

/// `LD (a16), A`.
pub open spec fn ld_a16_a_view(s: CoreView) -> (CoreView, u32) {
    let (s1, addr) = fetch16_view(s);
    (set_bus(s1, write8_view(s1.bus, addr, s1.cpu.a)), 16)
}

/// `LD r, r'` encoded in bits 5..3 (destination) and 2..0 (source).
pub open spec fn ld_r_r_view(s: CoreView, opcode: u8) -> (CoreView, u32) {
    let (v, rc) = reg8_view(s, opcode & 0x07);
    let (s1, wc) = write_r8_view(s, (opcode >> 3u8) & 0x07, v);
    (s1, (4 + rc + wc) as u32)
}

/// `INC r` / `INC (HL)`.
pub open spec fn inc_r_view(s: CoreView, idx: u8) -> (CoreView, u32) {
    let (v, _) = reg8_view(s, idx);
    let res = ((v + 1) % 256) as u8;
    let s1 = set_cpu(s, Cpu { f: inc_flags(s.cpu.f, v), ..s.cpu });
    if idx & 0x07 == 6 {
        (set_bus(s1, write8_view(s1.bus, hl_of(s.cpu), res)), 12)
    } else {
        (set_cpu(s1, set_reg8(s1.cpu, idx, res)), 4)
    }
}

/// `DEC r` / `DEC (HL)`.
pub open spec fn dec_r_view(s: CoreView, idx: u8) -> (CoreView, u32) {
    let (v, _) = reg8_view(s, idx);
    let res = ((v + 255) % 256) as u8;
    let s1 = set_cpu(s, Cpu { f: dec_flags(s.cpu.f, v), ..s.cpu });
    if idx & 0x07 == 6 {
        (set_bus(s1, write8_view(s1.bus, hl_of(s.cpu), res)), 12)
    } else {
        (set_cpu(s1, set_reg8(s1.cpu, idx, res)), 4)
    }
}

/// `INC rr`.
pub open spec fn inc_rr_view(s: CoreView, rp: u8) -> (CoreView, u32) {
    (set_cpu(s, set_rp_sp(s.cpu, rp, inc16(rp_sp_value(s.cpu, rp)))), 8)
}

/// `DEC rr`.
pub open spec fn dec_rr_view(s: CoreView, rp: u8) -> (CoreView, u32) {
    (set_cpu(s, set_rp_sp(s.cpu, rp, dec16(rp_sp_value(s.cpu, rp)))), 8)
}

/// `ADD HL, rr`.
pub open spec fn add_hl_rr_view(s: CoreView, rp: u8) -> (CoreView, u32) {
    let rhs = rp_sp_value(s.cpu, rp);
    let lhs = hl_of(s.cpu);
    (
        set_cpu(
            s,
            Cpu {
                f: Flags { n: false, h: lhs % 4096 + rhs % 4096 > 4095, c: lhs + rhs > 0xFFFF, ..s.cpu.f },
                ..with_hl(s.cpu, ((lhs + rhs) % 65536) as u16)
            },
        ),
        8,
    )
}

/// `ADD SP, e8`.
pub open spec fn add_sp_e8_view(s: CoreView) -> (CoreView, u32) {
    let (s1, imm) = fetch8_view(s);
    let (res, h, c) = add_sp_e8_spec(s1.cpu.sp, imm);
    (set_cpu(s1, Cpu { sp: res, f: Flags { z: false, n: false, h: h, c: c }, ..s1.cpu }), 16)
}

/// `LD HL, SP + e8`.
pub open spec fn ld_hl_sp_plus_e8_view(s: CoreView) -> (CoreView, u32) {
    let (s1, imm) = fetch8_view(s);
    let (res, h, c) = add_sp_e8_spec(s1.cpu.sp, imm);
    (
        set_cpu(s1, Cpu { f: Flags { z: false, n: false, h: h, c: c }, ..with_hl(s1.cpu, res) }),
        12,
    )
}

/// `LD (HL+), A` and `LD (HL-), A`.
pub open spec fn ld_hl_a_step_view(s: CoreView, increment: bool) -> (CoreView, u32) {
    let addr = hl_of(s.cpu);
    let next = if increment {
        inc16(addr)
    } else {
        dec16(addr)
    };
    (CoreView { bus: write8_view(s.bus, addr, s.cpu.a), cpu: with_hl(s.cpu, next), ..s }, 8)
}

/// `LD A, (HL+)` and `LD A, (HL-)`.
pub open spec fn ld_a_hl_step_view(s: CoreView, increment: bool) -> (CoreView, u32) {
    let addr = hl_of(s.cpu);
    let next = if increment {
        inc16(addr)
    } else {
        dec16(addr)
    };
    (set_cpu(s, Cpu { a: read8_view(s.bus, addr), ..with_hl(s.cpu, next) }), 8)
}

/// `JR e8`.
pub open spec fn jr_view(s: CoreView) -> (CoreView, u32) {
    let (s1, off) = fetch8_view(s);
    (set_cpu(s1, Cpu { pc: ((s1.cpu.pc + sext8(off)) % 65536) as u16, ..s1.cpu }), 12)
}

/// `JR cc, e8` (condition in bits 4..3 of the opcode).
pub open spec fn jr_cc_view(s: CoreView, opcode: u8) -> (CoreView, u32) {
    let (s1, off) = fetch8_view(s);
    if cond_spec(s1.cpu.f, (opcode >> 3u8) & 0x03) {
        (set_cpu(s1, Cpu { pc: ((s1.cpu.pc + sext8(off)) % 65536) as u16, ..s1.cpu }), 12)
    } else {
        (s1, 8)
    }
}

/// `ALU A, r`.
pub open spec fn alu_a_r_view(s: CoreView, opcode: u8, op: AluOp) -> (CoreView, u32) {
    let (v, rc) = reg8_view(s, opcode);
    (set_cpu(s, alu_cpu(s.cpu, v, op)), (4 + rc) as u32)
}

/// `ALU A, d8`.
pub open spec fn alu_a_d8_view(s: CoreView, op: AluOp) -> (CoreView, u32) {
    let (s1, imm) = fetch8_view(s);
    (set_cpu(s1, alu_cpu(s1.cpu, imm, op)), 8)
}

/// Register file after a rotate of `A` (Z, N, H cleared; C from the bit shifted out).
pub open spec fn rotate_a(c: Cpu, res: u8, carry: bool) -> Cpu {
    Cpu { a: res, f: Flags { z: false, n: false, h: false, c: carry }, ..c }
}

/// Result and carry of one of the eight CB rotate/shift operations.
pub open spec fn cb_result(variant: u8, v: u8, cin: bool) -> (u8, bool) {
    let ci: u8 = if cin {
        1
    } else {
        0
    };
    if variant == 0 {
        ((v << 1u8) | (v >> 7u8), v & 0x80 != 0)
    } else if variant == 1 {
        ((v >> 1u8) | (v << 7u8), v & 0x01 != 0)
    } else if variant == 2 {
        ((v << 1u8) | ci, v & 0x80 != 0)
    } else if variant == 3 {
        ((v >> 1u8) | (ci << 7u8), v & 0x01 != 0)
    } else if variant == 4 {
        (v << 1u8, v & 0x80 != 0)
    } else if variant == 5 {
        ((v >> 1u8) | (v & 0x80), v & 0x01 != 0)
    } else if variant == 6 {
        ((v << 4u8) | (v >> 4u8), false)
    } else {
        (v >> 1u8, v & 0x01 != 0)
    }
}

/// `RLC/RRC/RL/RR/SLA/SRA/SWAP/SRL r`: state and the (read, write) extra cycles.
pub open spec fn cb_rotate_view(s: CoreView, variant: u8, z: u8) -> (CoreView, u32, u32) {
    let (v, rc) = reg8_view(s, z);
    let (res, carry) = cb_result(variant, v, s.cpu.f.c);
    let (s1, wc) = write_r8_view(s, z, res);
    (set_cpu(s1, Cpu { f: Flags { z: res == 0, n: false, h: false, c: carry }, ..s1.cpu }), rc, wc)
}

/// `BIT b, r`: Z set when the bit is clear; N cleared, H set, C kept.
pub open spec fn cb_bit_view(s: CoreView, bit: u8, z: u8) -> (CoreView, u32) {
    let (v, rc) = reg8_view(s, z);
    (
        set_cpu(
            s,
            Cpu { f: Flags { z: v & (1u8 << bit) == 0, n: false, h: true, ..s.cpu.f }, ..s.cpu },
        ),
        rc,
    )
}

/// `RES b, r`.
pub open spec fn cb_res_view(s: CoreView, bit: u8, z: u8) -> (CoreView, u32, u32) {
    let (v, rc) = reg8_view(s, z);
    let (s1, wc) = write_r8_view(s, z, v & !(1u8 << bit));
    (s1, rc, wc)
}

/// `SET b, r`.
pub open spec fn cb_set_view(s: CoreView, bit: u8, z: u8) -> (CoreView, u32, u32) {
    let (v, rc) = reg8_view(s, z);
    let (s1, wc) = write_r8_view(s, z, v | (1u8 << bit));
    (s1, rc, wc)
}

/// A CB-prefixed instruction with sub-opcode `sub` (after the prefix was fetched).
pub open spec fn cb_view(s: CoreView, sub: u8) -> (CoreView, u32) {
    let x = sub >> 6u8;
    let y = (sub >> 3u8) & 0x07;
    let z = sub & 0x07;
    if x == 0 {
        let (s1, rc, wc) = cb_rotate_view(s, y, z);
        (s1, (8 + rc + wc) as u32)
    } else if x == 1 {
        let (s1, rc) = cb_bit_view(s, y, z);
        (s1, (8 + rc) as u32)
    } else if x == 2 {
        let (s1, rc, wc) = cb_res_view(s, y, z);
        (s1, (8 + rc + wc) as u32)
    } else {
        let (s1, rc, wc) = cb_set_view(s, y, z);
        (s1, (8 + rc + wc) as u32)
    }
}

/// Accumulator and carry after `DAA`, from the N/H/C flags of the last operation.
pub open spec fn daa_spec(a: u8, f: Flags) -> (u8, bool) {
    if !f.n {
        let (a1, c1) = if f.c || a > 0x99 {
            (((a + 0x60) % 256) as u8, true)
        } else {
            (a, f.c)
        };
        let a2 = if f.h || (a1 & 0x0F) > 0x09 {
            ((a1 + 0x06) % 256) as u8
        } else {
            a1
        };
        (a2, c1)
    } else {
        let a1 = if f.c {
            ((a + 256 - 0x60) % 256) as u8
        } else {
            a
        };
        let a2 = if f.h {
            ((a1 + 256 - 0x06) % 256) as u8
        } else {
            a1
        };
        (a2, f.c)
    }
}

/// `RLCA`.
pub open spec fn rlca_view(s: CoreView) -> (CoreView, u32) {
    let v = s.cpu.a;
    (set_cpu(s, rotate_a(s.cpu, (v << 1u8) | (v >> 7u8), v >> 7u8 != 0)), 4)
}

/// `RLA`.
pub open spec fn rla_view(s: CoreView) -> (CoreView, u32) {
    let v = s.cpu.a;
    let ci: u8 = if s.cpu.f.c {
        1
    } else {
        0
    };
    (set_cpu(s, rotate_a(s.cpu, (v << 1u8) | ci, v >> 7u8 != 0)), 4)
}

/// `RRCA`.
pub open spec fn rrca_view(s: CoreView) -> (CoreView, u32) {
    let v = s.cpu.a;
    (set_cpu(s, rotate_a(s.cpu, (v >> 1u8) | ((v & 0x01) << 7u8), v & 0x01 != 0)), 4)
}

/// `RRA`.
pub open spec fn rra_view(s: CoreView) -> (CoreView, u32) {
    let v = s.cpu.a;
    let ci: u8 = if s.cpu.f.c {
        1
    } else {
        0
    };
    (set_cpu(s, rotate_a(s.cpu, (v >> 1u8) | (ci << 7u8), v & 0x01 != 0)), 4)
}

/// `DAA`.
pub open spec fn daa_view(s: CoreView) -> (CoreView, u32) {
    let (a, c) = daa_spec(s.cpu.a, s.cpu.f);
    (set_cpu(s, Cpu { a: a, f: Flags { z: a == 0, h: false, c: c, ..s.cpu.f }, ..s.cpu }), 4)
}

/// `CPL`.
pub open spec fn cpl_view(s: CoreView) -> (CoreView, u32) {
    (
        set_cpu(
            s,
            Cpu { a: s.cpu.a ^ 0xFF, f: Flags { n: true, h: true, ..s.cpu.f }, ..s.cpu },
        ),
        4,
    )
}

/// `SCF`.
pub open spec fn scf_view(s: CoreView) -> (CoreView, u32) {
    (set_cpu(s, Cpu { f: Flags { n: false, h: false, c: true, ..s.cpu.f }, ..s.cpu }), 4)
}

/// `CCF`.
pub open spec fn ccf_view(s: CoreView) -> (CoreView, u32) {
    (set_cpu(s, Cpu { f: Flags { n: false, h: false, c: !s.cpu.f.c, ..s.cpu.f }, ..s.cpu }), 4)
}

/// `DI`.
pub open spec fn di_view(s: CoreView) -> (CoreView, u32) {
    (set_cpu(s, Cpu { ime: false, enable_ime_pending: false, ..s.cpu }), 4)
}

/// `EI`: IME is set after the following instruction.
pub open spec fn ei_view(s: CoreView) -> (CoreView, u32) {
    (set_cpu(s, Cpu { enable_ime_pending: true, ..s.cpu }), 4)
}

/// `HALT` and `STOP`.
pub open spec fn halt_view(s: CoreView) -> (CoreView, u32) {
    (set_cpu(s, Cpu { halted: true, ..s.cpu }), 4)
}

/// `JP HL`.
pub open spec fn jp_hl_view(s: CoreView) -> (CoreView, u32) {
    (set_cpu(s, Cpu { pc: hl_of(s.cpu), ..s.cpu }), 4)
}

/// `LD SP, HL`.
pub open spec fn ld_sp_hl_view(s: CoreView) -> (CoreView, u32) {
    (set_cpu(s, Cpu { sp: hl_of(s.cpu), ..s.cpu }), 8)
}

/// `PUSH rr`.
pub open spec fn push_rr_view(s: CoreView, rp: u8) -> (CoreView, u32) {
    (push16_view(s, rp_af_value(s.cpu, rp)), 16)
}

/// `POP rr`.
pub open spec fn pop_rr_view(s: CoreView, rp: u8) -> (CoreView, u32) {
    let (s1, v) = pop16_view(s);
    (set_cpu(s1, set_rp_af(s1.cpu, rp, v)), 12)
}

/// `JP a16`.
pub open spec fn jp_a16_view(s: CoreView) -> (CoreView, u32) {
    let (s1, addr) = fetch16_view(s);
    (set_cpu(s1, Cpu { pc: addr, ..s1.cpu }), 16)
}

/// `RET`.
pub open spec fn ret_view(s: CoreView) -> (CoreView, u32) {
    let (s1, addr) = pop16_view(s);
    (set_cpu(s1, Cpu { pc: addr, ..s1.cpu }), 16)
}

/// `RET cc` with the condition already evaluated.
pub open spec fn ret_cc_view(s: CoreView, take: bool) -> (CoreView, u32) {
    if take {
        let (s1, addr) = pop16_view(s);
        (set_cpu(s1, Cpu { pc: addr, ..s1.cpu }), 20)
    } else {
        (s, 8)
    }
}

/// `CALL a16`.
pub open spec fn call_a16_view(s: CoreView) -> (CoreView, u32) {
    let (s1, addr) = fetch16_view(s);
    let s2 = push16_view(s1, s1.cpu.pc);
    (set_cpu(s2, Cpu { pc: addr, ..s2.cpu }), 24)
}

/// `CALL cc, a16` with the condition already evaluated.
pub open spec fn call_cc_view(s: CoreView, take: bool) -> (CoreView, u32) {
    let (s1, addr) = fetch16_view(s);
    if take {
        let s2 = push16_view(s1, s1.cpu.pc);
        (set_cpu(s2, Cpu { pc: addr, ..s2.cpu }), 24)
    } else {
        (s1, 12)
    }
}

/// Reads an 8-bit operand referred to by the register selector encoding.
pub fn read_r8(core: &mut Core, code: u8) -> (r: (u8, u32))
    ensures
        r == reg8_view(old(core)@, code),
        *final(core) == *old(core),
{
    let r = code & 0x07;
    if r == 0 {
        (core.cpu.b, 0)
    } else if r == 1 {
        (core.cpu.c, 0)
    } else if r == 2 {
        (core.cpu.d, 0)
    } else if r == 3 {
        (core.cpu.e, 0)
    } else if r == 4 {
        (core.cpu.h, 0)
    } else if r == 5 {
        (core.cpu.l, 0)
    } else if r == 6 {
        let addr = core.cpu.hl();
        let value = read8_scalar(&mut core.bus, addr);
        (value, CycleCost::Clocks4.as_u32())
    } else {
        (core.cpu.a, 0)
    }
}

/// Writes an 8-bit operand to the register or memory target specified by the encoding.
pub fn write_r8(core: &mut Core, code: u8, value: u8) -> (r: u32)
    ensures
        (final(core)@, r) == write_r8_view(old(core)@, code, value),
{
    let r = code & 0x07;
    if r == 0 {
        core.cpu.b = value;
        0
    } else if r == 1 {
        core.cpu.c = value;
        0
    } else if r == 2 {
        core.cpu.d = value;
        0
    } else if r == 3 {
        core.cpu.e = value;
        0
    } else if r == 4 {
        core.cpu.h = value;
        0
    } else if r == 5 {
        core.cpu.l = value;
        0
    } else if r == 6 {
        let addr = core.cpu.hl();
        write8_scalar(&mut core.bus, addr, value);
        CycleCost::Clocks4.as_u32()
    } else {
        core.cpu.a = value;
        0
    }
}

/// Evaluates a conditional branch code against the current flag register.
pub fn cond(flags: &Flags, cc: u8) -> (r: bool)
    ensures
        r == cond_spec(*flags, cc),
{
    let k = cc & 0x03;
    if k == 0 {
        !flags.z()
    } else if k == 1 {
        flags.z()
    } else if k == 2 {
        !flags.c()
    } else {
        flags.c()
    }
}

/// Implements the `NOP` instruction.
pub fn op_nop() -> (r: u32)
    ensures
        r == 4,
{
    CycleCost::Clocks4.as_u32()
}

/// Handler for opcodes without an implementation: consumes 4 cycles.
pub fn op_unimplemented() -> (r: u32)
    ensures
        r == 4,
{
    CycleCost::Clocks4.as_u32()
}

#[verifier::rlimit(60)]
fn alu_assign(core: &mut Core, operand: u8, op: AluOp)
    ensures
        final(core)@ == set_cpu(old(core)@, alu_cpu(old(core).cpu, operand, op)),
{
    match op {
        AluOp::Add => {
            let result = Scalar::add8(core.cpu.a, operand, false, &mut core.cpu.f);
            core.cpu.a = result;
        },
        AluOp::Adc => {
            let carry = core.cpu.f.c();
            let result = Scalar::add8(core.cpu.a, operand, carry, &mut core.cpu.f);
            core.cpu.a = result;
        },
        AluOp::Sub => {
            let result = Scalar::sub8(core.cpu.a, operand, false, &mut core.cpu.f);
            core.cpu.a = result;
        },
        AluOp::Sbc => {
            let carry = core.cpu.f.c();
            let result = Scalar::sub8(core.cpu.a, operand, carry, &mut core.cpu.f);
            core.cpu.a = result;
        },
        AluOp::And => {
            let result = core.cpu.a & operand;
            core.cpu.a = result;
            core.cpu.f.set_z(result == 0);
            core.cpu.f.set_n(false);
            core.cpu.f.set_h(true);
            core.cpu.f.set_c(false);
        },
        AluOp::Xor => {
            let result = core.cpu.a ^ operand;
            core.cpu.a = result;
            core.cpu.f.set_z(result == 0);
            core.cpu.f.set_n(false);
            core.cpu.f.set_h(false);
            core.cpu.f.set_c(false);
        },
        AluOp::Or => {
            let result = core.cpu.a | operand;
            core.cpu.a = result;
            core.cpu.f.set_z(result == 0);
            core.cpu.f.set_n(false);
            core.cpu.f.set_h(false);
            core.cpu.f.set_c(false);
        },
        AluOp::Cp => {
            let _ = Scalar::sub8(core.cpu.a, operand, false, &mut core.cpu.f);
        },
    }
}

/// Loads a 16-bit immediate into one of the register pairs.
pub fn op_ld_rr_d16(core: &mut Core, rp: u8) -> (r: u32)
    ensures
        (final(core)@, r) == ld_rr_d16_view(old(core)@, rp),
{
    let imm = core.cpu.fetch16(&mut core.bus);
    let k = rp & 0x03;
    if k == 0 {
        core.cpu.set_bc(imm);
    } else if k == 1 {
        core.cpu.set_de(imm);
    } else if k == 2 {
        core.cpu.set_hl(imm);
    } else {
        core.cpu.sp = imm;
    }
    CycleCost::Clocks12.as_u32()
}

/// Stores the accumulator into the memory location pointed to by `BC` or `DE`.
pub fn op_ld_mem_rr_a(core: &mut Core, rp: u8) -> (r: u32)
    requires
        rp & 0x03 < 2,
    ensures
        (final(core)@, r) == ld_mem_rr_a_view(old(core)@, rp),
{
    let addr = if rp & 0x03 == 0 {
        core.cpu.bc()
    } else {
        core.cpu.de()
    };
    let value = core.cpu.a;
    write8_scalar(&mut core.bus, addr, value);
    CycleCost::Clocks8.as_u32()
}

/// Loads the accumulator from the memory location pointed to by `BC` or `DE`.
pub fn op_ld_a_mem_rr(core: &mut Core, rp: u8) -> (r: u32)
    requires
        rp & 0x03 < 2,
    ensures
        (final(core)@, r) == ld_a_mem_rr_view(old(core)@, rp),
{
    let addr = if rp & 0x03 == 0 {
        core.cpu.bc()
    } else {
        core.cpu.de()
    };
    core.cpu.a = read8_scalar(&mut core.bus, addr);
    CycleCost::Clocks8.as_u32()
}

/// Loads an immediate byte into a register or `(HL)` target.
pub fn op_ld_r_d8(core: &mut Core, dst: u8) -> (r: u32)
    ensures
        (final(core)@, r) == ld_r_d8_view(old(core)@, dst),
{
    let imm = core.cpu.fetch8(&mut core.bus);
    let extra = write_r8(core, dst, imm);
    CycleCost::Clocks8.as_u32() + extra
}

/// Stores an immediate byte into `(HL)`.
pub fn op_ld_hl_d8(core: &mut Core) -> (r: u32)
    ensures
        (final(core)@, r) == ld_hl_d8_view(old(core)@),
{
    let imm = core.cpu.fetch8(&mut core.bus);
    let addr = core.cpu.hl();
    write8_scalar(&mut core.bus, addr, imm);
    CycleCost::Clocks12.as_u32()
}

/// Stores the stack pointer to an absolute address.
pub fn op_ld_mem_a16_sp(core: &mut Core) -> (r: u32)
    ensures
        (final(core)@, r) == ld_mem_a16_sp_view(old(core)@),
{
    let addr = core.cpu.fetch16(&mut core.bus);
    let sp = core.cpu.sp;
    let (hi, lo) = Scalar::split_u16(sp);
    let ghost s1 = core@;
    write8_scalar(&mut core.bus, addr, lo);
    let next_addr = addr.wrapping_add(1);
    assert(next_addr == inc16(addr));
    write8_scalar(&mut core.bus, next_addr, hi);
    assert(core@ == set_bus(s1, write8_view(write8_view(s1.bus, addr, (sp % 256) as u8), inc16(addr), (sp / 256) as u8)));
    CycleCost::Clocks20.as_u32()
}

/// Writes the accumulator to the high-memory IO space using an immediate offset.
pub fn op_ldh_a8_a(core: &mut Core) -> (r: u32)
    ensures
        (final(core)@, r) == ldh_a8_a_view(old(core)@),
{
    let offset = core.cpu.fetch8(&mut core.bus);
    let addr = 0xFF00u16 + offset as u16;
    let a = core.cpu.a;
    write8_scalar(&mut core.bus, addr, a);
    CycleCost::Clocks12.as_u32()
}

/// Reads the accumulator from the high-memory IO space using an immediate offset.
pub fn op_ldh_a_a8(core: &mut Core) -> (r: u32)
    ensures
        (final(core)@, r) == ldh_a_a8_view(old(core)@),
{
    let offset = core.cpu.fetch8(&mut core.bus);
    let addr = 0xFF00u16 + offset as u16;
    let value = read8_scalar(&mut core.bus, addr);
    core.cpu.a = value;
    CycleCost::Clocks12.as_u32()
}

/// Writes the accumulator to the high-memory IO space using register `C`.
pub fn op_ldh_c_a(core: &mut Core) -> (r: u32)
    ensures
        (final(core)@, r) == ldh_c_a_view(old(core)@),
{
    let addr = 0xFF00u16 + core.cpu.c as u16;
    let a = core.cpu.a;
    write8_scalar(&mut core.bus, addr, a);
    CycleCost::Clocks8.as_u32()
}

/// Reads the accumulator from the high-memory IO space using register `C`.
pub fn op_ldh_a_c(core: &mut Core) -> (r: u32)
    ensures
        (final(core)@, r) == ldh_a_c_view(old(core)@),
{
    let addr = 0xFF00u16 + core.cpu.c as u16;
    core.cpu.a = read8_scalar(&mut core.bus, addr);
    CycleCost::Clocks8.as_u32()
}

/// Loads the accumulator from an absolute 16-bit address.
pub fn op_ld_a_a16(core: &mut Core) -> (r: u32)
    ensures
        (final(core)@, r) == ld_a_a16_view(old(core)@),
{
    let addr = core.cpu.fetch16(&mut core.bus);
    core.cpu.a = read8_scalar(&mut core.bus, addr);
    CycleCost::Clocks16.as_u32()
}

/// Stores the accumulator to an absolute 16-bit address.
pub fn op_ld_a16_a(core: &mut Core) -> (r: u32)
    ensures
        (final(core)@, r) == ld_a16_a_view(old(core)@),
{
    let addr = core.cpu.fetch16(&mut core.bus);
    let a = core.cpu.a;
    write8_scalar(&mut core.bus, addr, a);
    CycleCost::Clocks16.as_u32()
}

/// Copies a register value to another register or `(HL)`.
pub fn op_ld_r_r(core: &mut Core, opcode: u8) -> (r: u32)
    ensures
        (final(core)@, r) == ld_r_r_view(old(core)@, opcode),
{
    let dst = (opcode >> 3u8) & 0x07;
    let src = opcode & 0x07;
    let (value, read_cycles) = read_r8(core, src);
    let write_cycles = write_r8(core, dst, value);
    CycleCost::Clocks4.as_u32() + read_cycles + write_cycles
}

/// Increments an 8-bit register or memory location.
pub fn op_inc_r(core: &mut Core, idx: u8) -> (r: u32)
    ensures
        (final(core)@, r) == inc_r_view(old(core)@, idx),
{
    let k = idx & 0x07;
    if k == 6 {
        let addr = core.cpu.hl();
        let value = read8_scalar(&mut core.bus, addr);
        let (result, _) = core.inc_reg(value);
        write8_scalar(&mut core.bus, addr, result);
        CycleCost::Clocks12.as_u32()
    } else if k == 0 {
        let (value, cycles) = core.inc_reg(core.cpu.b);
        core.cpu.b = value;
        cycles
    } else if k == 1 {
        let (value, cycles) = core.inc_reg(core.cpu.c);
        core.cpu.c = value;
        cycles
    } else if k == 2 {
        let (value, cycles) = core.inc_reg(core.cpu.d);
        core.cpu.d = value;
        cycles
    } else if k == 3 {
        let (value, cycles) = core.inc_reg(core.cpu.e);
        core.cpu.e = value;
        cycles
    } else if k == 4 {
        let (value, cycles) = core.inc_reg(core.cpu.h);
        core.cpu.h = value;
        cycles
    } else if k == 5 {
        let (value, cycles) = core.inc_reg(core.cpu.l);
        core.cpu.l = value;
        cycles
    } else {
        let (value, cycles) = core.inc_reg(core.cpu.a);
        core.cpu.a = value;
        cycles
    }
}

/// Decrements an 8-bit register or memory location.
pub fn op_dec_r(core: &mut Core, idx: u8) -> (r: u32)
    ensures
        (final(core)@, r) == dec_r_view(old(core)@, idx),
{
    let k = idx & 0x07;
    if k == 6 {
        let addr = core.cpu.hl();
        let value = read8_scalar(&mut core.bus, addr);
        let (result, _) = core.dec_reg(value);
        write8_scalar(&mut core.bus, addr, result);
        CycleCost::Clocks12.as_u32()
    } else if k == 0 {
        let (value, cycles) = core.dec_reg(core.cpu.b);
        core.cpu.b = value;
        cycles
    } else if k == 1 {
        let (value, cycles) = core.dec_reg(core.cpu.c);
        core.cpu.c = value;
        cycles
    } else if k == 2 {
        let (value, cycles) = core.dec_reg(core.cpu.d);
        core.cpu.d = value;
        cycles
    } else if k == 3 {
        let (value, cycles) = core.dec_reg(core.cpu.e);
        core.cpu.e = value;
        cycles
    } else if k == 4 {
        let (value, cycles) = core.dec_reg(core.cpu.h);
        core.cpu.h = value;
        cycles
    } else if k == 5 {
        let (value, cycles) = core.dec_reg(core.cpu.l);
        core.cpu.l = value;
        cycles
    } else {
        let (value, cycles) = core.dec_reg(core.cpu.a);
        core.cpu.a = value;
        cycles
    }
}

/// Increments a 16-bit register pair.
pub fn op_inc_rr(core: &mut Core, rp: u8) -> (r: u32)
    ensures
        (final(core)@, r) == inc_rr_view(old(core)@, rp),
{
    let k = rp & 0x03;
    if k == 0 {
        let (value, cycles) = core.inc16(core.cpu.bc());
        core.cpu.set_bc(value);
        cycles
    } else if k == 1 {
        let (value, cycles) = core.inc16(core.cpu.de());
        core.cpu.set_de(value);
        cycles
    } else if k == 2 {
        let (value, cycles) = core.inc16(core.cpu.hl());
        core.cpu.set_hl(value);
        cycles
    } else {
        let (value, cycles) = core.inc16(core.cpu.sp);
        core.cpu.sp = value;
        cycles
    }
}

/// Decrements a 16-bit register pair.
pub fn op_dec_rr(core: &mut Core, rp: u8) -> (r: u32)
    ensures
        (final(core)@, r) == dec_rr_view(old(core)@, rp),
{
    let k = rp & 0x03;
    if k == 0 {
        let (value, cycles) = core.dec16(core.cpu.bc());
        core.cpu.set_bc(value);
        cycles
    } else if k == 1 {
        let (value, cycles) = core.dec16(core.cpu.de());
        core.cpu.set_de(value);
        cycles
    } else if k == 2 {
        let (value, cycles) = core.dec16(core.cpu.hl());
        core.cpu.set_hl(value);
        cycles
    } else {
        let (value, cycles) = core.dec16(core.cpu.sp);
        core.cpu.sp = value;
        cycles
    }
}

/// Adds a register pair to HL.
pub fn op_add_hl_rr(core: &mut Core, rp: u8) -> (r: u32)
    ensures
        (final(core)@, r) == add_hl_rr_view(old(core)@, rp),
{
    let k = rp & 0x03;
    let rhs = if k == 0 {
        core.cpu.bc()
    } else if k == 1 {
        core.cpu.de()
    } else if k == 2 {
        core.cpu.hl()
    } else {
        core.cpu.sp
    };
    core.add16_hl(rhs)
}

/// Adds a signed immediate value to SP.
pub fn op_add_sp_e8(core: &mut Core) -> (r: u32)
    ensures
        (final(core)@, r) == add_sp_e8_view(old(core)@),
{
    let imm = core.cpu.fetch8(&mut core.bus);
    let (result, h, c) = core.add_sp_e8(imm);
    core.cpu.sp = result;
    core.cpu.f.set_z(false);
    core.cpu.f.set_n(false);
    core.cpu.f.set_h(h);
    core.cpu.f.set_c(c);
    CycleCost::Clocks16.as_u32()
}

/// Computes `HL = SP + e8` while updating flags.
pub fn op_ld_hl_sp_plus_e8(core: &mut Core) -> (r: u32)
    ensures
        (final(core)@, r) == ld_hl_sp_plus_e8_view(old(core)@),
{
    let imm = core.cpu.fetch8(&mut core.bus);
    let (result, h, c) = core.add_sp_e8(imm);
    core.cpu.set_hl(result);
    core.cpu.f.set_z(false);
    core.cpu.f.set_n(false);
    core.cpu.f.set_h(h);
    core.cpu.f.set_c(c);
    CycleCost::Clocks12.as_u32()
}

/// Copies HL into SP.
pub fn op_ld_sp_hl(core: &mut Core) -> (r: u32)
    ensures
        (final(core)@, r) == ld_sp_hl_view(old(core)@),
{
    core.cpu.sp = core.cpu.hl();
    CycleCost::Clocks8.as_u32()
}

/// Stores `A` to `(HL)` and increments HL.
pub fn op_ldi_hl_a(core: &mut Core) -> (r: u32)
    ensures
        (final(core)@, r) == ld_hl_a_step_view(old(core)@, true),
{
    let addr = core.cpu.hl();
    let a = core.cpu.a;
    write8_scalar(&mut core.bus, addr, a);
    let next = addr.wrapping_add(1);
    core.cpu.set_hl(next);
    CycleCost::Clocks8.as_u32()
}

/// Loads `A` from `(HL)` and increments HL.
pub fn op_ldi_a_hl(core: &mut Core) -> (r: u32)
    ensures
        (final(core)@, r) == ld_a_hl_step_view(old(core)@, true),
{
    let addr = core.cpu.hl();
    let value = read8_scalar(&mut core.bus, addr);
    let next = addr.wrapping_add(1);
    core.cpu.set_hl(next);
    core.cpu.a = value;
    CycleCost::Clocks8.as_u32()
}

/// Stores `A` to `(HL)` and then decrements HL.
pub fn op_ldd_hl_a(core: &mut Core) -> (r: u32)
    ensures
        (final(core)@, r) == ld_hl_a_step_view(old(core)@, false),
{
    let addr = core.cpu.hl();
    let a = core.cpu.a;
    write8_scalar(&mut core.bus, addr, a);
    let next = addr.wrapping_sub(1);
    core.cpu.set_hl(next);
    CycleCost::Clocks8.as_u32()
}

/// Loads `A` from `(HL)` and then decrements HL.
pub fn op_ldd_a_hl(core: &mut Core) -> (r: u32)
    ensures
        (final(core)@, r) == ld_a_hl_step_view(old(core)@, false),
{
    let addr = core.cpu.hl();
    let value = read8_scalar(&mut core.bus, addr);
    let next = addr.wrapping_sub(1);
    core.cpu.set_hl(next);
    core.cpu.a = value;
    CycleCost::Clocks8.as_u32()
}

/// Performs an unconditional relative jump.
pub fn op_jr(core: &mut Core) -> (r: u32)
    ensures
        (final(core)@, r) == jr_view(old(core)@),
{
    let off = core.cpu.fetch8(&mut core.bus);
    core.jump_relative(off, true);
    CycleCost::Clocks12.as_u32()
}

/// Performs a conditional relative jump.
pub fn op_jr_cc(core: &mut Core, opcode: u8) -> (r: u32)
    ensures
        (final(core)@, r) == jr_cc_view(old(core)@, opcode),
{
    let off = core.cpu.fetch8(&mut core.bus);
    let cc = (opcode >> 3u8) & 0x03;
    let taken = cond(&core.cpu.f, cc);
    core.jump_relative(off, taken);
    if taken {
        CycleCost::Clocks12.as_u32()
    } else {
        CycleCost::Clocks8.as_u32()
    }
}

/// Executes an ALU operation on `A` with a register or `(HL)` operand.
pub fn op_alu_a_r(core: &mut Core, opcode: u8, op: AluOp) -> (r: u32)
    ensures
        (final(core)@, r) == alu_a_r_view(old(core)@, opcode, op),
{
    let (operand, read_cycles) = read_r8(core, opcode);
    alu_assign(core, operand, op);
    CycleCost::Clocks4.as_u32() + read_cycles
}

/// Executes an ALU operation on `A` with an immediate operand.
pub fn op_alu_a_d8(core: &mut Core, op: AluOp) -> (r: u32)
    ensures
        (final(core)@, r) == alu_a_d8_view(old(core)@, op),
{
    let imm = core.cpu.fetch8(&mut core.bus);
    alu_assign(core, imm, op);
    CycleCost::Clocks8.as_u32()
}

/// Rotates `A` left without carry and clears `Z`.
pub fn op_rlca(core: &mut Core) -> (r: u32)
    ensures
        (final(core)@, r) == rlca_view(old(core)@),
{
    let value = core.cpu.a;
    let carry = value >> 7u8;
    let result = (value << 1u8) | carry;
    core.cpu.a = result;
    core.cpu.f.set_z(false);
    core.cpu.f.set_n(false);
    core.cpu.f.set_h(false);
    core.cpu.f.set_c(carry != 0);
    CycleCost::Clocks4.as_u32()
}

/// Rotates `A` left through the carry flag.
pub fn op_rla(core: &mut Core) -> (r: u32)
    ensures
        (final(core)@, r) == rla_view(old(core)@),
{
    let value = core.cpu.a;
    let carry_in: u8 = if core.cpu.f.c() { 1 } else { 0 };
    let carry_out = value >> 7u8;
    let result = (value << 1u8) | carry_in;
    core.cpu.a = result;
    core.cpu.f.set_z(false);
    core.cpu.f.set_n(false);
    core.cpu.f.set_h(false);
    core.cpu.f.set_c(carry_out != 0);
    CycleCost::Clocks4.as_u32()
}

/// Rotates `A` right without carry and clears `Z`.
pub fn op_rrca(core: &mut Core) -> (r: u32)
    ensures
        (final(core)@, r) == rrca_view(old(core)@),
{
    let value = core.cpu.a;
    let carry = value & 0x01;
    let result = (value >> 1u8) | (carry << 7u8);
    core.cpu.a = result;
    core.cpu.f.set_z(false);
    core.cpu.f.set_n(false);
    core.cpu.f.set_h(false);
    core.cpu.f.set_c(carry != 0);
    CycleCost::Clocks4.as_u32()
}

/// Rotates `A` right through the carry flag.
pub fn op_rra(core: &mut Core) -> (r: u32)
    ensures
        (final(core)@, r) == rra_view(old(core)@),
{
    let value = core.cpu.a;
    let carry_in: u8 = if core.cpu.f.c() { 1 } else { 0 };
    let carry_out = value & 0x01;
    let result = (value >> 1u8) | (carry_in << 7u8);
    core.cpu.a = result;
    core.cpu.f.set_z(false);
    core.cpu.f.set_n(false);
    core.cpu.f.set_h(false);
    core.cpu.f.set_c(carry_out != 0);
    CycleCost::Clocks4.as_u32()
}

/// Adjusts `A` for binary-coded decimal representation.
#[verifier::rlimit(60)]
pub fn op_daa(core: &mut Core) -> (r: u32)
    ensures
        (final(core)@, r) == daa_view(old(core)@),
{
    let mut a = core.cpu.a;
    let mut carry = core.cpu.f.c();
    if !core.cpu.f.n() {
        if carry || a > 0x99 {
            a = a.wrapping_add(0x60);
            carry = true;
        }
        if core.cpu.f.h() || (a & 0x0F) > 0x09 {
            a = a.wrapping_add(0x06);
        }
    } else {
        if carry {
            a = a.wrapping_sub(0x60);
        }
        if core.cpu.f.h() {
            a = a.wrapping_sub(0x06);
        }
    }
    core.cpu.a = a;
    core.cpu.f.set_z(a == 0);
    core.cpu.f.set_h(false);
    core.cpu.f.set_c(carry);
    CycleCost::Clocks4.as_u32()
}

/// Complements the accumulator.
pub fn op_cpl(core: &mut Core) -> (r: u32)
    ensures
        (final(core)@, r) == cpl_view(old(core)@),
{
    let value = core.cpu.a ^ 0xFF;
    core.cpu.a = value;
    core.cpu.f.set_n(true);
    core.cpu.f.set_h(true);
    CycleCost::Clocks4.as_u32()
}

/// Sets the carry flag and clears `N`/`H`.
pub fn op_scf(core: &mut Core) -> (r: u32)
    ensures
        (final(core)@, r) == scf_view(old(core)@),
{
    core.cpu.f.set_n(false);
    core.cpu.f.set_h(false);
    core.cpu.f.set_c(true);
    CycleCost::Clocks4.as_u32()
}

/// Complements the carry flag while clearing `N`/`H`.
pub fn op_ccf(core: &mut Core) -> (r: u32)
    ensures
        (final(core)@, r) == ccf_view(old(core)@),
{
    core.cpu.f.set_n(false);
    core.cpu.f.set_h(false);
    let c = core.cpu.f.c();
    core.cpu.f.set_c(!c);
    CycleCost::Clocks4.as_u32()
}

/// Disables interrupts immediately.
pub fn op_di(core: &mut Core) -> (r: u32)
    ensures
        (final(core)@, r) == di_view(old(core)@),
{
    core.cpu.ime = false;
    core.cpu.enable_ime_pending = false;
    CycleCost::Clocks4.as_u32()
}

/// Schedules interrupts to enable after the next instruction.
pub fn op_ei(core: &mut Core) -> (r: u32)
    ensures
        (final(core)@, r) == ei_view(old(core)@),
{
    core.cpu.enable_ime_pending = true;
    CycleCost::Clocks4.as_u32()
}

/// Enters the HALT low-power state.
pub fn op_halt(core: &mut Core) -> (r: u32)
    ensures
        (final(core)@, r) == halt_view(old(core)@),
{
    core.cpu.halted = true;
    CycleCost::Clocks4.as_u32()
}

/// Enters the STOP low-power state (treated as HALT).
pub fn op_stop(core: &mut Core) -> (r: u32)
    ensures
        (final(core)@, r) == halt_view(old(core)@),
{
    core.cpu.halted = true;
    CycleCost::Clocks4.as_u32()
}

/// Jumps to the address stored in HL.
pub fn op_jp_hl(core: &mut Core) -> (r: u32)
    ensures
        (final(core)@, r) == jp_hl_view(old(core)@),
{
    let addr = core.cpu.hl();
    core.cpu.pc = addr;
    CycleCost::Clocks4.as_u32()
}

/// Pushes a register pair onto the stack.
pub fn op_push_rr(core: &mut Core, rp: u8) -> (r: u32)
    ensures
        (final(core)@, r) == push_rr_view(old(core)@, rp),
{
    let k = rp & 0x03;
    let value = if k == 0 {
        core.cpu.bc()
    } else if k == 1 {
        core.cpu.de()
    } else if k == 2 {
        core.cpu.hl()
    } else {
        core.cpu.af()
    };
    core.cpu.push16(&mut core.bus, value);
    CycleCost::Clocks16.as_u32()
}

/// Pops a register pair from the stack.
pub fn op_pop_rr(core: &mut Core, rp: u8) -> (r: u32)
    ensures
        (final(core)@, r) == pop_rr_view(old(core)@, rp),
{
    let value = core.cpu.pop16(&mut core.bus);
    let k = rp & 0x03;
    if k == 0 {
        core.cpu.set_bc(value);
    } else if k == 1 {
        core.cpu.set_de(value);
    } else if k == 2 {
        core.cpu.set_hl(value);
    } else {
        core.cpu.set_af(value);
    }
    CycleCost::Clocks12.as_u32()
}

/// `RLC`: rotate left; bit 7 goes to the carry and to bit 0.
fn cb_rlc(value: u8) -> (r: (u8, bool))
    ensures
        r == cb_result(0, value, false),
{
    ((value << 1u8) | (value >> 7u8), value & 0x80 != 0)
}

/// `RRC`: rotate right; bit 0 goes to the carry and to bit 7.
fn cb_rrc(value: u8) -> (r: (u8, bool))
    ensures
        r == cb_result(1, value, false),
{
    ((value >> 1u8) | (value << 7u8), value & 0x01 != 0)
}

/// `RL`: rotate left through the carry.
fn cb_rl(value: u8, carry_in: bool) -> (r: (u8, bool))
    ensures
        r == cb_result(2, value, carry_in),
{
    let ci: u8 = if carry_in { 1 } else { 0 };
    ((value << 1u8) | ci, value & 0x80 != 0)
}

/// `RR`: rotate right through the carry.
fn cb_rr(value: u8, carry_in: bool) -> (r: (u8, bool))
    ensures
        r == cb_result(3, value, carry_in),
{
    let ci: u8 = if carry_in { 1 } else { 0 };
    ((value >> 1u8) | (ci << 7u8), value & 0x01 != 0)
}

/// `SLA`: shift left; bit 7 goes to the carry.
fn cb_sla(value: u8) -> (r: (u8, bool))
    ensures
        r == cb_result(4, value, false),
{
    (value << 1u8, value & 0x80 != 0)
}

/// `SRA`: arithmetic shift right (bit 7 kept); bit 0 goes to the carry.
fn cb_sra(value: u8) -> (r: (u8, bool))
    ensures
        r == cb_result(5, value, false),
{
    ((value >> 1u8) | (value & 0x80), value & 0x01 != 0)
}

/// `SWAP`: exchange the nibbles; the carry is cleared.
fn cb_swap(value: u8) -> (r: (u8, bool))
    ensures
        r == cb_result(6, value, false),
{
    ((value << 4u8) | (value >> 4u8), false)
}

/// `SRL`: logical shift right; bit 0 goes to the carry.
fn cb_srl(value: u8) -> (r: (u8, bool))
    ensures
        r == cb_result(7, value, false),
{
    (value >> 1u8, value & 0x01 != 0)
}

fn cb_exec_rotate(core: &mut Core, variant: u8, z: u8) -> (r: (u32, u32))
    requires
        variant < 8,
    ensures
        (final(core)@, r.0, r.1) == cb_rotate_view(old(core)@, variant, z),
{
    let (value, read_cycles) = read_r8(core, z);
    let carry_in = core.cpu.f.c();
    let (result, carry) = if variant == 0 {
        cb_rlc(value)
    } else if variant == 1 {
        cb_rrc(value)
    } else if variant == 2 {
        cb_rl(value, carry_in)
    } else if variant == 3 {
        cb_rr(value, carry_in)
    } else if variant == 4 {
        cb_sla(value)
    } else if variant == 5 {
        cb_sra(value)
    } else if variant == 6 {
        cb_swap(value)
    } else {
        cb_srl(value)
    };
    let write_cycles = write_r8(core, z, result);
    core.cpu.f.set_z(result == 0);
    core.cpu.f.set_n(false);
    core.cpu.f.set_h(false);
    core.cpu.f.set_c(carry);
    (read_cycles, write_cycles)
}

fn cb_exec_bit(core: &mut Core, bit: u8, z: u8) -> (r: u32)
    requires
        bit < 8,
    ensures
        (final(core)@, r) == cb_bit_view(old(core)@, bit, z),
{
    let (value, read_cycles) = read_r8(core, z);
    let zero = value & (1u8 << bit) == 0;
    core.cpu.f.set_z(zero);
    core.cpu.f.set_n(false);
    core.cpu.f.set_h(true);
    read_cycles
}

fn cb_exec_res(core: &mut Core, bit: u8, z: u8) -> (r: (u32, u32))
    requires
        bit < 8,
    ensures
        (final(core)@, r.0, r.1) == cb_res_view(old(core)@, bit, z),
{
    let (value, read_cycles) = read_r8(core, z);
    let result = value & !(1u8 << bit);
    let write_cycles = write_r8(core, z, result);
    (read_cycles, write_cycles)
}

fn cb_exec_set(core: &mut Core, bit: u8, z: u8) -> (r: (u32, u32))
    requires
        bit < 8,
    ensures
        (final(core)@, r.0, r.1) == cb_set_view(old(core)@, bit, z),
{
    let (value, read_cycles) = read_r8(core, z);
    let result = value | (1u8 << bit);
    let write_cycles = write_r8(core, z, result);
    (read_cycles, write_cycles)
}

/// Executes a CB-prefixed extended opcode.
pub fn op_cb(core: &mut Core, sub: u8) -> (r: u32)
    ensures
        (final(core)@, r) == cb_view(old(core)@, sub),
{
    let x = sub >> 6u8;
    let y = (sub >> 3u8) & 0x07;
    let z = sub & 0x07;
    proof {
        crate::bits::lemma_byte_fields();
    }
    if x == 0 {
        let (read_cycles, write_cycles) = cb_exec_rotate(core, y, z);
        CycleCost::Clocks8.as_u32() + read_cycles + write_cycles
    } else if x == 1 {
        let read_cycles = cb_exec_bit(core, y, z);
        CycleCost::Clocks8.as_u32() + read_cycles
    } else if x == 2 {
        let (read_cycles, write_cycles) = cb_exec_res(core, y, z);
        CycleCost::Clocks8.as_u32() + read_cycles + write_cycles
    } else {
        let (read_cycles, write_cycles) = cb_exec_set(core, y, z);
        CycleCost::Clocks8.as_u32() + read_cycles + write_cycles
    }
}

/// Performs an absolute jump.
pub fn op_jp_a16(core: &mut Core) -> (r: u32)
    ensures
        (final(core)@, r) == jp_a16_view(old(core)@),
{
    let addr = core.cpu.fetch16(&mut core.bus);
    core.cpu.pc = addr;
    CycleCost::Clocks16.as_u32()
}

/// Returns from a subroutine.
pub fn op_ret(core: &mut Core) -> (r: u32)
    ensures
        (final(core)@, r) == ret_view(old(core)@),
{
    let addr = core.cpu.pop16(&mut core.bus);
    core.cpu.pc = addr;
    CycleCost::Clocks16.as_u32()
}

/// Conditionally returns from a subroutine.
pub fn op_ret_cc(core: &mut Core, take: bool) -> (r: u32)
    ensures
        (final(core)@, r) == ret_cc_view(old(core)@, take),
{
    if take {
        let addr = core.cpu.pop16(&mut core.bus);
        core.cpu.pc = addr;
        CycleCost::Clocks20.as_u32()
    } else {
        CycleCost::Clocks8.as_u32()
    }
}

/// Calls a subroutine at an absolute address.
pub fn op_call_a16(core: &mut Core) -> (r: u32)
    ensures
        (final(core)@, r) == call_a16_view(old(core)@),
{
    let addr = core.cpu.fetch16(&mut core.bus);
    let ret = core.cpu.pc;
    core.cpu.push16(&mut core.bus, ret);
    core.cpu.pc = addr;
    CycleCost::Clocks24.as_u32()
}

/// Conditionally calls a subroutine at an absolute address.
pub fn op_call_cc(core: &mut Core, take: bool) -> (r: u32)
    ensures
        (final(core)@, r) == call_cc_view(old(core)@, take),
{
    let addr = core.cpu.fetch16(&mut core.bus);
    if take {
        let ret = core.cpu.pc;
        core.cpu.push16(&mut core.bus, ret);
        core.cpu.pc = addr;
        CycleCost::Clocks24.as_u32()
    } else {
        CycleCost::Clocks12.as_u32()
    }
}

} // verus!
