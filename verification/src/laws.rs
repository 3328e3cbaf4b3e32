//! Properties that relate several operations of the core: register pairs,
//! memory, the stack, the flag register and state snapshots.
use vstd::prelude::*;
use crate::bus::{
    advance_serial_view, bus_view_sizes, clock_serial_bit_view, write_serial_control_view, BusView,
};
use crate::gb_core::{
    execute_view, instruction_step_view, interrupt_vector, lowest_interrupt, service_interrupts_view,
    CoreView,
};
use crate::state::{captured, core_state_sizes, core_view_of_state, CoreState};
use crate::cpu::{
    af_of, bc_of, de_of, dec16, hl_of, inc16, pop16_value, push16_bus, with_af, with_bc, with_de,
    with_hl, word, Cpu,
};
use crate::exec::{
    add8_flags, add8_value, bit_of, sub8_flags, sub8_value, flags_byte, flags_of_byte, lemma_flags_byte_roundtrip, lemma_flags_of_byte_roundtrip,
};
use crate::instr::{daa_spec, daa_view};
use crate::mmu::{is_plain_ram, read8_view, write8_view};
use crate::timers::{advance_tima_view, apply_div_view, run_timers_view, Timers};

verus! {

/// Writing a register pair and reading it back gives the written word
/// (`AF` keeps only the high nibble of `F`).
pub proof fn lemma_register_pair_roundtrip(c: Cpu, v: u16)
    ensures
        hl_of(with_hl(c, v)) == v,
        bc_of(with_bc(c, v)) == v,
        de_of(with_de(c, v)) == v,
        af_of(with_af(c, v)) == (v / 256) * 256 + ((v % 256) as u8 & 0xF0),
{
    crate::exec::lemma_flags_byte_roundtrip(((v % 256) as u8) & 0xF0);
    assert((((v % 256) as u8) & 0xF0) & 0xF0 == ((v % 256) as u8) & 0xF0) by (bit_vector);
}

/// Memory cell behind a plain-RAM address (echo RAM shares the work RAM cells).
pub open spec fn ram_cell(addr: u16) -> int {
    if 0xE000 <= addr <= 0xFDFF {
        addr - 0x2000
    } else {
        addr as int
    }
}

/// A byte written to plain RAM reads back unchanged.
pub proof fn lemma_ram_write_read(b: BusView, addr: u16, value: u8)
    requires
        bus_view_sizes(b),
        is_plain_ram(addr),
    ensures
        read8_view(write8_view(b, addr, value), addr) == value,
{
}

/// A write to plain RAM leaves every other plain-RAM cell unchanged.
pub proof fn lemma_ram_write_other(b: BusView, addr: u16, other: u16, value: u8)
    requires
        bus_view_sizes(b),
        is_plain_ram(addr),
        is_plain_ram(other),
        ram_cell(addr) != ram_cell(other),
    ensures
        read8_view(write8_view(b, addr, value), other) == read8_view(b, other),
{
}

/// Echo RAM (`0xE000..=0xFDFF`) reads the same bytes as work RAM 0x2000 lower.
pub proof fn lemma_echo_ram(b: BusView, addr: u16)
    requires
        0xE000 <= addr <= 0xFDFF,
    ensures
        read8_view(b, addr) == read8_view(b, (addr - 0x2000) as u16),
{
}

/// Popping right after a push returns the pushed word when both stack bytes
/// are plain RAM.
pub proof fn lemma_push_pop(b: BusView, sp: u16, v: u16)
    requires
        bus_view_sizes(b),
        is_plain_ram(dec16(sp)),
        is_plain_ram(dec16(dec16(sp))),
    ensures
        pop16_value(push16_bus(b, sp, v), dec16(dec16(sp))) == v,
        inc16(inc16(dec16(dec16(sp)))) == sp,
{
    let hi_addr = dec16(sp);
    let lo_addr = dec16(dec16(sp));
    let b1 = write8_view(b, hi_addr, (v / 256) as u8);
    let b2 = write8_view(b1, lo_addr, (v % 256) as u8);
    assert(bus_view_sizes(b1));
    lemma_ram_write_read(b1, lo_addr, (v % 256) as u8);
    lemma_ram_write_read(b, hi_addr, (v / 256) as u8);
    assert(ram_cell(lo_addr) != ram_cell(hi_addr));
    lemma_ram_write_other(b1, lo_addr, hi_addr, (v % 256) as u8);
    assert(inc16(lo_addr) == hi_addr);
}

/// Encoding the flags into `F` and decoding it again is the identity.
pub proof fn lemma_flags_roundtrip(c: Cpu)
    ensures
        flags_of_byte(flags_byte(c.f)) == c.f,
{
    lemma_flags_of_byte_roundtrip(c.f);
}

/// Loading a snapshot of a core restores exactly that core, provided the
/// joypad select latch agrees with the JOYP register it is restored from.
pub proof fn lemma_snapshot_roundtrip(c: CoreView, st: CoreState)
    requires
        captured(st, c),
        c.bus.joyp_select == c.bus.io[0] & 0x30,
    ensures
        core_view_of_state(c, st) == c,
{
    lemma_flags_of_byte_roundtrip(c.cpu.f);
    assert(core_view_of_state(c, st).bus =~= c.bus);
    assert(core_view_of_state(c, st).cpu == c.cpu);
}

/// Shifting eight ones into any byte fills it.
proof fn lemma_eight_ones(p: u8)
    ensures
        ((((((((((((((((p << 1u8) | 1u8) << 1u8) | 1u8) << 1u8) | 1u8) << 1u8) | 1u8) << 1u8) | 1u8) << 1u8)
            | 1u8) << 1u8) | 1u8) << 1u8) | 1u8) == 0xFFu8,
{
    assert(((((((((((((((((p << 1u8) | 1u8) << 1u8) | 1u8) << 1u8) | 1u8) << 1u8) | 1u8) << 1u8) | 1u8) << 1u8)
        | 1u8) << 1u8) | 1u8) << 1u8) | 1u8) == 0xFFu8) by (bit_vector);
}

/// A transfer started on the internal clock runs for exactly eight bit
/// periods of 512 cycles: one cycle short of 4096 it is still active with one
/// bit to go; at 4096 it has finished, handing out the pending byte, leaving
/// `0xFF` in SB (no partner drives the line), clearing the start bit of SC
/// and raising the serial interrupt flag.
pub proof fn lemma_serial_transfer_completes(b: BusView, value: u8)
    requires
        b.io.len() == 0x80,
        value & 0x81 == 0x81,
        b.io[0x02] & 0x80 == 0 || !b.serial_active,
    ensures
        ({
            let started = write_serial_control_view(b, value);
            let almost = advance_serial_view(started, 4095);
            let done = advance_serial_view(started, 4096);
            &&& almost.serial_active
            &&& almost.serial_bits_remaining == 1
            &&& !done.serial_active
            &&& done.serial_out == b.serial_out.push(b.io[0x01])
            &&& done.io[0x01] == 0xFF
            &&& done.io[0x02] & 0x80 == 0
            &&& done.io[0x0F] & 0x08 != 0
        }),
{
    let started = write_serial_control_view(b, value);
    assert((value & 0x83) & 0x80 != 0 && (value & 0x83) & 0x01 != 0) by (bit_vector)
        requires
            value & 0x81 == 0x81,
    ;
    let prev: u8 = b.io[0x02];
    assert(prev & 0x80 == 0 ==> (prev & 0x81) & 0x80 == 0) by (bit_vector);
    assert(started.serial_active && started.serial_internal_clock && started.serial_counter == 512);
    assert(started.serial_bits_remaining == 8);
    assert(started.serial_pending_data == b.io[0x01]);
    reveal_with_fuel(advance_serial_view, 9);
    let p = started.serial_shift_reg;
    lemma_eight_ones(p);
    let s1 = clock_serial_bit_view(BusView { serial_counter: 0, ..started });
    let s2 = clock_serial_bit_view(BusView { serial_counter: 0, ..s1 });
    let s3 = clock_serial_bit_view(BusView { serial_counter: 0, ..s2 });
    let s4 = clock_serial_bit_view(BusView { serial_counter: 0, ..s3 });
    let s5 = clock_serial_bit_view(BusView { serial_counter: 0, ..s4 });
    let s6 = clock_serial_bit_view(BusView { serial_counter: 0, ..s5 });
    let s7 = clock_serial_bit_view(BusView { serial_counter: 0, ..s6 });
    let s8 = clock_serial_bit_view(BusView { serial_counter: 0, ..s7 });
    assert(s7.serial_active && s7.serial_bits_remaining == 1);
    assert(advance_serial_view(started, 4095) == BusView { serial_counter: 1, ..s7 });
    assert(advance_serial_view(started, 4096) == advance_serial_view(s8, 0));
    let sc: u8 = s7.io[0x02];
    let flags: u8 = s7.io[0x0F];
    assert((((sc & 0x81) & 0x01) & 0x81) & 0x80 == 0) by (bit_vector);
    assert((((flags | 0x08) & 0x1F) | 0xE0) & 0x08 != 0) by (bit_vector);
    assert(!s8.serial_active);
    assert(s8.serial_out == b.serial_out.push(b.io[0x01]));
    assert(s8.io[0x01] == 0xFF);
    assert(s8.io[0x02] & 0x80 == 0);
    assert(s8.io[0x0F] & 0x08 != 0);
}

/// On the external clock a transfer waits for the remote partner: no amount
/// of CPU cycles moves it.
pub proof fn lemma_serial_external_clock_waits(b: BusView, cycles: nat)
    requires
        !b.serial_internal_clock,
    ensures
        advance_serial_view(b, cycles) == b,
{
}

/// Writing SC with the start bit while a transfer is under way does not
/// restart it: the shift register, the bits left, the pending byte and the
/// bit timer are kept.
pub proof fn lemma_serial_retrigger_ignored(b: BusView, value: u8)
    requires
        b.io.len() == 0x80,
        b.serial_active,
        b.io[0x02] & 0x80 != 0,
        value & 0x80 != 0,
    ensures
        ({
            let after = write_serial_control_view(b, value);
            &&& after.serial_active
            &&& after.serial_shift_reg == b.serial_shift_reg
            &&& after.serial_bits_remaining == b.serial_bits_remaining
            &&& after.serial_pending_data == b.serial_pending_data
            &&& after.serial_counter == b.serial_counter
        }),
{
    assert((value & 0x83) & 0x80 != 0) by (bit_vector)
        requires
            value & 0x80 != 0,
    ;
    let sc: u8 = b.io[0x02];
    assert((sc & 0x81) & 0x80 != 0) by (bit_vector)
        requires
            sc & 0x80 != 0,
    ;
}

/// The divider counts every cycle: after `n` cycles of the timer block the
/// internal counter has moved on by `n` (wrapping at 2^16), and DIV reads
/// its high byte.
#[verifier::spinoff_prover]
#[verifier::rlimit(40)]
pub proof fn lemma_div_counts_cycles(t: Timers, b: BusView, n: nat)
    requires
        b.io.len() == 0x80,
    ensures
        run_timers_view(t, b, n).0.div_counter == (t.div_counter + n) % 65536,
        run_timers_view(t, b, n).1.io.len() == 0x80,
        n > 0 ==> run_timers_view(t, b, n).1.io[0x04] == ((t.div_counter + n) % 65536) / 256,
    decreases n,
{
    if n > 0 {
        let step: u32 = if n < 4 {
            n as u32
        } else {
            4
        };
        let (t1, b1) = advance_tima_view(t, b, step);
        let (t2, b2) = apply_div_view(t1, b1, step as u16);
        let new = ((t.div_counter + step) % 65536) as u16;
        assert(t1.div_counter == t.div_counter);
        assert(t2.div_counter == new);
        assert(b2.io.len() == 0x80);
        assert(b2.io[0x04] == (new >> 8u16) as u8);
        assert((new >> 8u16) as u8 == new / 256) by (bit_vector);
        lemma_div_counts_cycles(t2, b2, (n - step) as nat);
        assert((new + (n - step)) % 65536 == (t.div_counter + n) % 65536);
    }
}

/// `DI` disables interrupts at once, also right after `EI`: the pending
/// enable is cancelled, IME stays off, and the instruction takes 4 cycles.
pub proof fn lemma_di_cancels_pending_ei(s: CoreView)
    requires
        read8_view(s.bus, s.cpu.pc) == 0xF3,
    ensures
        ({
            let (s1, cycles) = execute_view(s);
            &&& !s1.cpu.ime
            &&& !s1.cpu.enable_ime_pending
            &&& s1.cpu.pc == inc16(s.cpu.pc)
            &&& cycles == 4
        }),
{
}

/// `EI` takes effect after the following instruction: right after `EI` IME is
/// still off with the enable pending, and after one more instruction (here
/// `NOP`) IME is on and nothing is pending.
pub proof fn lemma_ei_takes_effect_after_next(s: CoreView)
    requires
        !s.cpu.ime,
        !s.cpu.enable_ime_pending,
        read8_view(s.bus, s.cpu.pc) == 0xFB,
        read8_view(s.bus, inc16(s.cpu.pc)) == 0x00,
    ensures
        ({
            let (s1, c1) = execute_view(s);
            let (s2, c2) = execute_view(s1);
            &&& !s1.cpu.ime && s1.cpu.enable_ime_pending && c1 == 4
            &&& s2.cpu.ime && !s2.cpu.enable_ime_pending && c2 == 4
            &&& s2.cpu.pc == inc16(inc16(s.cpu.pc))
        }),
{
    let (s1, c1) = execute_view(s);
    assert(s1.bus == s.bus);
}

/// A byte holding two decimal digits (packed BCD).
pub open spec fn is_bcd(v: u8) -> bool {
    v / 16 <= 9 && v % 16 <= 9
}

/// The number a packed BCD byte denotes.
pub open spec fn bcd_value(v: u8) -> int {
    (v / 16) * 10 + v % 16
}

/// `DAA` after `ADD` of two packed BCD bytes gives their decimal sum: the
/// accumulator holds the sum modulo 100 in packed BCD, carry is set exactly
/// when the sum reaches 100, Z follows the result and H and N are clear.
pub proof fn lemma_daa_after_add(s: CoreView, x: u8, y: u8)
    requires
        is_bcd(x),
        is_bcd(y),
        s.cpu.a == add8_value(x, y, false),
        s.cpu.f == add8_flags(x, y, false),
    ensures
        ({
            let (s1, cycles) = daa_view(s);
            &&& cycles == 4
            &&& is_bcd(s1.cpu.a)
            &&& bcd_value(s1.cpu.a) == (bcd_value(x) + bcd_value(y)) % 100
            &&& s1.cpu.f.c == (bcd_value(x) + bcd_value(y) >= 100)
            &&& s1.cpu.f.z == (s1.cpu.a == 0)
            &&& !s1.cpu.f.h
            &&& !s1.cpu.f.n
        }),
{
    let a = s.cpu.a;
    let h = s.cpu.f.h;
    let c = s.cpu.f.c;
    let c1 = c || a > 0x99;
    let a1: u8 = if c1 { ((a + 0x60) % 256) as u8 } else { a };
    let a2: u8 = if h || (a1 & 0x0F) > 0x09 { ((a1 + 0x06) % 256) as u8 } else { a1 };
    assert(daa_spec(a, s.cpu.f) == (a2, c1));
    lemma_daa_digits(x, y, a, h, c, c1, a1, a2);
}

/// The digit arithmetic behind `lemma_daa_after_add`, over all byte pairs.
proof fn lemma_daa_digits(x: u8, y: u8, a: u8, h: bool, c: bool, c1: bool, a1: u8, a2: u8)
    by (bit_vector)
    requires
        x / 16 <= 9,
        x % 16 <= 9,
        y / 16 <= 9,
        y % 16 <= 9,
        a == ((x + y) % 256) as u8,
        h == ((x % 16) + (y % 16) >= 16),
        c == (x + y >= 256),
        c1 == (c || a > 0x99),
        a1 == if c1 { ((a + 0x60) % 256) as u8 } else { a },
        a2 == if h || (a1 & 0x0F) > 0x09 { ((a1 + 0x06) % 256) as u8 } else { a1 },
    ensures
        a2 / 16 <= 9,
        a2 % 16 <= 9,
        (a2 / 16) * 10 + a2 % 16 == ((x / 16) * 10 + x % 16 + (y / 16) * 10 + y % 16) % 100,
        c1 == ((x / 16) * 10 + x % 16 + (y / 16) * 10 + y % 16 >= 100),
{
}

/// `DAA` after `SUB` of two packed BCD bytes gives their decimal difference:
/// the accumulator holds `x - y` modulo 100 in packed BCD, carry (borrow) is
/// set exactly when `y` exceeds `x`, Z follows the result, H is clear and N
/// stays set.
pub proof fn lemma_daa_after_sub(s: CoreView, x: u8, y: u8)
    requires
        is_bcd(x),
        is_bcd(y),
        s.cpu.a == sub8_value(x, y, false),
        s.cpu.f == sub8_flags(x, y, false),
    ensures
        ({
            let (s1, cycles) = daa_view(s);
            &&& cycles == 4
            &&& is_bcd(s1.cpu.a)
            &&& bcd_value(s1.cpu.a) == (bcd_value(x) - bcd_value(y)) % 100
            &&& s1.cpu.f.c == (bcd_value(x) < bcd_value(y))
            &&& s1.cpu.f.z == (s1.cpu.a == 0)
            &&& !s1.cpu.f.h
            &&& s1.cpu.f.n
        }),
{
    let a = s.cpu.a;
    let h = s.cpu.f.h;
    let c = s.cpu.f.c;
    lemma_sub_wraps(x, y);
    assert(h == ((x % 16) < (y % 16)));
    assert(c == (x < y));
    let a1: u8 = if c { ((a + 256 - 0x60) % 256) as u8 } else { a };
    let a2: u8 = if h { ((a1 + 256 - 0x06) % 256) as u8 } else { a1 };
    assert(daa_spec(a, s.cpu.f) == (a2, c));
    lemma_daa_sub_digits(x, y, a, h, c, a1, a2);
    lemma_mod_hundred(bcd_value(x), bcd_value(y));
}

/// For numbers below 100, `bx - by` and `bx + 100 - by` agree modulo 100.
proof fn lemma_mod_hundred(bx: int, by: int)
    requires
        0 <= bx < 100,
        0 <= by < 100,
    ensures
        (bx - by) % 100 == (bx + 100 - by) % 100,
{
    if bx >= by {
        assert((bx - by) % 100 == bx - by);
        assert((bx + 100 - by) % 100 == bx - by);
    } else {
        assert((bx - by) % 100 == bx - by + 100);
        assert((bx + 100 - by) % 100 == bx + 100 - by);
    }
}

/// A byte difference wrapped Euclidean-style is the difference lifted by 256.
proof fn lemma_sub_wraps(x: u8, y: u8)
    ensures
        sub8_value(x, y, false) == ((x + 256 - y) % 256) as u8,
{
    let d: int = x - y - bit_of(false);
    assert(d == x - y);
    if x >= y {
        assert(d % 256 == d);
        assert((x + 256 - y) % 256 == d);
    } else {
        assert(d % 256 == d + 256);
        assert((x + 256 - y) % 256 == d + 256);
    }
}

/// The digit arithmetic behind `lemma_daa_after_sub`, over all byte pairs.
proof fn lemma_daa_sub_digits(x: u8, y: u8, a: u8, h: bool, c: bool, a1: u8, a2: u8)
    by (bit_vector)
    requires
        x / 16 <= 9,
        x % 16 <= 9,
        y / 16 <= 9,
        y % 16 <= 9,
        a == ((x + 256 - y) % 256) as u8,
        h == ((x % 16) < (y % 16)),
        c == (x < y),
        a1 == if c { ((a + 256 - 0x60) % 256) as u8 } else { a },
        a2 == if h { ((a1 + 256 - 0x06) % 256) as u8 } else { a1 },
    ensures
        a2 / 16 <= 9,
        a2 % 16 <= 9,
        (a2 / 16) * 10 + a2 % 16 == ((x / 16) * 10 + x % 16 + 100 - ((y / 16) * 10 + y % 16)) % 100,
        c == ((x / 16) * 10 + x % 16 < (y / 16) * 10 + y % 16),
{
}

/// Capturing a core right after loading a snapshot into it gives that
/// snapshot back (when its `F` byte has a clear low nibble, as every
/// capture's has), and the joypad select latch follows the restored JOYP.
pub proof fn lemma_load_then_capture(s: CoreView, st: CoreState)
    requires
        core_state_sizes(st),
        st.regs.f & 0x0F == 0,
    ensures
        captured(st, core_view_of_state(s, st)),
        core_view_of_state(s, st).bus.joyp_select == st.io@[0] & 0x30,
{
    lemma_flags_byte_roundtrip(st.regs.f);
    let f = st.regs.f;
    assert(f & 0x0F == 0 ==> f & 0xF0 == f) by (bit_vector);
}

/// Only bits 0-4 of IE and IF are interrupt sources: when none of them is
/// both enabled and requested (IF bits 5-7 read back as 1 whatever IE says),
/// interrupt dispatch leaves the core exactly as it was, and a halted CPU
/// stays halted, idling up to 4 cycles of the budget.
pub proof fn lemma_no_interrupt_source_leaves_core(s: CoreView, budget: u32)
    requires
        s.bus.ie & s.bus.io[0x0F] & 0x1F == 0,
    ensures
        service_interrupts_view(s) == (s, 0u32),
        s.cpu.halted ==> instruction_step_view(s, budget) == (s, if budget < 4 { budget } else { 4 }),
{
    reveal(instruction_step_view);
}

/// With IME set and an interrupt both enabled and requested among bits 0-4,
/// dispatch takes the lowest such interrupt: 20 cycles, `PC` at its vector,
/// IME off, the CPU awake, the old `PC` pushed (the two stack bytes being
/// plain RAM), `SP` two lower and that request bit cleared in IF.
pub proof fn lemma_interrupt_dispatch_takes_lowest(s: CoreView)
    requires
        bus_view_sizes(s.bus),
        is_plain_ram(dec16(s.cpu.sp)),
        is_plain_ram(dec16(dec16(s.cpu.sp))),
        s.cpu.ime,
        s.bus.ie & s.bus.io[0x0F] & 0x1F != 0,
    ensures
        ({
            let p = s.bus.ie & s.bus.io[0x0F] & 0x1F;
            let bit = lowest_interrupt(p);
            let (s1, cycles) = service_interrupts_view(s);
            &&& bit < 5
            &&& p & (1u8 << bit) != 0
            &&& p & ((1u8 << bit) - 1) as u8 == 0
            &&& cycles == 20
            &&& s1.cpu.pc == interrupt_vector(bit)
            &&& !s1.cpu.ime
            &&& !s1.cpu.halted
            &&& s1.cpu.sp == dec16(dec16(s.cpu.sp))
            &&& s1.bus.io[0x0F] == crate::bus::if_store(s.bus.io[0x0F] & !(1u8 << bit))
            &&& pop16_value(s1.bus, s1.cpu.sp) == s.cpu.pc
        }),
{
    let ie = s.bus.ie;
    let ifr = s.bus.io[0x0F];
    let p = ie & ifr & 0x1F;
    assert(p != 0 ==> (
        (p & 0x01 != 0 && p & (1u8 << 0u8) != 0 && p & ((1u8 << 0u8) - 1) as u8 == 0)
        || (p & 0x01 == 0 && p & 0x02 != 0 && p & (1u8 << 1u8) != 0 && p & ((1u8 << 1u8) - 1) as u8 == 0)
        || (p & 0x03 == 0 && p & 0x04 != 0 && p & (1u8 << 2u8) != 0 && p & ((1u8 << 2u8) - 1) as u8 == 0)
        || (p & 0x07 == 0 && p & 0x08 != 0 && p & (1u8 << 3u8) != 0 && p & ((1u8 << 3u8) - 1) as u8 == 0)
        || (p & 0x0F == 0 && p & (1u8 << 4u8) != 0 && p & ((1u8 << 4u8) - 1) as u8 == 0)
    )) by (bit_vector)
        requires
            p == ie & ifr & 0x1F,
    ;
    assert((p & 0x01 == 0 && p & 0x02 == 0) ==> p & 0x03 == 0) by (bit_vector);
    assert((p & 0x03 == 0 && p & 0x04 == 0) ==> p & 0x07 == 0) by (bit_vector);
    assert((p & 0x07 == 0 && p & 0x08 == 0) ==> p & 0x0F == 0) by (bit_vector);
    assert(p & 0x03 == 0 ==> p & 0x01 == 0 && p & 0x02 == 0) by (bit_vector);
    assert(p & 0x07 == 0 ==> p & 0x03 == 0 && p & 0x04 == 0) by (bit_vector);
    assert(p & 0x0F == 0 ==> p & 0x07 == 0 && p & 0x08 == 0) by (bit_vector);
    let bit = lowest_interrupt(p);
    let b1 = BusView { io: s.bus.io.update(0x0F, crate::bus::if_store(ifr & !(1u8 << bit))), ..s.bus };
    assert(bus_view_sizes(b1));
    lemma_push_pop(b1, s.cpu.sp, s.cpu.pc);
    let ghost r = service_interrupts_view(s);
    assert(r.0.bus == push16_bus(b1, s.cpu.sp, s.cpu.pc));
    assert(r.0.bus.io[0x0F] == crate::bus::if_store(ifr & !(1u8 << bit)));
}

/// A running CPU with no interrupt source pending executes exactly one
/// instruction per scheduler step: the instruction part of the step that
/// `Core::step_instruction` and `Core::step_cycles` take is `execute_view`,
/// so the instruction laws above (EI, DI, DAA) hold of those steps.
pub proof fn lemma_step_without_interrupt_executes(s: CoreView, budget: u32)
    requires
        !s.cpu.halted,
        s.bus.ie & s.bus.io[0x0F] & 0x1F == 0,
    ensures
        instruction_step_view(s, budget) == execute_view(s),
{
    reveal(instruction_step_view);
}

} // verus!
