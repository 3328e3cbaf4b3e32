//! Text reports of inspector state: register summaries, memory hexdumps and
//! step results, as printed by the command-line inspector.
use vstd::prelude::*;
use vstd::string::{is_ascii, StringSliceAdditionalSpecFns};
use crate::bus::{ascii_chars, utf8_lossy};
use crate::inspector_vm::InspectorVM;
use crate::service_abi::{CpuVM, PpuVM, TimersVM};

verus! {

/// Every byte is a 7-bit ASCII code.
pub open spec fn ascii_bytes(s: Seq<u8>) -> bool {
    forall|i: int| 0 <= i < s.len() ==> s[i] < 128
}

/// Upper-case hexadecimal digit for a value in `0..16`.
pub open spec fn hex_digit(n: int) -> u8 {
    if n < 10 {
        (48 + n) as u8
    } else {
        (55 + n) as u8
    }
}

/// The low `width` hexadecimal digits of `v`, most significant first
/// (`{:0width$X}` for a value below `16^width`).
pub open spec fn hex_field(v: nat, width: nat) -> Seq<u8>
    decreases width,
{
    if width == 0 {
        Seq::empty()
    } else {
        hex_field(v / 16, (width - 1) as nat).push(hex_digit((v % 16) as int))
    }
}

/// Decimal digits of `n`, most significant first, without leading zeros.
pub open spec fn decimal(n: nat) -> Seq<u8>
    decreases n,
{
    if n < 10 {
        seq![(48 + n) as u8]
    } else {
        decimal(n / 10).push((48 + n % 10) as u8)
    }
}

proof fn lemma_hex_field_ascii(v: nat, width: nat)
    ensures
        ascii_bytes(hex_field(v, width)),
        hex_field(v, width).len() == width,
    decreases width,
{
    if width > 0 {
        lemma_hex_field_ascii(v / 16, (width - 1) as nat);
    }
}

proof fn lemma_decimal_ascii(n: nat)
    ensures
        ascii_bytes(decimal(n)),
    decreases n,
{
    if n >= 10 {
        lemma_decimal_ascii(n / 10);
    }
}

/// Appends the bytes of an ASCII literal.
fn push_literal(out: &mut Vec<u8>, s: &str)
    requires
        is_ascii(s),
    ensures
        final(out)@ == old(out)@ + s.spec_bytes(),
        ascii_bytes(old(out)@) ==> ascii_bytes(final(out)@),
{
    broadcast use vstd::string::group_string_axioms;

    let bytes = s.as_bytes();
    let ghost start = out@;
    let mut i: usize = 0;
    while i < bytes.len()
        invariant
            i <= bytes@.len(),
            bytes@ == s.spec_bytes(),
            is_ascii(s),
            out@ == start + bytes@.subrange(0, i as int),
            ascii_bytes(start) ==> ascii_bytes(out@),
        decreases bytes@.len() - i,
    {
        out.push(bytes[i]);
        i = i + 1;
        assert(out@ == start + bytes@.subrange(0, i as int));
    }
    assert(bytes@.subrange(0, i as int) == bytes@);
}

/// Appends `width` upper-case hexadecimal digits of `v`.
fn push_hex(out: &mut Vec<u8>, v: u32, width: u32)
    ensures
        final(out)@ == old(out)@ + hex_field(v as nat, width as nat),
        ascii_bytes(old(out)@) ==> ascii_bytes(final(out)@),
    decreases width,
{
    if width > 0 {
        push_hex(out, v / 16, width - 1);
        let d: u8 = (v % 16) as u8;
        let c: u8 = if d < 10 {
            48 + d
        } else {
            55 + d
        };
        out.push(c);
        proof {
            lemma_hex_field_ascii(v as nat, width as nat);
        }
    }
}

/// Appends the decimal digits of `n`.
fn push_decimal(out: &mut Vec<u8>, n: u32)
    ensures
        final(out)@ == old(out)@ + decimal(n as nat),
        ascii_bytes(old(out)@) ==> ascii_bytes(final(out)@),
    decreases n,
{
    if n >= 10 {
        push_decimal(out, n / 10);
    }
    let c: u8 = (48 + n % 10) as u8;
    out.push(c);
    proof {
        lemma_decimal_ascii(n as nat);
    }
}

/// One three-column cell of a hexdump line: the byte at `at` and a space, or
/// three spaces past the end of the window.
pub open spec fn hexdump_cell(bytes: Seq<u8>, at: int) -> Seq<u8> {
    if at < bytes.len() {
        hex_field(bytes[at] as nat, 2) + " ".spec_bytes()
    } else {
        "   ".spec_bytes()
    }
}

/// The first `n` cells of the line that starts at `offset`.
pub open spec fn hexdump_cells(bytes: Seq<u8>, offset: int, n: nat) -> Seq<u8>
    decreases n,
{
    if n == 0 {
        Seq::empty()
    } else {
        hexdump_cells(bytes, offset, (n - 1) as nat) + hexdump_cell(bytes, offset + n - 1)
    }
}

/// One hexdump line: the 16-bit address (wrapping), a colon, sixteen cells.
pub open spec fn hexdump_line(base: u16, bytes: Seq<u8>, offset: int) -> Seq<u8> {
    hex_field(((base + offset) % 0x10000) as nat, 4) + ": ".spec_bytes() + hexdump_cells(
        bytes,
        offset,
        16,
    ) + "\n".spec_bytes()
}

/// The first `n` lines of a hexdump, sixteen bytes per line.
pub open spec fn hexdump_lines(base: u16, bytes: Seq<u8>, n: nat) -> Seq<u8>
    decreases n,
{
    if n == 0 {
        Seq::empty()
    } else {
        hexdump_lines(base, bytes, (n - 1) as nat) + hexdump_line(base, bytes, 16 * (n - 1))
    }
}

/// The hexdump of `bytes` read from `base`: one line per sixteen bytes (the
/// last one padded), or the bare address line for an empty window.
pub open spec fn hexdump_bytes(base: u16, bytes: Seq<u8>) -> Seq<u8> {
    if bytes.len() == 0 {
        hex_field(base as nat, 4) + ": ".spec_bytes() + "\n".spec_bytes()
    } else {
        hexdump_lines(base, bytes, ((bytes.len() + 15) / 16) as nat)
    }
}

/// Appends one hexdump line for the window position `offset`.
fn push_hexdump_line(out: &mut Vec<u8>, base: u16, bytes: &[u8], offset: usize)
    ensures
        final(out)@ == old(out)@ + hexdump_line(base, bytes@, offset as int),
        ascii_bytes(old(out)@) ==> ascii_bytes(final(out)@),
{
    proof {
        reveal_strlit(": ");
        reveal_strlit(" ");
        reveal_strlit("   ");
        reveal_strlit("\n");
    }
    let ghost start = out@;
    let low: u16 = (offset % 0x10000) as u16;
    let line_base: u16 = base.wrapping_add(low);
    assert(line_base == (base + offset) % 0x10000) by {
        assert((base + offset) % 0x10000 == (base + low) % 0x10000) by (nonlinear_arith)
            requires low == offset % 0x10000;
    }
    push_hex(out, line_base as u32, 4);
    push_literal(out, ": ");
    let ghost head = out@;
    let mut idx: usize = 0;
    while idx < 16
        invariant
            idx <= 16,
            out@ == head + hexdump_cells(bytes@, offset as int, idx as nat),
            ascii_bytes(start) ==> ascii_bytes(out@),
            ascii_bytes(start) ==> ascii_bytes(head),
        decreases 16 - idx,
    {
        proof {
            reveal_strlit(" ");
            reveal_strlit("   ");
        }
        if idx < bytes.len() && offset < bytes.len() - idx {
            push_hex(out, bytes[offset + idx] as u32, 2);
            push_literal(out, " ");
        } else {
            push_literal(out, "   ");
        }
        idx = idx + 1;
        assert(out@ == head + hexdump_cells(bytes@, offset as int, idx as nat));
    }
    push_literal(out, "\n");
}

/// Formats a hexdump of a memory window read from `base`.
pub fn hexdump(base: u16, bytes: &[u8]) -> (r: String)
    ensures
        r@ == ascii_chars(hexdump_bytes(base, bytes@)),
{
    proof {
        reveal_strlit(": ");
        reveal_strlit("\n");
    }
    let mut out: Vec<u8> = Vec::new();
    let mut offset: usize = 0;
    while offset < bytes.len()
        invariant
            offset <= bytes@.len(),
            offset < bytes@.len() ==> offset % 16 == 0,
            out@ == hexdump_lines(base, bytes@, ((offset + 15) / 16) as nat),
            ascii_bytes(out@),
        decreases bytes@.len() - offset,
    {
        push_hexdump_line(&mut out, base, bytes, offset);
        let ghost k: nat = ((offset + 15) / 16) as nat;
        assert(16 * k == offset);
        assert(out@ == hexdump_lines(base, bytes@, k + 1));
        if bytes.len() - offset > 16 {
            offset = offset + 16;
        } else {
            offset = bytes.len();
        }
        assert((offset + 15) / 16 == k + 1);
    }
    if bytes.len() == 0 {
        push_hex(&mut out, base as u32, 4);
        push_literal(&mut out, ": ");
        push_literal(&mut out, "\n");
    }
    utf8_lossy(out.as_slice())
}

/// `0` or `1` for a flag, as the inspector prints it.
pub open spec fn flag_digit(b: bool) -> nat {
    if b {
        1
    } else {
        0
    }
}

/// The register summary printed for an inspector snapshot: register pairs,
/// stack pointer and program counter, interrupt and halt flags, PPU and timer
/// registers, four lines.
pub open spec fn snapshot_bytes(cpu: CpuVM, ppu: PpuVM, timers: TimersVM) -> Seq<u8> {
    "Registers: AF=".spec_bytes() + hex_field((cpu.a * 256 + cpu.f) as nat, 4) + " BC=".spec_bytes()
        + hex_field((cpu.b * 256 + cpu.c) as nat, 4) + " DE=".spec_bytes() + hex_field(
        (cpu.d * 256 + cpu.e) as nat,
        4,
    ) + " HL=".spec_bytes() + hex_field((cpu.h * 256 + cpu.l) as nat, 4) + "\n".spec_bytes()
        + "SP=".spec_bytes() + hex_field(cpu.sp as nat, 4) + " PC=".spec_bytes() + hex_field(
        cpu.pc as nat,
        4,
    ) + " IME=".spec_bytes() + decimal(flag_digit(cpu.ime)) + " HALT=".spec_bytes() + decimal(
        flag_digit(cpu.halted),
    ) + "\n".spec_bytes() + "PPU: LY=".spec_bytes() + hex_field(ppu.ly as nat, 2)
        + " MODE=".spec_bytes() + decimal(ppu.mode as nat) + " LCDC=".spec_bytes() + hex_field(
        ppu.lcdc as nat,
        2,
    ) + " STAT=".spec_bytes() + hex_field(ppu.stat as nat, 2) + "\n".spec_bytes()
        + "Timers: DIV=".spec_bytes() + hex_field(timers.div as nat, 2) + " TIMA=".spec_bytes()
        + hex_field(timers.tima as nat, 2) + " TMA=".spec_bytes() + hex_field(timers.tma as nat, 2)
        + " TAC=".spec_bytes() + hex_field(timers.tac as nat, 2) + "\n".spec_bytes()
}

/// Formats the CPU, PPU and timer portion of an inspector snapshot.
pub fn snapshot(vm: &InspectorVM) -> (r: String)
    ensures
        r@ == ascii_chars(snapshot_bytes(vm.cpu, vm.ppu, vm.timers)),
{
    proof {
        reveal_strlit("Registers: AF=");
        reveal_strlit(" BC=");
        reveal_strlit(" DE=");
        reveal_strlit(" HL=");
        reveal_strlit("\n");
        reveal_strlit("SP=");
        reveal_strlit(" PC=");
        reveal_strlit(" IME=");
        reveal_strlit(" HALT=");
        reveal_strlit("PPU: LY=");
        reveal_strlit(" MODE=");
        reveal_strlit(" LCDC=");
        reveal_strlit(" STAT=");
        reveal_strlit("Timers: DIV=");
        reveal_strlit(" TIMA=");
        reveal_strlit(" TMA=");
        reveal_strlit(" TAC=");
    }
    let cpu = vm.cpu;
    let mut out: Vec<u8> = Vec::new();
    push_literal(&mut out, "Registers: AF=");
    push_hex(&mut out, cpu.a as u32 * 256 + cpu.f as u32, 4);
    push_literal(&mut out, " BC=");
    push_hex(&mut out, cpu.b as u32 * 256 + cpu.c as u32, 4);
    push_literal(&mut out, " DE=");
    push_hex(&mut out, cpu.d as u32 * 256 + cpu.e as u32, 4);
    push_literal(&mut out, " HL=");
    push_hex(&mut out, cpu.h as u32 * 256 + cpu.l as u32, 4);
    push_literal(&mut out, "\n");
    push_literal(&mut out, "SP=");
    push_hex(&mut out, cpu.sp as u32, 4);
    push_literal(&mut out, " PC=");
    push_hex(&mut out, cpu.pc as u32, 4);
    push_literal(&mut out, " IME=");
    push_decimal(&mut out, if cpu.ime { 1 } else { 0 });
    push_literal(&mut out, " HALT=");
    push_decimal(&mut out, if cpu.halted { 1 } else { 0 });
    push_literal(&mut out, "\n");
    let ppu = vm.ppu;
    push_literal(&mut out, "PPU: LY=");
    push_hex(&mut out, ppu.ly as u32, 2);
    push_literal(&mut out, " MODE=");
    push_decimal(&mut out, ppu.mode as u32);
    push_literal(&mut out, " LCDC=");
    push_hex(&mut out, ppu.lcdc as u32, 2);
    push_literal(&mut out, " STAT=");
    push_hex(&mut out, ppu.stat as u32, 2);
    push_literal(&mut out, "\n");
    let timers = vm.timers;
    push_literal(&mut out, "Timers: DIV=");
    push_hex(&mut out, timers.div as u32, 2);
    push_literal(&mut out, " TIMA=");
    push_hex(&mut out, timers.tima as u32, 2);
    push_literal(&mut out, " TMA=");
    push_hex(&mut out, timers.tma as u32, 2);
    push_literal(&mut out, " TAC=");
    push_hex(&mut out, timers.tac as u32, 2);
    push_literal(&mut out, "\n");
    utf8_lossy(out.as_slice())
}

/// The line printed after stepping `count` instructions.
pub open spec fn step_instruction_bytes(count: u32, cycles: u32, pc: u16) -> Seq<u8> {
    "Stepped ".spec_bytes() + decimal(count as nat) + " instruction(s) -> PC=".spec_bytes()
        + hex_field(pc as nat, 4) + " cycles=".spec_bytes() + decimal(cycles as nat)
        + "\n".spec_bytes()
}

/// Formats the result of stepping `count` instructions.
pub fn step_instruction(count: u32, cycles: u32, pc: u16) -> (r: String)
    ensures
        r@ == ascii_chars(step_instruction_bytes(count, cycles, pc)),
{
    proof {
        reveal_strlit("Stepped ");
        reveal_strlit(" instruction(s) -> PC=");
        reveal_strlit(" cycles=");
        reveal_strlit("\n");
    }
    let mut out: Vec<u8> = Vec::new();
    push_literal(&mut out, "Stepped ");
    push_decimal(&mut out, count);
    push_literal(&mut out, " instruction(s) -> PC=");
    push_hex(&mut out, pc as u32, 4);
    push_literal(&mut out, " cycles=");
    push_decimal(&mut out, cycles);
    push_literal(&mut out, "\n");
    utf8_lossy(out.as_slice())
}

/// The line printed after advancing one frame.
pub open spec fn step_frame_bytes(cycles: u32, pc: u16) -> Seq<u8> {
    "Advanced one frame -> PC=".spec_bytes() + hex_field(pc as nat, 4) + " cycles=".spec_bytes()
        + decimal(cycles as nat) + "\n".spec_bytes()
}

/// Formats the result of advancing one frame.
pub fn step_frame(cycles: u32, pc: u16) -> (r: String)
    ensures
        r@ == ascii_chars(step_frame_bytes(cycles, pc)),
{
    proof {
        reveal_strlit("Advanced one frame -> PC=");
        reveal_strlit(" cycles=");
        reveal_strlit("\n");
    }
    let mut out: Vec<u8> = Vec::new();
    push_literal(&mut out, "Advanced one frame -> PC=");
    push_hex(&mut out, pc as u32, 4);
    push_literal(&mut out, " cycles=");
    push_decimal(&mut out, cycles);
    push_literal(&mut out, "\n");
    utf8_lossy(out.as_slice())
}

/// Value of an ASCII digit in `radix` (10, or 16 with either letter case).
pub open spec fn digit_value(b: u8, radix: nat) -> Option<nat> {
    if 48 <= b <= 57 {
        Some((b - 48) as nat)
    } else if radix == 16 && 97 <= b <= 102 {
        Some((b - 87) as nat)
    } else if radix == 16 && 65 <= b <= 70 {
        Some((b - 55) as nat)
    } else {
        None
    }
}

/// Every byte is a digit in `radix`.
pub open spec fn all_digits(d: Seq<u8>, radix: nat) -> bool {
    forall|i: int| 0 <= i < d.len() ==> (#[trigger] digit_value(d[i], radix)) is Some
}

/// The number the digits denote, most significant first.
pub open spec fn digits_value(d: Seq<u8>, radix: nat) -> nat
    decreases d.len(),
{
    if d.len() == 0 {
        0
    } else {
        digits_value(d.drop_last(), radix) * radix + match digit_value(d.last(), radix) {
            Some(v) => v,
            None => 0,
        }
    }
}

/// The digits of an unsigned number after an optional leading `+`; a lone
/// sign or an empty text has none.
pub open spec fn unsigned_digits(src: Seq<u8>) -> Option<Seq<u8>> {
    if src.len() == 0 {
        None
    } else if src.len() == 1 && (src[0] == 43 || src[0] == 45) {
        None
    } else if src[0] == 43 {
        Some(src.drop_first())
    } else {
        Some(src)
    }
}

/// Value of an unsigned number written in `radix`, when it is well formed and
/// at most `max`.
pub open spec fn parse_radix(src: Seq<u8>, radix: nat, max: nat) -> Option<nat> {
    match unsigned_digits(src) {
        Some(d) => if all_digits(d, radix) && digits_value(d, radix) <= max {
            Some(digits_value(d, radix))
        } else {
            None
        },
        None => None,
    }
}

/// Whether the text starts with the hexadecimal prefix `0x`.
pub open spec fn has_hex_prefix(src: Seq<u8>) -> bool {
    src.len() >= 2 && src[0] == 48 && src[1] == 120
}

/// A command-line number: hexadecimal after `0x`, decimal otherwise, at most `max`.
pub open spec fn parse_number(src: Seq<u8>, max: nat) -> Option<nat> {
    if has_hex_prefix(src) {
        parse_radix(src.subrange(2, src.len() as int), 16, max)
    } else {
        parse_radix(src, 10, max)
    }
}

/// The message for a number that does not parse, quoting the input.
pub open spec fn number_error(input: Seq<char>, hex: bool) -> Seq<char> {
    if hex {
        "invalid hex value '"@ + input + "'"@
    } else {
        "invalid number '"@ + input + "'"@
    }
}

/// The three texts one after the other.
fn join_text(a: &str, b: &str, c: &str) -> (r: String)
    ensures
        r@ == a@ + b@ + c@,
{
    a.to_owned().concat(b).concat(c)
}

/// Parses an unsigned number in `radix` from `digits`, at most `max`.
fn parse_radix_exec(digits: &[u8], radix: u64, max: u64) -> (r: Option<u64>)
    requires
        radix == 10 || radix == 16,
        max <= u32::MAX,
    ensures
        r matches Some(v) ==> parse_radix(digits@, radix as nat, max as nat) == Some(v as nat),
        r is None ==> parse_radix(digits@, radix as nat, max as nat) is None,
{
    let n = digits.len();
    if n == 0 {
        return None;
    }
    if n == 1 && (digits[0] == 43 || digits[0] == 45) {
        return None;
    }
    let start: usize = if digits[0] == 43 {
        1
    } else {
        0
    };
    let ghost d: Seq<u8> = digits@.subrange(start as int, n as int);
    proof {
        if start == 1 {
            assert(d == digits@.drop_first());
        } else {
            assert(d == digits@);
        }
    }
    let mut value: u64 = 0;
    let mut over: bool = false;
    let mut i: usize = start;
    while i < n
        invariant
            start <= i <= n,
            n == digits@.len(),
            d == digits@.subrange(start as int, n as int),
            unsigned_digits(digits@) == Some(d),
            radix == 10 || radix == 16,
            max <= u32::MAX,
            all_digits(d.subrange(0, i - start), radix as nat),
            !over ==> value == digits_value(d.subrange(0, i - start), radix as nat),
            !over ==> value <= max,
            over ==> digits_value(d.subrange(0, i - start), radix as nat) > max,
        decreases n - i,
    {
        let b = digits[i];
        let dv: u64 = if 48 <= b && b <= 57 {
            (b - 48) as u64
        } else if radix == 16 && 97 <= b && b <= 102 {
            (b - 87) as u64
        } else if radix == 16 && 65 <= b && b <= 70 {
            (b - 55) as u64
        } else {
            assert(!all_digits(d, radix as nat)) by {
                assert(d[i - start] == b);
                assert(digit_value(d[i - start], radix as nat) is None);
            }
            return None;
        };
        let ghost p = d.subrange(0, i - start + 1);
        proof {
            assert(p.drop_last() == d.subrange(0, i - start));
            assert(p.last() == b);
            assert(all_digits(p, radix as nat)) by {
                assert forall|k: int| 0 <= k < p.len() implies (#[trigger] digit_value(
                    p[k],
                    radix as nat,
                )) is Some by {
                    if k < p.len() - 1 {
                        assert(p[k] == d.subrange(0, i - start)[k]);
                    }
                }
            }
        }
        if !over {
            let next: u64 = value * radix + dv;
            if next > max {
                over = true;
            } else {
                value = next;
            }
        } else {
            proof {
                let a = digits_value(d.subrange(0, i - start), radix as nat);
                assert(a <= a * radix) by (nonlinear_arith)
                    requires
                        radix >= 1,
                ;
            }
        }
        i = i + 1;
    }
    proof {
        assert(d.subrange(0, n - start) == d);
    }
    if over {
        None
    } else {
        Some(value)
    }
}

/// Parses a number for the command line, at most `max`.
fn parse_bounded(input: &str, max: u64) -> (r: Result<u64, String>)
    requires
        max <= u32::MAX,
    ensures
        r matches Ok(v) ==> parse_number(input.spec_bytes(), max as nat) == Some(v as nat),
        r matches Err(e) ==> parse_number(input.spec_bytes(), max as nat) is None && e@
            == number_error(input@, has_hex_prefix(input.spec_bytes())),
{
    let bytes = input.as_bytes();
    let hex = bytes.len() >= 2 && bytes[0] == 48 && bytes[1] == 120;
    let parsed = if hex {
        let digits = slice_from(bytes, 2);
        parse_radix_exec(digits, 16, max)
    } else {
        parse_radix_exec(bytes, 10, max)
    };
    match parsed {
        Some(v) => Ok(v),
        None => if hex {
            Err(join_text("invalid hex value '", input, "'"))
        } else {
            Err(join_text("invalid number '", input, "'"))
        },
    }
}

/// The bytes of `s` from `start` on.
fn slice_from(s: &[u8], start: usize) -> (r: &[u8])
    requires
        start <= s@.len(),
    ensures
        r@ == s@.subrange(start as int, s@.len() as int),
{
    let (_, tail) = s.split_at(start);
    tail
}

/// Parses a 16-bit command-line number: hexadecimal after `0x`, decimal otherwise.
pub fn parse_u16(input: &str) -> (r: Result<u16, String>)
    ensures
        r matches Ok(v) ==> parse_number(input.spec_bytes(), 0xFFFF) == Some(v as nat),
        r matches Err(e) ==> parse_number(input.spec_bytes(), 0xFFFF) is None && e@
            == number_error(input@, has_hex_prefix(input.spec_bytes())),
{
    match parse_bounded(input, 0xFFFF) {
        Ok(v) => Ok(v as u16),
        Err(e) => Err(e),
    }
}

/// Parses a 32-bit command-line number: hexadecimal after `0x`, decimal otherwise.
pub fn parse_u32(input: &str) -> (r: Result<u32, String>)
    ensures
        r matches Ok(v) ==> parse_number(input.spec_bytes(), 0xFFFF_FFFF) == Some(v as nat),
        r matches Err(e) ==> parse_number(input.spec_bytes(), 0xFFFF_FFFF) is None && e@
            == number_error(input@, has_hex_prefix(input.spec_bytes())),
{
    match parse_bounded(input, 0xFFFF_FFFF) {
        Ok(v) => Ok(v as u32),
        Err(e) => Err(e),
    }
}

} // verus!
