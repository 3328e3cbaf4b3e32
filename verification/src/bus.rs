//! Scalar memory bus state: ROM, RAM regions, the IO register block, the
//! serial link, joypad latches and the timer register write latches.
use vstd::prelude::*;

verus! {

/// Value read from IO register `idx` given the raw register contents.
pub open spec fn io_read_spec(regs: Seq<u8>, idx: int) -> u8 {
    if idx == 0x02 {
        (regs[0x02] & 0x81) | 0x7E
    } else if idx == 0x07 {
        regs[0x07] | 0xF8
    } else if idx == 0x4D {
        0xFF
    } else {
        regs[idx]
    }
}

/// Raw register contents after writing `value` to IO register `idx`.
pub open spec fn io_write_spec(regs: Seq<u8>, idx: int, value: u8) -> Seq<u8> {
    if idx == 0x02 {
        regs.update(0x02, value & 0x81)
    } else if idx == 0x4D {
        regs.update(0x4D, 0xFF)
    } else {
        regs.update(idx, value)
    }
}

/// Power-on contents of the IO register block.
pub open spec fn io_initial() -> Seq<u8> {
    Seq::new(0x80, |i: int| if i == 0x0F { 0xE0u8 } else if i == 0x4D { 0xFFu8 } else { 0u8 })
}

/// Stored value of the interrupt flag register after writing `value`.
pub open spec fn if_store(value: u8) -> u8 {
    (value & 0x1F) | 0xE0
}

/// IO register block for the scalar bus (`0xFF00..=0xFF7F`).
#[derive(Clone, Copy)]
pub struct IoRegs {
    /// Raw register storage.
    pub regs: [u8; 0x80],
}

impl Default for IoRegs {
    fn default() -> (r: Self)
        ensures
            r.regs@ == io_initial(),
    {
        Self::new()
    }
}

impl IoRegs {
    /// JOYP register offset.
    pub const JOYP: usize = 0x00;
    /// Serial transfer data register.
    pub const SB: usize = 0x01;
    /// Serial transfer control register.
    pub const SC: usize = 0x02;
    /// Divider register offset.
    pub const DIV: usize = 0x04;
    /// Timer counter register offset.
    pub const TIMA: usize = 0x05;
    /// Timer modulo register offset.
    pub const TMA: usize = 0x06;
    /// Timer control register offset.
    pub const TAC: usize = 0x07;
    /// Interrupt flag register offset.
    pub const IF: usize = 0x0F;
    /// LCD control register offset.
    pub const LCDC: usize = 0x40;
    /// LCD status register offset.
    pub const STAT: usize = 0x41;
    /// Scroll Y register offset.
    pub const SCY: usize = 0x42;
    /// Scroll X register offset.
    pub const SCX: usize = 0x43;
    /// Current scanline register offset.
    pub const LY: usize = 0x44;
    /// Scanline compare register offset.
    pub const LYC: usize = 0x45;
    /// Background palette register offset.
    pub const BGP: usize = 0x47;
    /// Object palette 0 register offset.
    pub const OBP0: usize = 0x48;
    /// Object palette 1 register offset.
    pub const OBP1: usize = 0x49;
    /// Window Y position register offset.
    pub const WY: usize = 0x4A;
    /// Window X position register offset.
    pub const WX: usize = 0x4B;
    /// Speed switch register (CGB only; reads as 0xFF on DMG hardware).
    pub const KEY1: usize = 0x4D;

    /// Creates IO registers with their power-on values (IF upper bits set, KEY1 = 0xFF).
    pub fn new() -> (r: Self)
        ensures
            r.regs@ == io_initial(),
    {
        let mut regs = [0u8; 0x80];
        regs[0x0F] = 0xE0;
        regs[0x4D] = 0xFF;
        let r = IoRegs { regs };
        assert(r.regs@ =~= io_initial());
        r
    }

    /// Returns a mutable reference to the backing array.
    pub fn regs_mut(&mut self) -> (r: &mut [u8; 0x80])
        ensures
            *r == old(self).regs,
            final(self).regs == *final(r),
    {
        &mut self.regs
    }

    /// Returns an immutable reference to the array.
    pub fn regs(&self) -> (r: &[u8; 0x80])
        ensures
            *r == self.regs,
    {
        &self.regs
    }

    /// Reads an IO register, applying the hardware read masks.
    pub fn read(&self, idx: usize) -> (r: u8)
        requires
            idx < 0x80,
        ensures
            r == io_read_spec(self.regs@, idx as int),
    {
        if idx == Self::SC {
            self.sc()
        } else if idx == Self::TAC {
            self.tac()
        } else if idx == Self::KEY1 {
            0xFF
        } else {
            self.regs[idx]
        }
    }

    /// Writes an IO register, applying the hardware write masks.
    pub fn write(&mut self, idx: usize, value: u8)
        requires
            idx < 0x80,
        ensures
            final(self).regs@ == io_write_spec(old(self).regs@, idx as int, value),
    {
        if idx == Self::SC {
            self.set_sc(value);
        } else if idx == Self::KEY1 {
            self.regs[idx] = 0xFF;
        } else {
            self.regs[idx] = value;
        }
    }

    /// Updates the divider register.
    pub fn set_div(&mut self, value: u8)
        ensures
            final(self).regs@ == old(self).regs@.update(0x04, value),
    {
        self.regs[Self::DIV] = value;
    }

    /// Reads the divider register.
    pub fn div(&self) -> (r: u8)
        ensures
            r == self.regs@[0x04],
    {
        self.regs[Self::DIV]
    }

    /// Reads the timer counter.
    pub fn tima(&self) -> (r: u8)
        ensures
            r == self.regs@[0x05],
    {
        self.regs[Self::TIMA]
    }

    /// Writes the timer counter.
    pub fn set_tima(&mut self, value: u8)
        ensures
            final(self).regs@ == old(self).regs@.update(0x05, value),
    {
        self.regs[Self::TIMA] = value;
    }

    /// Reads the timer modulo.
    pub fn tma(&self) -> (r: u8)
        ensures
            r == self.regs@[0x06],
    {
        self.regs[Self::TMA]
    }

    /// Writes the timer modulo.
    pub fn set_tma(&mut self, value: u8)
        ensures
            final(self).regs@ == old(self).regs@.update(0x06, value),
    {
        self.regs[Self::TMA] = value;
    }

    /// Reads the timer control register (unused bits read as 1).
    pub fn tac(&self) -> (r: u8)
        ensures
            r == self.regs@[0x07] | 0xF8,
    {
        self.regs[Self::TAC] | 0xF8
    }

    /// Writes the timer control register.
    pub fn set_tac(&mut self, value: u8)
        ensures
            final(self).regs@ == old(self).regs@.update(0x07, value),
    {
        self.regs[Self::TAC] = value;
    }

    /// Writes the serial control register (only bit 7 and bit 0 are kept).
    pub fn set_sc(&mut self, value: u8)
        ensures
            final(self).regs@ == old(self).regs@.update(0x02, value & 0x81),
    {
        self.regs[Self::SC] = value & 0x81;
    }

    /// Returns the raw serial control bits (bit 7 start, bit 0 clock).
    pub fn sc_raw(&self) -> (r: u8)
        ensures
            r == self.regs@[0x02] & 0x81,
    {
        self.regs[Self::SC] & 0x81
    }

    /// Reads the serial control register with unused bits pulled high.
    pub fn sc(&self) -> (r: u8)
        ensures
            r == (self.regs@[0x02] & 0x81) | 0x7E,
    {
        self.sc_raw() | 0x7E
    }

    /// Writes the interrupt flag register; bits 5-7 always read back as 1.
    pub fn set_if(&mut self, value: u8)
        ensures
            final(self).regs@ == old(self).regs@.update(0x0F, if_store(value)),
    {
        self.regs[Self::IF] = (value & 0x1F) | 0xE0;
    }

    /// Reads the interrupt flag register.
    pub fn if_reg(&self) -> (r: u8)
        ensures
            r == self.regs@[0x0F],
    {
        self.regs[Self::IF]
    }

    /// Writes the joypad register.
    pub fn set_joyp(&mut self, value: u8)
        ensures
            final(self).regs@ == old(self).regs@.update(0x00, value),
    {
        self.regs[Self::JOYP] = value;
    }

    /// Reads the joypad register.
    pub fn joyp(&self) -> (r: u8)
        ensures
            r == self.regs@[0x00],
    {
        self.regs[Self::JOYP]
    }
}


/// Mathematical model of the scalar bus: every region as a sequence of bytes.
#[verifier::ext_equal]
pub struct BusView {
    pub rom: Seq<u8>,
    pub rom_bank: usize,
    pub boot_rom: Option<Seq<u8>>,
    pub boot_rom_enabled: bool,
    pub vram: Seq<u8>,
    pub wram: Seq<u8>,
    pub oam: Seq<u8>,
    pub hram: Seq<u8>,
    pub io: Seq<u8>,
    pub ie: u8,
    pub serial_out: Seq<u8>,
    pub serial_counter: u32,
    pub serial_active: bool,
    pub serial_pending_data: u8,
    pub serial_shift_reg: u8,
    pub serial_bits_remaining: u8,
    pub serial_internal_clock: bool,
    pub lockstep_ly_override: Option<u8>,
    pub joyp_select: u8,
    pub joyp_buttons: u8,
    pub joyp_dpad: u8,
    pub timer_div_reset: bool,
    pub timer_tima_write: Option<u8>,
    pub timer_tma_write: Option<u8>,
    pub timer_tac_write: Option<(u8, u8)>,
}

/// Number of 16 KiB banks needed to hold `len` ROM bytes.
pub open spec fn rom_bank_count_spec(len: nat) -> nat {
    (len + 0x3FFF) / 0x4000
}

/// Switchable bank actually selected when software asks for `bank`.
pub open spec fn select_rom_bank(rom_len: nat, bank: int) -> int {
    let count = rom_bank_count_spec(rom_len);
    let total: int = if count < 1 { 1 } else { count as int };
    let b = bank % total;
    if total > 1 && b == 0 {
        1
    } else {
        b
    }
}

/// Serial link stopped: no transfer, no pending clock, no bits left.
pub open spec fn reset_serial_view(b: BusView) -> BusView {
    BusView { serial_active: false, serial_counter: 0, serial_bits_remaining: 0, ..b }
}

/// Effect of writing `value` to the serial control register `SC`.
pub open spec fn write_serial_control_view(b: BusView, value: u8) -> BusView {
    let prev_raw = b.io[0x02] & 0x81;
    let raw = value & 0x83;
    let b1 = BusView { io: io_write_spec(b.io, 0x02, raw), ..b };
    if raw & 0x80 == 0 {
        reset_serial_view(b1)
    } else {
        let started_now = prev_raw & 0x80 == 0 || !b.serial_active;
        let b2 = BusView { serial_internal_clock: raw & 0x01 != 0, ..b1 };
        if !started_now && b2.serial_active {
            b2
        } else {
            let b3 = reset_serial_view(b2);
            let pending = b3.io[0x01];
            let b4 = BusView {
                serial_pending_data: pending,
                serial_shift_reg: pending,
                serial_bits_remaining: 8,
                serial_active: true,
                ..b3
            };
            if b4.serial_internal_clock {
                BusView { serial_counter: 512, ..b4 }
            } else {
                b4
            }
        }
    }
}

/// End of a serial transfer: stop, clear the start bit, raise the serial
/// interrupt and record the transmitted byte.
pub open spec fn finish_serial_view(b: BusView) -> BusView {
    let b1 = reset_serial_view(b);
    let clock_bit = (b1.io[0x02] & 0x81) & 0x01;
    let io1 = io_write_spec(b1.io, 0x02, clock_bit);
    let io2 = io1.update(0x0F, if_store(io1[0x0F] | 0x08));
    BusView { io: io2, serial_out: b1.serial_out.push(b1.serial_pending_data), ..b1 }
}

/// One serial bit clocked: shift in a 1 (no partner), publish SB, and
/// finish the transfer after the eighth bit.
pub open spec fn clock_serial_bit_view(b: BusView) -> BusView {
    let shift = (b.serial_shift_reg << 1u8) | 1u8;
    let bits: u8 = if b.serial_bits_remaining == 0 {
        0
    } else {
        (b.serial_bits_remaining - 1) as u8
    };
    let b1 = BusView {
        serial_shift_reg: shift,
        serial_bits_remaining: bits,
        io: io_write_spec(b.io, 0x01, shift),
        ..b
    };
    if bits == 0 {
        finish_serial_view(b1)
    } else {
        b1
    }
}

/// Serial link after `cycles` CPU cycles on the internal clock (512 cycles per bit).
pub open spec fn advance_serial_view(b: BusView, cycles: nat) -> BusView
    decreases cycles,
{
    if !b.serial_active || !b.serial_internal_clock || cycles == 0 {
        b
    } else {
        let counter: u32 = if b.serial_counter == 0 {
            512
        } else {
            b.serial_counter
        };
        if cycles >= counter {
            advance_serial_view(
                clock_serial_bit_view(BusView { serial_counter: 0, ..b }),
                (cycles - counter) as nat,
            )
        } else {
            BusView { serial_counter: (counter - cycles) as u32, ..b }
        }
    }
}

/// Latched joypad columns after a new raw joypad state (buttons high nibble, d-pad low).
pub open spec fn set_inputs_view(b: BusView, joypad: u8) -> BusView {
    BusView { joyp_buttons: (joypad >> 4u8) & 0x0F, joyp_dpad: joypad & 0x0F, ..b }
}

/// Bus state after a ROM swap: new ROM and bank 1, boot overlay re-armed when
/// present, serial, joypad and timer latches reset; memory kept.
pub open spec fn load_rom_view(b: BusView, rom: Seq<u8>) -> BusView {
    BusView {
        rom: rom,
        boot_rom_enabled: b.boot_rom is Some,
        serial_out: Seq::empty(),
        serial_active: false,
        serial_counter: 0,
        serial_bits_remaining: 0,
        joyp_select: 0x30,
        joyp_buttons: 0x0F,
        joyp_dpad: 0x0F,
        timer_div_reset: false,
        timer_tima_write: None,
        timer_tma_write: None,
        timer_tac_write: None,
        rom_bank: select_rom_bank(rom.len(), 1) as usize,
        ..b
    }
}

/// Bus state after power-on memory reset (ROM and boot ROM kept).
pub open spec fn reset_memory_view(b: BusView) -> BusView {
    BusView {
        vram: Seq::new(0x2000, |i: int| 0u8),
        wram: Seq::new(0x2000, |i: int| 0u8),
        oam: Seq::new(0xA0, |i: int| 0u8),
        hram: Seq::new(0x7F, |i: int| 0u8),
        io: io_initial(),
        ie: 0,
        serial_out: Seq::empty(),
        serial_counter: 0,
        serial_active: false,
        serial_pending_data: 0,
        serial_bits_remaining: 0,
        serial_internal_clock: true,
        lockstep_ly_override: None,
        joyp_select: 0x30,
        joyp_buttons: 0x0F,
        joyp_dpad: 0x0F,
        timer_div_reset: false,
        timer_tima_write: None,
        timer_tma_write: None,
        timer_tac_write: None,
        boot_rom_enabled: b.boot_rom is Some,
        rom_bank: select_rom_bank(b.rom.len(), 1) as usize,
        ..b
    }
}

/// Scalar bus implementation backed by in-memory regions.
pub struct BusScalar {
    /// Entire cartridge ROM contents.
    pub rom: Vec<u8>,
    /// Currently selected switchable ROM bank (bank 0 fixed).
    pub rom_bank: usize,
    /// Optional bootstrap ROM overlay.
    pub boot_rom: Option<Vec<u8>>,
    /// Tracks whether the bootstrap overlay is active.
    pub boot_rom_enabled: bool,
    /// Video RAM region used by the PPU.
    pub vram: [u8; 0x2000],
    /// Work RAM shared by the CPU.
    pub wram: [u8; 0x2000],
    /// Object attribute memory backing sprites.
    pub oam: [u8; 0xA0],
    /// High RAM window at `0xFF80`.
    pub hram: [u8; 0x7F],
    /// IO register block.
    pub io: IoRegs,
    /// Interrupt enable register at `0xFFFF`.
    pub ie: u8,
    /// Captured serial output emitted through the serial control register.
    pub serial_out: Vec<u8>,
    /// Remaining cycles before the current serial bit completes.
    pub serial_counter: u32,
    /// Indicates whether a serial transfer is currently active.
    pub serial_active: bool,
    /// Latched serial byte scheduled for capture when the transfer completes.
    pub serial_pending_data: u8,
    /// Shift register used while clocking the current serial transfer.
    pub serial_shift_reg: u8,
    /// Number of bits remaining in the active transfer.
    pub serial_bits_remaining: u8,
    /// Tracks whether the transfer uses the internal serial clock.
    pub serial_internal_clock: bool,
    /// Optional override for the LY register used by lockstep tests.
    pub lockstep_ly_override: Option<u8>,
    /// Latched JOYP column select bits (P14/P15).
    pub joyp_select: u8,
    /// Latched button inputs (A, B, Select, Start), active-low.
    pub joyp_buttons: u8,
    /// Latched d-pad inputs (Right, Left, Up, Down), active-low.
    pub joyp_dpad: u8,
    /// Tracks whether DIV was written since the last timer step.
    pub timer_div_reset: bool,
    /// Captures the most recent TIMA write until timers acknowledge it.
    pub timer_tima_write: Option<u8>,
    /// Captures the most recent TMA write until timers acknowledge it.
    pub timer_tma_write: Option<u8>,
    /// Captures the most recent TAC write (old, new) until timers acknowledge it.
    pub timer_tac_write: Option<(u8, u8)>,
}

impl View for BusScalar {
    type V = BusView;

    open spec fn view(&self) -> BusView {
        BusView {
            rom: self.rom@,
            rom_bank: self.rom_bank,
            boot_rom: match self.boot_rom {
                Some(v) => Some(v@),
                None => None,
            },
            boot_rom_enabled: self.boot_rom_enabled,
            vram: self.vram@,
            wram: self.wram@,
            oam: self.oam@,
            hram: self.hram@,
            io: self.io.regs@,
            ie: self.ie,
            serial_out: self.serial_out@,
            serial_counter: self.serial_counter,
            serial_active: self.serial_active,
            serial_pending_data: self.serial_pending_data,
            serial_shift_reg: self.serial_shift_reg,
            serial_bits_remaining: self.serial_bits_remaining,
            serial_internal_clock: self.serial_internal_clock,
            lockstep_ly_override: self.lockstep_ly_override,
            joyp_select: self.joyp_select,
            joyp_buttons: self.joyp_buttons,
            joyp_dpad: self.joyp_dpad,
            timer_div_reset: self.timer_div_reset,
            timer_tima_write: self.timer_tima_write,
            timer_tma_write: self.timer_tma_write,
            timer_tac_write: self.timer_tac_write,
        }
    }
}

/// Every region of a bus view has its hardware size.
pub open spec fn bus_view_sizes(b: BusView) -> bool {
    &&& b.vram.len() == 0x2000
    &&& b.wram.len() == 0x2000
    &&& b.oam.len() == 0xA0
    &&& b.hram.len() == 0x7F
    &&& b.io.len() == 0x80
}

/// Serial bytes captured so far, as a string: each ASCII byte is one char.
pub open spec fn ascii_chars(bytes: Seq<u8>) -> Seq<char> {
    Seq::new(bytes.len(), |i: int| bytes[i] as char)
}

/// Converts bytes to text with `String::from_utf8_lossy`, which replaces
/// invalid UTF-8 sequences. The contract claims that valid UTF-8 comes back
/// as the text it encodes, and in particular that bytes below 128 become the
/// characters with those codes, one for one; which replacement characters
/// stand for invalid sequences is left unstated.
#[verifier::external_body]
pub(crate) fn utf8_lossy(bytes: &[u8]) -> (s: String)
    ensures
        vstd::utf8::valid_utf8(bytes@) ==> vstd::utf8::encode_utf8(s@) == bytes@,
        (forall|i: int| 0 <= i < bytes@.len() ==> bytes@[i] < 128) ==> s@ == ascii_chars(
            bytes@,
        ),
{
    String::from_utf8_lossy(bytes).into_owned()
}

impl BusScalar {
    /// Bus state produced by `new` for a ROM without a boot ROM overlay.
    pub open spec fn new_view(rom: Seq<u8>) -> BusView {
        BusView {
            rom: rom,
            rom_bank: select_rom_bank(rom.len(), 1) as usize,
            boot_rom: None,
            boot_rom_enabled: false,
            vram: Seq::new(0x2000, |i: int| 0u8),
            wram: Seq::new(0x2000, |i: int| 0u8),
            oam: Seq::new(0xA0, |i: int| 0u8),
            hram: Seq::new(0x7F, |i: int| 0u8),
            io: io_initial(),
            ie: 0,
            serial_out: Seq::empty(),
            serial_counter: 0,
            serial_active: false,
            serial_pending_data: 0,
            serial_shift_reg: 0,
            serial_bits_remaining: 0,
            serial_internal_clock: true,
            lockstep_ly_override: None,
            joyp_select: 0x30,
            joyp_buttons: 0x0F,
            joyp_dpad: 0x0F,
            timer_div_reset: false,
            timer_tima_write: None,
            timer_tma_write: None,
            timer_tac_write: None,
        }
    }

    /// Size facts about the bus regions.
    pub proof fn lemma_sizes(&self)
        ensures
            bus_view_sizes(self@),
    {
    }

    /// Creates a bus using the supplied ROM bytes and optional boot ROM overlay.
    pub fn new(rom: Vec<u8>, boot_rom: Option<Vec<u8>>) -> (r: Self)
        ensures
            r@ == reset_memory_view(
                BusView {
                    rom: rom@,
                    boot_rom: match boot_rom {
                        Some(v) => Some(v@),
                        None => None,
                    },
                    serial_shift_reg: 0,
                    ..r@
                },
            ),
            r@.serial_shift_reg == 0,
    {
        let boot_rom_enabled = boot_rom.is_some();
        let mut bus = BusScalar {
            rom,
            rom_bank: 1,
            boot_rom,
            boot_rom_enabled,
            vram: [0u8; 0x2000],
            wram: [0u8; 0x2000],
            oam: [0u8; 0xA0],
            hram: [0u8; 0x7F],
            io: IoRegs::new(),
            ie: 0,
            serial_out: Vec::new(),
            serial_counter: 0,
            serial_active: false,
            serial_pending_data: 0,
            serial_shift_reg: 0,
            serial_bits_remaining: 0,
            serial_internal_clock: true,
            lockstep_ly_override: None,
            joyp_select: 0x30,
            joyp_buttons: 0x0F,
            joyp_dpad: 0x0F,
            timer_div_reset: false,
            timer_tima_write: None,
            timer_tma_write: None,
            timer_tac_write: None,
        };
        bus.set_rom_bank(1);
        assert(bus.vram@ =~= Seq::new(0x2000, |i: int| 0u8));
        assert(bus.wram@ =~= Seq::new(0x2000, |i: int| 0u8));
        assert(bus.oam@ =~= Seq::new(0xA0, |i: int| 0u8));
        assert(bus.hram@ =~= Seq::new(0x7F, |i: int| 0u8));
        bus
    }

    /// Replaces the ROM contents and resets serial, joypad and timer latches.
    pub fn load_rom(&mut self, rom: Vec<u8>)
        ensures
            final(self)@ == load_rom_view(old(self)@, rom@),
    {
        self.rom = rom;
        self.boot_rom_enabled = self.boot_rom.is_some();
        self.serial_out.clear();
        self.reset_serial_state();
        self.joyp_select = 0x30;
        self.joyp_buttons = 0x0F;
        self.joyp_dpad = 0x0F;
        self.timer_div_reset = false;
        self.timer_tima_write = None;
        self.timer_tma_write = None;
        self.timer_tac_write = None;
        self.set_rom_bank(1);
    }

    /// Resets VRAM, WRAM, OAM, HRAM and IO state to their power-on defaults.
    pub fn reset_memory(&mut self)
        ensures
            final(self)@ == reset_memory_view(old(self)@),
    {
        self.vram = [0u8; 0x2000];
        self.wram = [0u8; 0x2000];
        self.oam = [0u8; 0xA0];
        self.hram = [0u8; 0x7F];
        self.io = IoRegs::new();
        self.ie = 0;
        self.serial_out.clear();
        self.reset_serial_state();
        self.serial_pending_data = 0;
        self.serial_counter = 0;
        self.serial_bits_remaining = 0;
        self.serial_internal_clock = true;
        self.lockstep_ly_override = None;
        self.joyp_select = 0x30;
        self.joyp_buttons = 0x0F;
        self.joyp_dpad = 0x0F;
        self.timer_div_reset = false;
        self.timer_tima_write = None;
        self.timer_tma_write = None;
        self.timer_tac_write = None;
        self.boot_rom_enabled = self.boot_rom.is_some();
        self.set_rom_bank(1);
        assert(self.vram@ =~= Seq::new(0x2000, |i: int| 0u8));
        assert(self.wram@ =~= Seq::new(0x2000, |i: int| 0u8));
        assert(self.oam@ =~= Seq::new(0xA0, |i: int| 0u8));
        assert(self.hram@ =~= Seq::new(0x7F, |i: int| 0u8));
    }

    /// Enables or disables the bootstrap overlay (no effect without a boot ROM).
    pub fn set_boot_rom_enabled(&mut self, enabled: bool)
        ensures
            final(self)@ == (BusView {
                boot_rom_enabled: if old(self)@.boot_rom is Some {
                    enabled
                } else {
                    old(self)@.boot_rom_enabled
                },
                ..old(self)@
            }),
    {
        if self.boot_rom.is_some() {
            self.boot_rom_enabled = enabled;
        }
    }

    /// Returns whether a bootstrap overlay is present.
    pub fn has_boot_rom(&self) -> (r: bool)
        ensures
            r == self@.boot_rom is Some,
    {
        self.boot_rom.is_some()
    }

    /// Returns whether the bootstrap overlay is currently active.
    pub fn boot_rom_enabled(&self) -> (r: bool)
        ensures
            r == self@.boot_rom_enabled,
    {
        self.boot_rom_enabled
    }

    /// Returns the accumulated serial log as a string and clears the buffer.
    pub fn take_serial(&mut self) -> (r: String)
        ensures
            final(self)@ == (BusView { serial_out: Seq::empty(), ..old(self)@ }),
            (forall|i: int|
                0 <= i < old(self)@.serial_out.len() ==> old(self)@.serial_out[i] < 128) ==> r@
                == ascii_chars(old(self)@.serial_out),
            vstd::utf8::valid_utf8(old(self)@.serial_out) ==> vstd::utf8::encode_utf8(r@) == old(
                self,
            )@.serial_out,
    {
        let mut bytes: Vec<u8> = Vec::new();
        std::mem::swap(&mut bytes, &mut self.serial_out);
        utf8_lossy(bytes.as_slice())
    }

    /// Returns the IO register index for the serial data register.
    pub fn io_sb_index() -> (r: usize)
        ensures
            r == 0x01,
    {
        IoRegs::SB
    }

    /// Returns the IO register index for the serial control register.
    pub fn io_sc_index() -> (r: usize)
        ensures
            r == 0x02,
    {
        IoRegs::SC
    }

    /// Returns the IO register index for the divider register.
    pub fn io_div_index() -> (r: usize)
        ensures
            r == 0x04,
    {
        IoRegs::DIV
    }

    /// Returns the IO register index for the LY register.
    pub fn io_ly_index() -> (r: usize)
        ensures
            r == 0x44,
    {
        IoRegs::LY
    }

    fn rom_bank_count(&self) -> (r: usize)
        ensures
            r == rom_bank_count_spec(self.rom@.len()),
    {
        let len = self.rom.len();
        let extra: usize = if len % 0x4000 != 0 { 1 } else { 0 };
        len / 0x4000 + extra
    }

    /// Selects the switchable ROM bank, wrapping to the ROM size; bank 0 maps to 1.
    pub fn set_rom_bank(&mut self, bank: usize)
        ensures
            final(self)@ == (BusView {
                rom_bank: select_rom_bank(old(self)@.rom.len(), bank as int) as usize,
                ..old(self)@
            }),
    {
        let count = self.rom_bank_count();
        let total = if count < 1 { 1 } else { count };
        let mut bank = bank % total;
        if total > 1 && bank == 0 {
            bank = 1;
        }
        self.rom_bank = bank;
    }

    /// Returns the boot ROM byte at `addr` while the overlay is active.
    pub fn boot_rom_byte(&self, addr: u16) -> (r: Option<u8>)
        ensures
            r == (if self@.boot_rom_enabled && self@.boot_rom is Some && (addr as int)
                < self@.boot_rom->0.len() {
                Some(self@.boot_rom->0[addr as int])
            } else {
                None::<u8>
            }),
    {
        if !self.boot_rom_enabled {
            return None;
        }
        match &self.boot_rom {
            Some(boot) => {
                if (addr as usize) < boot.len() {
                    Some(boot[addr as usize])
                } else {
                    None
                }
            },
            None => None,
        }
    }

    /// Turns the boot ROM overlay off.
    pub fn disable_boot_rom(&mut self)
        ensures
            final(self)@ == (BusView { boot_rom_enabled: false, ..old(self)@ }),
    {
        self.boot_rom_enabled = false;
    }

    fn reset_serial_state(&mut self)
        ensures
            final(self)@ == reset_serial_view(old(self)@),
    {
        self.serial_active = false;
        self.serial_counter = 0;
        self.serial_bits_remaining = 0;
    }

    /// Handles a write to the serial control register, starting a transfer when requested.
    pub fn write_serial_control(&mut self, value: u8)
        ensures
            final(self)@ == write_serial_control_view(old(self)@, value),
    {
        let prev_raw = self.io.sc_raw();
        let raw = value & 0x83;
        self.io.write(Self::io_sc_index(), raw);
        let start_requested = (raw & 0x80) != 0;
        if !start_requested {
            self.reset_serial_state();
            return;
        }
        let started_now = (prev_raw & 0x80) == 0 || !self.serial_active;
        self.serial_internal_clock = (raw & 0x01) != 0;
        if !started_now && self.serial_active {
            return;
        }
        self.reset_serial_state();
        self.serial_pending_data = self.io.read(Self::io_sb_index());
        self.serial_shift_reg = self.serial_pending_data;
        self.serial_bits_remaining = 8;
        self.serial_active = true;
        if self.serial_internal_clock {
            self.serial_counter = 512;
        }
    }

    /// Advances the serial link by `cycles` CPU cycles.
    pub fn advance_serial(&mut self, cycles: u32)
        ensures
            final(self)@ == advance_serial_view(old(self)@, cycles as nat),
    {
        if !self.serial_active || !self.serial_internal_clock {
            return;
        }
        let ghost target = advance_serial_view(self@, cycles as nat);
        let mut cycles = cycles;
        while self.serial_active && cycles > 0
            invariant
                self.serial_internal_clock,
                advance_serial_view(self@, cycles as nat) == target,
            decreases cycles,
        {
            if self.serial_counter == 0 {
                self.serial_counter = 512;
            }
            if cycles >= self.serial_counter {
                cycles = cycles - self.serial_counter;
                self.serial_counter = 0;
                self.clock_serial_bit();
            } else {
                assert(self.serial_counter > 0);
                self.serial_counter = self.serial_counter - cycles;
                cycles = 0;
            }
        }
    }

    fn clock_serial_bit(&mut self)
        ensures
            final(self)@ == clock_serial_bit_view(old(self)@),
    {
        let incoming = self.serial_input_bit();
        self.serial_shift_reg = (self.serial_shift_reg << 1u8) | incoming;
        self.serial_bits_remaining = self.serial_bits_remaining.saturating_sub(1);
        self.io.write(Self::io_sb_index(), self.serial_shift_reg);
        if self.serial_bits_remaining == 0 {
            self.finish_serial_transfer();
        }
    }

    fn serial_input_bit(&self) -> (r: u8)
        ensures
            r == 1,
    {
        0x01
    }

    fn finish_serial_transfer(&mut self)
        ensures
            final(self)@ == finish_serial_view(old(self)@),
    {
        self.reset_serial_state();
        let clock_bit = self.io.sc_raw() & 0x01;
        self.io.write(Self::io_sc_index(), clock_bit);
        let mut if_reg = self.io.if_reg();
        if_reg = if_reg | 0x08;
        self.io.set_if(if_reg);
        self.serial_out.push(self.serial_pending_data);
    }

    /// Updates the latched joypad inputs (active-low; buttons in the high nibble).
    pub fn set_inputs(&mut self, joypad: u8)
        ensures
            final(self)@ == set_inputs_view(old(self)@, joypad),
    {
        self.joyp_buttons = (joypad >> 4u8) & 0x0F;
        self.joyp_dpad = joypad & 0x0F;
    }

}

/// Access to the interrupt enable register.
pub trait InterruptCtrl {
    /// Returns the interrupt enable register.
    fn read_ie(&self) -> u8;
}

/// Serial transfer ticking.
pub trait SerialIo {
    /// Advances the serial link by `cycles` CPU ticks.
    fn step_serial(&mut self, cycles: u32);
}

impl InterruptCtrl for BusScalar {
    fn read_ie(&self) -> (r: u8)
        ensures
            r == self@.ie,
    {
        self.ie
    }
}

impl SerialIo for BusScalar {
    fn step_serial(&mut self, cycles: u32)
        ensures
            final(self)@ == advance_serial_view(old(self)@, cycles as nat),
    {
        self.advance_serial(cycles);
    }
}

} // verus!
