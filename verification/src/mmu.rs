//! Address decoding for the scalar bus: what a CPU read sees and what a CPU
//! write changes, region by region.
use vstd::prelude::*;
use crate::exec::{Exec, Scalar};
use crate::bus::{
    io_read_spec, io_write_spec, if_store, select_rom_bank, write_serial_control_view, BusScalar,
    BusView, IoRegs,
};

verus! {

/// Value of the JOYP register: selected columns of the active-low inputs.
pub open spec fn joyp_read_view(b: BusView) -> u8 {
    let sel = b.joyp_select;
    let lo1: u8 = if sel & 0x10 == 0 {
        0x0F & b.joyp_dpad
    } else {
        0x0F
    };
    let lo2: u8 = if sel & 0x20 == 0 {
        lo1 & b.joyp_buttons
    } else {
        lo1
    };
    0xC0 | sel | lo2
}

/// Value read from the IO port at offset `idx` (`0xFF00 + idx`).
pub open spec fn io_port_read_view(b: BusView, idx: int) -> u8 {
    if idx == 0x00 {
        joyp_read_view(b)
    } else if idx == 0x0F {
        b.io[0x0F]
    } else if idx == 0x44 {
        match b.lockstep_ly_override {
            Some(v) => v,
            None => io_read_spec(b.io, 0x44),
        }
    } else if idx == 0x50 {
        if b.boot_rom_enabled {
            0x00
        } else {
            0x01
        }
    } else {
        io_read_spec(b.io, idx)
    }
}

/// ROM byte at `idx`, or `0xFF` past the end of the cartridge.
pub open spec fn rom_byte_view(b: BusView, idx: int) -> u8 {
    if 0 <= idx < b.rom.len() {
        b.rom[idx]
    } else {
        0xFF
    }
}

/// Value a CPU read of `addr` returns.
pub open spec fn read8_view(b: BusView, addr: u16) -> u8 {
    if addr <= 0x3FFF {
        if b.boot_rom_enabled && b.boot_rom is Some && (addr as int) < b.boot_rom->0.len() {
            b.boot_rom->0[addr as int]
        } else {
            rom_byte_view(b, addr as int)
        }
    } else if addr <= 0x7FFF {
        rom_byte_view(b, b.rom_bank * 0x4000 + (addr - 0x4000))
    } else if addr <= 0x9FFF {
        b.vram[addr - 0x8000]
    } else if addr <= 0xBFFF {
        0xFF
    } else if addr <= 0xDFFF {
        b.wram[addr - 0xC000]
    } else if addr <= 0xFDFF {
        b.wram[addr - 0xE000]
    } else if addr <= 0xFE9F {
        b.oam[addr - 0xFE00]
    } else if addr <= 0xFEFF {
        0xFF
    } else if addr <= 0xFF7F {
        io_port_read_view(b, addr - 0xFF00)
    } else if addr <= 0xFFFE {
        b.hram[addr - 0xFF80]
    } else {
        b.ie
    }
}

/// OAM contents after a DMA transfer from page `value` (`value * 0x100`).
pub open spec fn dma_oam_view(b: BusView, value: u8) -> Seq<u8> {
    Seq::new(0xA0, |i: int| read8_view(b, (value * 256 + i) as u16))
}

/// Effect of a CPU write of `value` to the IO port at offset `idx`.
pub open spec fn io_port_write_view(b: BusView, idx: int, value: u8) -> BusView {
    if idx == 0x46 {
        BusView { oam: dma_oam_view(b, value), ..b }
    } else if idx == 0x50 {
        if value & 0x01 != 0 {
            BusView { boot_rom_enabled: false, ..b }
        } else {
            b
        }
    } else if idx == 0x00 {
        let sel = value & 0x30;
        let current = io_read_spec(b.io, 0x00);
        BusView { joyp_select: sel, io: io_write_spec(b.io, 0x00, (current & !0x30u8) | sel), ..b }
    } else if idx == 0x04 {
        BusView { io: b.io.update(0x04, 0), timer_div_reset: true, ..b }
    } else if idx == 0x05 {
        BusView { io: b.io.update(0x05, value), timer_tima_write: Some(value), ..b }
    } else if idx == 0x06 {
        BusView { io: b.io.update(0x06, value), timer_tma_write: Some(value), ..b }
    } else if idx == 0x07 {
        let masked = value & 0x07;
        let previous = b.io[0x07] | 0xF8;
        BusView {
            io: b.io.update(0x07, masked),
            timer_tac_write: Some((previous, masked)),
            ..b
        }
    } else if idx == 0x44 {
        BusView { io: io_write_spec(b.io, 0x44, 0), ..b }
    } else if idx == 0x02 {
        write_serial_control_view(b, value)
    } else if idx == 0x0F {
        BusView { io: b.io.update(0x0F, if_store(value)), ..b }
    } else {
        BusView { io: io_write_spec(b.io, idx, value), ..b }
    }
}

/// Effect of a CPU write of `value` to `addr`.
pub open spec fn write8_view(b: BusView, addr: u16, value: u8) -> BusView {
    if addr <= 0x1FFF {
        b
    } else if addr <= 0x3FFF {
        BusView { rom_bank: select_rom_bank(b.rom.len(), (value & 0x1F) as int) as usize, ..b }
    } else if addr <= 0x7FFF {
        b
    } else if addr <= 0x9FFF {
        BusView { vram: b.vram.update(addr - 0x8000, value), ..b }
    } else if addr <= 0xBFFF {
        b
    } else if addr <= 0xDFFF {
        BusView { wram: b.wram.update(addr - 0xC000, value), ..b }
    } else if addr <= 0xFDFF {
        BusView { wram: b.wram.update(addr - 0xE000, value), ..b }
    } else if addr <= 0xFE9F {
        BusView { oam: b.oam.update(addr - 0xFE00, value), ..b }
    } else if addr <= 0xFEFF {
        b
    } else if addr <= 0xFF7F {
        io_port_write_view(b, addr - 0xFF00, value)
    } else if addr <= 0xFFFE {
        BusView { hram: b.hram.update(addr - 0xFF80, value), ..b }
    } else {
        BusView { ie: value, ..b }
    }
}

/// Addresses backed by plain read/write RAM (VRAM, WRAM and its echo, OAM, HRAM, IE).
pub open spec fn is_plain_ram(addr: u16) -> bool {
    ||| 0x8000 <= addr <= 0x9FFF
    ||| 0xC000 <= addr <= 0xFE9F
    ||| 0xFF80 <= addr
}

/// Reads a byte from the scalar bus.
pub fn read8_scalar(bus: &mut BusScalar, addr: u16) -> (r: u8)
    ensures
        r == read8_view(old(bus)@, addr),
        *final(bus) == *old(bus),
{
    if addr <= 0x3FFF {
        match bus.boot_rom_byte(addr) {
            Some(byte) => byte,
            None => {
                if (addr as usize) < bus.rom.len() {
                    bus.rom[addr as usize]
                } else {
                    0xFF
                }
            },
        }
    } else if addr <= 0x7FFF {
        let bank = bus.rom_bank;
        let offset = (addr - 0x4000) as usize;
        let scaled = match bank.checked_mul(0x4000) {
            Some(p) => p,
            None => usize::MAX,
        };
        let index = scaled.saturating_add(offset);
        if index < bus.rom.len() {
            bus.rom[index]
        } else {
            0xFF
        }
    } else if addr <= 0x9FFF {
        bus.vram[(addr - 0x8000) as usize]
    } else if addr <= 0xBFFF {
        0xFF
    } else if addr <= 0xDFFF {
        bus.wram[(addr - 0xC000) as usize]
    } else if addr <= 0xFDFF {
        bus.wram[(addr - 0xE000) as usize]
    } else if addr <= 0xFE9F {
        bus.oam[(addr - 0xFE00) as usize]
    } else if addr <= 0xFEFF {
        0xFF
    } else if addr <= 0xFF7F {
        let idx = (addr - 0xFF00) as usize;
        if idx == IoRegs::JOYP {
            let sel = bus.joyp_select;
            let mut lo: u8 = 0x0F;
            if sel & 0x10 == 0 {
                lo = lo & bus.joyp_dpad;
            }
            if sel & 0x20 == 0 {
                lo = lo & bus.joyp_buttons;
            }
            0xC0 | sel | lo
        } else if idx == IoRegs::IF {
            bus.io.if_reg()
        } else if idx == IoRegs::LY {
            match bus.lockstep_ly_override {
                Some(v) => v,
                None => bus.io.read(idx),
            }
        } else if idx == 0x50 {
            if bus.boot_rom_enabled() {
                0x00
            } else {
                0x01
            }
        } else {
            bus.io.read(idx)
        }
    } else if addr <= 0xFFFE {
        bus.hram[(addr - 0xFF80) as usize]
    } else {
        bus.ie
    }
}

/// Writes a byte to the scalar bus.
pub fn write8_scalar(bus: &mut BusScalar, addr: u16, value: u8)
    ensures
        final(bus)@ == write8_view(old(bus)@, addr, value),
{
    if addr <= 0x1FFF {
        // Cartridge RAM enable (no cartridge RAM on supported cartridges).
    } else if addr <= 0x3FFF {
        let bank = (value & 0x1F) as usize;
        bus.set_rom_bank(bank);
    } else if addr <= 0x7FFF {
        // High ROM bank bits / banking mode select are ignored.
    } else if addr <= 0x9FFF {
        bus.vram[(addr - 0x8000) as usize] = value;
    } else if addr <= 0xBFFF {
        // No cartridge RAM in scope.
    } else if addr <= 0xDFFF {
        bus.wram[(addr - 0xC000) as usize] = value;
    } else if addr <= 0xFDFF {
        bus.wram[(addr - 0xE000) as usize] = value;
    } else if addr <= 0xFE9F {
        bus.oam[(addr - 0xFE00) as usize] = value;
    } else if addr <= 0xFEFF {
    } else if addr <= 0xFF7F {
        let idx = (addr - 0xFF00) as usize;
        write_io_port(bus, idx, value);
    } else if addr <= 0xFFFE {
        bus.hram[(addr - 0xFF80) as usize] = value;
    } else {
        bus.ie = value;
    }
}

fn oam_dma(bus: &mut BusScalar, value: u8)
    ensures
        final(bus)@ == (BusView { oam: dma_oam_view(old(bus)@, value), ..old(bus)@ }),
{
    let ghost b0 = bus@;
    let base: u16 = (value as u16) * 256;
    let mut offset: u16 = 0;
    while offset < 0xA0
        invariant
            0 <= offset <= 0xA0,
            base == value * 256,
            bus@ == (BusView {
                oam: Seq::new(
                    0xA0,
                    |i: int| if i < offset { read8_view(b0, (base + i) as u16) } else { b0.oam[i] },
                ),
                ..b0
            }),
        decreases 0xA0 - offset,
    {
        let byte = read8_scalar(bus, base + offset);
        assert(byte == read8_view(b0, (base + offset) as u16));
        bus.oam[offset as usize] = byte;
        offset = offset + 1;
        assert(bus.oam@ =~= Seq::new(
            0xA0,
            |i: int| if i < offset { read8_view(b0, (base + i) as u16) } else { b0.oam[i] },
        ));
    }
    assert(bus.oam@ =~= dma_oam_view(b0, value));
}

fn write_io_port(bus: &mut BusScalar, idx: usize, value: u8)
    requires
        idx < 0x80,
    ensures
        final(bus)@ == io_port_write_view(old(bus)@, idx as int, value),
{
    if idx == 0x46 {
        oam_dma(bus, value);
        return ;
    }
    if idx == 0x50 {
        if value & 0x01 != 0 {
            bus.disable_boot_rom();
        }
        return ;
    }
    if idx == IoRegs::JOYP {
        bus.joyp_select = value & 0x30;
        let current = bus.io.read(idx);
        bus.io.write(idx, (current & !0x30u8) | bus.joyp_select);
        return ;
    }
    if idx == BusScalar::io_div_index() {
        bus.io.set_div(0);
        bus.timer_div_reset = true;
    } else if idx == IoRegs::TIMA {
        bus.io.set_tima(value);
        bus.timer_tima_write = Some(value);
    } else if idx == IoRegs::TMA {
        bus.io.set_tma(value);
        bus.timer_tma_write = Some(value);
    } else if idx == IoRegs::TAC {
        let masked = value & 0x07;
        let previous = bus.io.tac();
        bus.io.set_tac(masked);
        bus.timer_tac_write = Some((previous, masked));
    } else if idx == BusScalar::io_ly_index() {
        bus.io.write(idx, 0);
    } else if idx == BusScalar::io_sc_index() {
        bus.write_serial_control(value);
    } else if idx == IoRegs::IF {
        bus.io.set_if(value);
    } else {
        bus.io.write(idx, value);
    }
}

/// Memory and IO bus of an execution backend.
pub trait Bus<E: Exec> {
    /// Reads a byte.
    fn read8(&mut self, addr: E::U16) -> E::U8;

    /// Writes a byte.
    fn write8(&mut self, addr: E::U16, value: E::U8);
}

impl Bus<Scalar> for BusScalar {
    fn read8(&mut self, addr: u16) -> (r: u8)
        ensures
            r == read8_view(old(self)@, addr),
            *final(self) == *old(self),
    {
        read8_scalar(self, addr)
    }

    fn write8(&mut self, addr: u16, value: u8)
        ensures
            final(self)@ == write8_view(old(self)@, addr, value),
    {
        write8_scalar(self, addr, value);
    }
}

} // verus!
