//! Frame output: the PPU layer composer, the test gradient and the boot
//! animation.

use gbx::boot::{BootPhase, BootSequence};
use gbx::bus::IoRegs;
use gbx::gb_core::Core;
use gbx::instance::Instance;
use gbx::ppu_stub::PpuStub;

#[test]
fn lcd_off_renders_white() {
    let ppu = PpuStub::new();
    let io = IoRegs::new();
    let vram = [0xFFu8; 0x2000];
    let oam = [0u8; 0xA0];
    let mut out = vec![0u8; 160 * 144 * 4 + 2];
    ppu.render_frame(&io, &vram, &oam, &mut out, 160, 144);
    assert!(out[..160 * 144 * 4].iter().all(|&b| b == 0xFF));
    assert_eq!(&out[160 * 144 * 4..], &[0, 0]);
}

#[test]
fn background_tile_pixels_use_the_palette() {
    let ppu = PpuStub::new();
    let mut io = IoRegs::new();
    io.write(0x40, 0x91); // LCD on, BG on, unsigned tile data, map 0x9800
    io.write(0x47, 0xE4); // identity palette: 0->white .. 3->black
    let mut vram = [0u8; 0x2000];
    // tile 0 row 0: lo = 0b1000_0000, hi = 0b1100_0000 -> colours 3, 2, 0, ...
    vram[0] = 0x80;
    vram[1] = 0xC0;
    let oam = [0u8; 0xA0];
    let mut out = vec![0u8; 8 * 2 * 4];
    ppu.render_frame(&io, &vram, &oam, &mut out, 8, 2);
    assert_eq!(&out[0..4], &[0x00, 0x00, 0x00, 0xFF]);
    assert_eq!(&out[4..8], &[0x55, 0x55, 0x55, 0xFF]);
    assert_eq!(&out[8..12], &[0xFF, 0xFF, 0xFF, 0xFF]);
    // second line uses tile row 1, all zero
    assert_eq!(&out[32..36], &[0xFF, 0xFF, 0xFF, 0xFF]);
}

#[test]
fn sprites_draw_over_the_background_and_skip_transparent_pixels() {
    let ppu = PpuStub::new();
    let mut io = IoRegs::new();
    io.write(0x40, 0x82); // LCD on, sprites on, background off
    io.write(0x48, 0xE4);
    let mut vram = [0u8; 0x2000];
    // tile 1 row 0: colour 1 at column 0 only
    vram[16] = 0x80;
    let mut oam = [0u8; 0xA0];
    oam[0] = 16; // y = 0
    oam[1] = 8 + 2; // x = 2
    oam[2] = 1;
    let mut out = vec![0u8; 4 * 4];
    ppu.render_frame(&io, &vram, &oam, &mut out, 4, 1);
    assert_eq!(&out[8..12], &[0xAA, 0xAA, 0xAA, 0xFF]);
    assert_eq!(&out[12..16], &[0xFF, 0xFF, 0xFF, 0xFF]);
    assert_eq!(&out[0..4], &[0xFF, 0xFF, 0xFF, 0xFF]);
}

#[test]
fn take_frame_writes_the_gradient_and_clears_the_frame() {
    let mut core = Core::from_rom(vec![0u8; 0x8000]);
    core.ppu.frame_ready = true;
    core.cycles_this_frame = 1234;
    let mut out = vec![0u8; 160 * 144 * 4];
    core.take_frame(&mut out);
    assert_eq!(&out[0..4], &[32, 32, 32, 0xFF]);
    // pixel (x = 1, y = 2)
    let idx = (2 * 160 + 1) * 4;
    assert_eq!(&out[idx..idx + 4], &[35, 35, 35, 0xFF]);
    // pixel (x = 159, y = 143): (302 mod 256) + 32 = 78
    let idx = (143 * 160 + 159) * 4;
    assert_eq!(out[idx], 78);
    // (x + y) mod 256 = 250 saturates at 255
    let idx = (100 * 160 + 150) * 4;
    assert_eq!(out[idx], 255);
    assert!(!core.frame_ready());
    assert_eq!(core.cycles_this_frame, 0);
}

fn logo_rom() -> Vec<u8> {
    let mut rom = vec![0u8; 0x8000];
    for (i, b) in rom[0x104..0x134].iter_mut().enumerate() {
        *b = (i as u8).wrapping_mul(37) | 1;
    }
    rom
}

#[test]
fn boot_sequence_expands_the_logo_and_builds_the_map() {
    let mut core = Core::from_rom(logo_rom());
    let rom = logo_rom();
    let boot = BootSequence::new(&mut core, &rom);
    // first logo byte 0x01: high nibble 0 -> 0x00, low nibble 1 -> 0x03
    assert_eq!(&core.bus.vram[0x10..0x18], &[0x00, 0, 0x00, 0, 0x03, 0, 0x03, 0]);
    assert_eq!(core.bus.vram[0x1910], 0x19);
    assert_eq!(core.bus.vram[0x1904], 1);
    assert_eq!(core.bus.vram[0x190F], 12);
    assert_eq!(core.bus.vram[0x1924], 13);
    assert_eq!(core.bus.vram[0x192F], 24);
    assert_eq!(core.bus.vram[0xD0], 0x3C);
    assert_eq!(core.bus.io.read(0x47), 0xFC);
    assert_eq!(boot.map[8][16], 0x19);
    assert_eq!(boot.map[9][4], 13);
    assert_eq!(boot.tiles.len(), 26);
    assert_eq!(boot.scy, 0);
    assert_eq!(boot.phase, BootPhase::Scroll { remaining_steps: 100, frame_delay: 2 });
}

#[test]
fn boot_animation_ends_after_365_frames() {
    let rom = logo_rom();
    let mut inst = Instance::new_scalar(Core::from_rom(vec![0u8; 0x8000]));
    inst.load_rom(rom);
    assert!(inst.boot_active());
    assert!(!inst.frame_ready());
    let mut buf = vec![0u8; 160 * 144 * 4];
    for _ in 0..364 {
        inst.render_into(&mut buf);
        assert!(inst.boot_active());
    }
    inst.render_into(&mut buf);
    assert!(!inst.boot_active());
    assert_eq!(inst.core.bus.io.read(0x42), 0);
}

#[test]
fn boot_scroll_moves_one_line_every_third_frame() {
    let mut core = Core::from_rom(logo_rom());
    let rom = logo_rom();
    let mut boot = BootSequence::new(&mut core, &rom);
    let mut buf = vec![0u8; 160 * 144 * 4];
    boot.render(&mut core, &mut buf);
    boot.render(&mut core, &mut buf);
    assert_eq!(boot.scy, 0);
    boot.render(&mut core, &mut buf);
    assert_eq!(boot.scy, 255);
    assert_eq!(core.bus.io.read(0x42), 255);
}

#[test]
fn lcd_on_with_no_layer_accepts_a_short_buffer() {
    let ppu = PpuStub::new();
    let mut io = IoRegs::new();
    io.write(0x40, 0x80); // LCD on, background, window and sprites off
    let vram = [0xFFu8; 0x2000];
    let oam = [0u8; 0xA0];
    let mut out = vec![0u8; 10];
    ppu.render_frame(&io, &vram, &oam, &mut out, 160, 144);
    assert_eq!(&out[..8], &[0xFF; 8]);
    assert_eq!(&out[8..], &[0, 0]);
}
