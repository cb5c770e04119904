//! Concrete instruction scenarios driven through a CPU on a bus with a
//! ROM-only cartridge.

use emuchan::bus::BUS;
use emuchan::cartridge::Cartridge;
use emuchan::cpu::CPU;
use emuchan::ppu::PPU;

fn machine_with_rom(rom: Vec<u8>) -> (CPU, BUS) {
    let mut cart = Cartridge::new();
    cart.load_rom(rom);
    let mut bus = BUS::new();
    bus.cartridge_connect(cart);
    // Hide the boot overlay so that low addresses read the cartridge.
    bus.write(0xFF50, 1);
    (CPU::new(), bus)
}

#[test]
fn nop_timing() {
    let rom = vec![0u8; 0x8000];
    let (mut cpu, mut bus) = machine_with_rom(rom);
    cpu.reg.pc = 0x0100;
    assert_eq!(cpu.cycles, 0);
    let dots = cpu.step(&mut bus).unwrap();
    assert_eq!(cpu.reg.pc, 0x0101);
    assert_eq!(dots, 4);
    assert_eq!(cpu.cycles, 4);
    assert_eq!(cpu.reg.f, 0x00);
}

#[test]
fn ld_hl_d16() {
    let mut rom = vec![0u8; 0x8000];
    rom[0x0100] = 0x21;
    rom[0x0101] = 0x34;
    rom[0x0102] = 0x12;
    let (mut cpu, mut bus) = machine_with_rom(rom);
    cpu.reg.pc = 0x0100;
    let dots = cpu.step(&mut bus).unwrap();
    assert_eq!(cpu.reg.get_hl(), 0x1234);
    assert_eq!(cpu.reg.pc, 0x0103);
    assert_eq!(dots, 12);
}

#[test]
fn xor_a() {
    let mut rom = vec![0u8; 0x8000];
    rom[0x0100] = 0xAF;
    let (mut cpu, mut bus) = machine_with_rom(rom);
    cpu.reg.pc = 0x0100;
    cpu.reg.a = 0x5A;
    cpu.reg.f = 0x00;
    let dots = cpu.step(&mut bus).unwrap();
    assert_eq!(cpu.reg.a, 0x00);
    assert_eq!(cpu.reg.f, 0x80);
    assert_eq!(dots, 4);
}

#[test]
fn cp_immediate_boundary() {
    let mut rom = vec![0u8; 0x8000];
    rom[0x0100] = 0xFE;
    rom[0x0101] = 0x3C;
    let (mut cpu, mut bus) = machine_with_rom(rom);
    cpu.reg.pc = 0x0100;
    cpu.reg.a = 0x3C;
    let dots = cpu.step(&mut bus).unwrap();
    assert_eq!(cpu.reg.f, 0xC0);
    assert_eq!(cpu.reg.a, 0x3C);
    assert_eq!(dots, 8);
}

#[test]
fn call_ret_round_trip() {
    let mut rom = vec![0u8; 0x8000];
    rom[0x0200] = 0xCD;
    rom[0x0201] = 0x00;
    rom[0x0202] = 0x30;
    rom[0x0203] = 0xC9;
    rom[0x3000] = 0xC9;
    let (mut cpu, mut bus) = machine_with_rom(rom);
    cpu.reg.pc = 0x0200;
    cpu.reg.sp = 0xFFFE;
    let dots_call = cpu.step(&mut bus).unwrap();
    assert_eq!(dots_call, 24);
    assert_eq!(cpu.reg.pc, 0x3000);
    assert_eq!(cpu.reg.sp, 0xFFFC);
    assert_eq!(bus.read(0xFFFC), 0x03);
    assert_eq!(bus.read(0xFFFD), 0x02);
    let dots_ret = cpu.step(&mut bus).unwrap();
    assert_eq!(dots_ret, 16);
    assert_eq!(cpu.reg.pc, 0x0203);
    assert_eq!(cpu.reg.sp, 0xFFFE);
}

#[test]
fn bg_render_sanity() {
    let mut ppu = PPU::new();
    // LCD on, unsigned tile addressing, background on; map at 0x9800.
    ppu.write(0xFF40, 0x91);
    // Identity-ish palette: slots 0..3 map to 0,1,2,3.
    ppu.write(0xFF47, 0xE4);
    // Tile 0: every row has low bitplane 0xFF, high bitplane 0x00, so all
    // its pixels take color index 1.
    for row in 0..8u16 {
        ppu.write(0x8000 + row * 2, 0xFF);
        ppu.write(0x8000 + row * 2 + 1, 0x00);
    }
    // Map cell 0 already selects tile 0.
    ppu.draw_line();
    let video = ppu.get_video_buffer();
    for x in 0..8 {
        assert_eq!(video[x], 1, "pixel {} should show palette slot 1", x);
    }
}
