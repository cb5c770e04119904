//! System-level checks: bus decoding across every region, the one-shot
//! boot overlay, PPU mode timing observed through STAT and LY, whole
//! frames through the driver, and the surfaced decoding error.

use emuchan::bus::BUS;
use emuchan::cartridge::Cartridge;
use emuchan::cpu::CPU;
use emuchan::emu::EmuChan;
use emuchan::emu::EmulationState;
use emuchan::ppu::PPU;

#[test]
fn bus_regions_round_trip() {
    let mut bus = BUS::new();
    // VRAM.
    bus.write(0x8000, 0x12);
    assert_eq!(bus.read(0x8000), 0x12);
    // WRAM and its echo.
    bus.write(0xC123, 0x34);
    assert_eq!(bus.read(0xC123), 0x34);
    assert_eq!(bus.read(0xE123), 0x34, "echo RAM mirrors WRAM");
    bus.write(0xE456, 0x56);
    assert_eq!(bus.read(0xC456), 0x56);
    // OAM.
    bus.write(0xFE00, 0x78);
    assert_eq!(bus.read(0xFE00), 0x78);
    // The unusable range reads 0xFF and ignores writes.
    bus.write(0xFEA0, 0x9A);
    assert_eq!(bus.read(0xFEA0), 0xFF);
    assert_eq!(bus.read(0xFEFF), 0xFF);
    // Flat I/O bytes.
    bus.write(0xFF05, 0xBC);
    assert_eq!(bus.read(0xFF05), 0xBC);
    // HRAM and IE.
    bus.write(0xFF80, 0xDE);
    assert_eq!(bus.read(0xFF80), 0xDE);
    bus.write(0xFFFF, 0x1F);
    assert_eq!(bus.read(0xFFFF), 0x1F);
    // Video registers go through the PPU.
    bus.write(0xFF42, 0x07);
    assert_eq!(bus.read(0xFF42), 0x07);
    bus.write(0xFF47, 0xE4);
    assert_eq!(bus.read(0xFF47), 0xE4);
}

#[test]
fn rom_range_is_write_protected() {
    let mut rom = vec![0u8; 0x8000];
    rom[0x0200] = 0x42;
    let mut cart = Cartridge::new();
    cart.load_rom(rom);
    let mut bus = BUS::new();
    bus.cartridge_connect(cart);
    assert_eq!(bus.read(0x0200), 0x42);
    bus.write(0x0200, 0x99);
    assert_eq!(bus.read(0x0200), 0x42, "ROM keeps the image byte");
}

#[test]
fn boot_overlay_is_one_shot() {
    let mut rom = vec![0u8; 0x8000];
    rom[0x0000] = 0x42;
    let mut cart = Cartridge::new();
    cart.load_rom(rom);
    let mut bus = BUS::new();
    bus.cartridge_connect(cart);
    bus.load_boot_rom(vec![0xAAu8; 0x100]);
    assert_eq!(bus.read(0x0000), 0xAA, "boot overlay answers first");
    assert_eq!(bus.read(0x0100), 0x00, "the overlay ends at 0x0100");
    bus.write(0xFF50, 0x01);
    assert_eq!(bus.read(0x0000), 0x42, "the cartridge shows through");
    bus.write(0xFF50, 0x00);
    assert_eq!(bus.read(0x0000), 0x42, "no write re-enables the overlay");
}

#[test]
fn ly_is_read_only_and_lyc_compare_tracks() {
    let mut ppu = PPU::new();
    ppu.write(0xFF44, 0x77);
    assert_eq!(ppu.read(0xFF44), 0, "LY ignores guest writes");
    // At LY=0, writing LYC=0 turns the compare bit on; LYC=5 turns it off.
    ppu.write(0xFF45, 0);
    assert_eq!(ppu.read(0xFF41) & 0x04, 0x04);
    ppu.write(0xFF45, 5);
    assert_eq!(ppu.read(0xFF41) & 0x04, 0x00);
}

#[test]
fn stat_low_bits_are_read_only() {
    let mut ppu = PPU::new();
    let before = ppu.read(0xFF41);
    ppu.write(0xFF41, 0xFF);
    let after = ppu.read(0xFF41);
    assert_eq!(after & 0x07, before & 0x07, "mode and compare bits stick");
    assert_eq!(after & 0xF8, 0xF8, "interrupt-select bits are stored");
}

#[test]
fn ppu_mode_timing_over_one_line() {
    let mut ppu = PPU::new();
    ppu.write(0xFF40, 0x80); // LCD on
    assert_eq!(ppu.read(0xFF41) & 0x03, 2, "a line starts in AccessOAM");
    ppu.step_n(80);
    assert_eq!(ppu.read(0xFF41) & 0x03, 3, "AccessVRAM after 80 dots");
    ppu.step_n(172);
    assert_eq!(ppu.read(0xFF41) & 0x03, 0, "HBlank after 172 more");
    ppu.step_n(204);
    assert_eq!(ppu.read(0xFF41) & 0x03, 2, "next line back in AccessOAM");
    assert_eq!(ppu.read(0xFF44), 1, "LY advanced at the line boundary");
}

#[test]
fn ppu_enters_vblank_at_line_144() {
    let mut ppu = PPU::new();
    ppu.write(0xFF40, 0x80);
    ppu.step_n(144 * 456);
    assert_eq!(ppu.read(0xFF44), 144);
    assert_eq!(ppu.read(0xFF41) & 0x03, 1, "VBlank at line 144");
    ppu.step_n(10 * 456);
    assert_eq!(ppu.read(0xFF44), 0, "wrapped back to line 0");
    assert_eq!(ppu.read(0xFF41) & 0x03, 2);
}

#[test]
fn ppu_is_idle_with_lcd_off() {
    let mut ppu = PPU::new();
    ppu.step_n(1000);
    assert_eq!(ppu.read(0xFF44), 0);
    assert_eq!(ppu.read(0xFF41) & 0x03, 2);
}

#[test]
fn push_pop_round_trip() {
    let mut cpu = CPU::new();
    let mut bus = BUS::new();
    cpu.reg.sp = 0xFFFE;
    cpu.push(&mut bus, 0x1234);
    assert_eq!(cpu.reg.sp, 0xFFFC);
    assert_eq!(bus.read(0xFFFC), 0x34, "low byte at the lower address");
    assert_eq!(bus.read(0xFFFD), 0x12);
    let v = cpu.pop(&bus);
    assert_eq!(v, 0x1234);
    assert_eq!(cpu.reg.sp, 0xFFFE);
}

#[test]
fn cb_bit_res_set_and_rl() {
    let mut rom = vec![0u8; 0x8000];
    // BIT 7,H ; RL C ; SET 3,B ; RES 3,B
    let program = [0xCB, 0x7C, 0xCB, 0x11, 0xCB, 0xD8, 0xCB, 0x98];
    for (i, &byte) in program.iter().enumerate() {
        rom[0x0100 + i] = byte;
    }
    let mut cart = Cartridge::new();
    cart.load_rom(rom);
    let mut bus = BUS::new();
    bus.cartridge_connect(cart);
    bus.write(0xFF50, 1);
    let mut cpu = CPU::new();
    cpu.reg.pc = 0x0100;
    cpu.reg.h = 0x80;
    let dots = cpu.step(&mut bus).unwrap();
    assert_eq!(dots, 8);
    assert_eq!(cpu.reg.f & 0x80, 0x00, "bit 7 of H is set, so Z is clear");
    assert_eq!(cpu.reg.f & 0x20, 0x20, "BIT always sets H");
    // RL C: 0x80 rotated left through a clear carry gives 0 and carry out.
    cpu.reg.c = 0x80;
    cpu.reg.f = 0x00;
    cpu.step(&mut bus).unwrap();
    assert_eq!(cpu.reg.c, 0x00);
    assert_eq!(cpu.reg.f, 0x90, "Z and C set");
    cpu.reg.b = 0x00;
    cpu.step(&mut bus).unwrap();
    assert_eq!(cpu.reg.b, 0x08, "SET 3,B");
    cpu.step(&mut bus).unwrap();
    assert_eq!(cpu.reg.b, 0x00, "RES 3,B");
}

#[test]
fn hl_wraparound_on_post_increment() {
    let mut rom = vec![0u8; 0x8000];
    rom[0x0100] = 0x22; // LD (HL+),A
    let mut cart = Cartridge::new();
    cart.load_rom(rom);
    let mut bus = BUS::new();
    bus.cartridge_connect(cart);
    bus.write(0xFF50, 1);
    let mut cpu = CPU::new();
    cpu.reg.pc = 0x0100;
    cpu.reg.a = 0x5A;
    cpu.reg.set_hl(0xFFFF);
    cpu.step(&mut bus).unwrap();
    assert_eq!(cpu.reg.get_hl(), 0x0000, "HL wraps past 0xFFFF");
    assert_eq!(bus.read(0xFFFF), 0x5A, "the store hit the old HL");
}

#[test]
fn relative_jump_backwards() {
    let mut rom = vec![0u8; 0x8000];
    rom[0x0200] = 0x18; // JR -2: loops onto itself
    rom[0x0201] = 0xFE;
    let mut cart = Cartridge::new();
    cart.load_rom(rom);
    let mut bus = BUS::new();
    bus.cartridge_connect(cart);
    bus.write(0xFF50, 1);
    let mut cpu = CPU::new();
    cpu.reg.pc = 0x0200;
    let dots = cpu.step(&mut bus).unwrap();
    assert_eq!(dots, 12);
    assert_eq!(cpu.reg.pc, 0x0200);
}

#[test]
fn conditional_jump_timing() {
    let mut rom = vec![0u8; 0x8000];
    rom[0x0100] = 0x20; // JR NZ,+2
    rom[0x0101] = 0x02;
    rom[0x0104] = 0x20; // JR NZ,+2 again, this time with Z set
    rom[0x0105] = 0x02;
    let mut cart = Cartridge::new();
    cart.load_rom(rom);
    let mut bus = BUS::new();
    bus.cartridge_connect(cart);
    bus.write(0xFF50, 1);
    let mut cpu = CPU::new();
    cpu.reg.pc = 0x0100;
    let taken = cpu.step(&mut bus).unwrap();
    assert_eq!(taken, 12, "a taken relative jump costs 12 dots");
    assert_eq!(cpu.reg.pc, 0x0104);
    cpu.reg.f = 0x80;
    let skipped = cpu.step(&mut bus).unwrap();
    assert_eq!(skipped, 8, "an untaken one costs 8");
    assert_eq!(cpu.reg.pc, 0x0106);
}

#[test]
fn unknown_opcode_is_reported() {
    let mut rom = vec![0u8; 0x8000];
    rom[0x0100] = 0xD3;
    let mut cart = Cartridge::new();
    cart.load_rom(rom);
    let mut bus = BUS::new();
    bus.cartridge_connect(cart);
    bus.write(0xFF50, 1);
    let mut cpu = CPU::new();
    cpu.reg.pc = 0x0100;
    let err = cpu.step(&mut bus).unwrap_err();
    assert_eq!(err.pc, 0x0100);
    assert_eq!(err.opcode, 0xD3);
    assert_eq!(cpu.reg.pc, 0x0101, "only the fetch happened");
}

#[test]
fn frame_driver_runs_a_frame() {
    let mut emu = EmuChan::new();
    // All-zero boot bytes decode to NOP; above 0x0100 the empty cartridge
    // reads 0xFF, which is RST 0x38 and lands back in the boot bytes.
    emu.bus.write(0xFF40, 0x80); // LCD on so the PPU advances
    emu.set_state(EmulationState::RUNNING);
    emu.run_one_frame();
    assert_eq!(emu.emulation_state(), EmulationState::RUNNING);
    assert_eq!(emu.last_error(), None);
    // 70224 dots is a whole number of frames: the PPU is back at line 0.
    assert_eq!(emu.bus.read(0xFF44), 0);
    assert_eq!(emu.bus.read(0xFF41) & 0x03, 2);
}

#[test]
fn frame_driver_pauses_on_unknown_opcode() {
    let mut emu = EmuChan::new();
    let mut boot = vec![0u8; 0x100];
    boot[0] = 0xD3;
    emu.bus.load_boot_rom(boot);
    emu.set_state(EmulationState::RUNNING);
    emu.run_one_frame();
    assert_eq!(emu.emulation_state(), EmulationState::PAUSED);
    let err = emu.last_error().unwrap();
    assert_eq!(err.pc, 0x0000);
    assert_eq!(err.opcode, 0xD3);
}

#[test]
fn frame_driver_does_nothing_while_paused() {
    let mut emu = EmuChan::new();
    emu.run_one_frame();
    assert_eq!(emu.emulation_state(), EmulationState::PAUSED);
    assert_eq!(emu.cpu.reg.pc, 0);
}

#[test]
fn game_title_through_the_driver() {
    let mut rom = vec![0u8; 0x8000];
    let title = b"TETRIS";
    for (i, &ch) in title.iter().enumerate() {
        rom[0x134 + i] = ch;
    }
    let mut emu = EmuChan::new();
    emu.load_rom(rom);
    let got = emu.get_game_title();
    assert_eq!(&got[..6], title);
    assert_eq!(emu.get_video_buffer().len(), 160 * 144);
}

#[test]
fn state_snapshot_reflects_flags() {
    let mut emu = EmuChan::new();
    emu.cpu.reg.f = 0x90; // Z and C
    let snap = emu.state_snapshot();
    assert!(snap.flags.z);
    assert!(!snap.flags.n);
    assert!(!snap.flags.h);
    assert!(snap.flags.c);
    assert_eq!(snap.emulation_state, EmulationState::PAUSED);
}
