//! Component-level checks: registers and flags, the ALU's flag table on
//! boundary operands, palettes, video registers, the cartridge with and
//! without a bank controller, and the header helpers.

use emuchan::cartridge::Cartridge;
use emuchan::cartridge::get_destination;
use emuchan::cartridge::get_ram_size;
use emuchan::cartridge::get_rom_size;
use emuchan::config::Dimensions;
use emuchan::cpu::CPU;
use emuchan::ppu::LCDC;
use emuchan::ppu::Pallete;
use emuchan::ppu::STAT;
use emuchan::register::Flags;
use emuchan::register::Register;
use emuchan::register::Register16;
use emuchan::register::Register8;

#[test]
fn register_pair_aliasing() {
    let mut r = Register::new();
    r.set_r16(Register16::BC, 0xABCD);
    assert_eq!(r.get_r16(Register16::BC), 0xABCD);
    assert_eq!(r.b, 0xAB);
    assert_eq!(r.c, 0xCD);
    r.set_r16(Register16::DE, 0x1357);
    assert_eq!(r.get_de(), 0x1357);
    r.set_hl(0xFEDC);
    assert_eq!(r.get_r16(Register16::HL), 0xFEDC);
    r.set_r16(Register16::SP, 0xBEEF);
    assert_eq!(r.get_r16(Register16::SP), 0xBEEF);
    // The low nibble of F always reads back as zero through AF.
    r.set_r16(Register16::AF, 0xABCD);
    assert_eq!(r.get_r16(Register16::AF), 0xABC0);
}

#[test]
fn flags_land_in_the_high_nibble() {
    let mut r = Register::new();
    r.set_flag(Flags::Z, true);
    r.set_flag(Flags::C, true);
    assert_eq!(r.f, 0x90);
    assert_eq!(r.get_flag(Flags::Z), 1);
    assert_eq!(r.get_flag(Flags::N), 0);
    assert_eq!(r.get_flag(Flags::H), 0);
    assert_eq!(r.get_flag(Flags::C), 1);
    r.set_flag(Flags::Z, false);
    r.set_flag(Flags::N, true);
    r.set_flag(Flags::H, true);
    assert_eq!(r.f, 0x70);
}

#[test]
fn eight_bit_register_moves() {
    let mut r = Register::new();
    r.set_r8(Register8::A, 7);
    r.set_r8(Register8::B, 8);
    r.set_r8(Register8::L, 9);
    assert_eq!(r.get_r8(Register8::A), 7);
    assert_eq!(r.get_r8(Register8::B), 8);
    assert_eq!(r.get_r8(Register8::L), 9);
}

#[test]
fn add_overflow_sets_carry_and_half() {
    // 0xFF + 0x01 wraps to zero with Z, H and C set, N clear.
    let mut cpu = CPU::new();
    cpu.reg.a = 0xFF;
    cpu.op_alu(emuchan::opcodes::AluOp::Add, 0x01);
    assert_eq!(cpu.reg.a, 0x00);
    assert_eq!(cpu.reg.f, 0xB0);
}

#[test]
fn adc_uses_carry_in() {
    let mut cpu = CPU::new();
    cpu.reg.a = 0x10;
    cpu.reg.f = 0x10; // carry in
    cpu.op_alu(emuchan::opcodes::AluOp::Adc, 0x0F);
    assert_eq!(cpu.reg.a, 0x20);
    assert_eq!(cpu.reg.f, 0x20); // half-carry only
}

#[test]
fn sub_borrow_flags() {
    let mut cpu = CPU::new();
    cpu.reg.a = 0x10;
    cpu.op_alu(emuchan::opcodes::AluOp::Sub, 0x20);
    assert_eq!(cpu.reg.a, 0xF0);
    assert_eq!(cpu.reg.f, 0x50); // N and C, no half borrow (0 < 0 is false)
}

#[test]
fn and_sets_half_flag() {
    let mut cpu = CPU::new();
    cpu.reg.a = 0xF0;
    cpu.op_alu(emuchan::opcodes::AluOp::And, 0x0F);
    assert_eq!(cpu.reg.a, 0x00);
    assert_eq!(cpu.reg.f, 0xA0); // Z and H
}

#[test]
fn daa_after_bcd_addition() {
    // 0x15 + 0x27 = 0x3C; DAA turns it into the BCD sum 0x42.
    let mut cpu = CPU::new();
    cpu.reg.a = 0x15;
    cpu.op_alu(emuchan::opcodes::AluOp::Add, 0x27);
    assert_eq!(cpu.reg.a, 0x3C);
    cpu.op_daa();
    assert_eq!(cpu.reg.a, 0x42);
    assert_eq!(cpu.reg.f & 0x10, 0);
}

#[test]
fn pallete_extraction() {
    let p = Pallete::new(0xE4);
    assert_eq!(p.get_pallete(), 0xE4);
    assert_eq!(p.extract_pallete(), [0, 1, 2, 3]);
    let q = Pallete::new(0x1B);
    assert_eq!(q.extract_pallete(), [3, 2, 1, 0]);
}

#[test]
fn lcdc_bits() {
    let mut l = LCDC::new(0);
    l.set(LCDC::LCD_ON);
    l.set(LCDC::BG_ON);
    assert!(l.is_set(LCDC::LCD_ON));
    assert!(l.is_set(LCDC::BG_ON));
    assert!(!l.is_set(LCDC::OBJ_ON));
    assert_eq!(l.get_lcdc(), 0x81);
    l.clear(LCDC::LCD_ON);
    assert!(!l.is_set(LCDC::LCD_ON));
    l.set_lcdc(0x55);
    assert_eq!(l.get_lcdc(), 0x55);
}

#[test]
fn stat_bits() {
    let mut s = STAT::new(0);
    s.set(STAT::LYC_INT);
    assert!(s.is_set(STAT::LYC_INT));
    assert!(!s.is_set(STAT::OAM_INT));
    s.clear(STAT::LYC_INT);
    assert_eq!(s.get_stat(), 0);
    s.set_stat(0x45);
    assert_eq!(s.get_stat(), 0x45);
}

#[test]
fn rom_only_cartridge_reads_and_ignores_writes() {
    let mut rom = vec![0u8; 0x8000];
    rom[0x0000] = 0x11;
    rom[0x4000] = 0x22;
    rom[0x7FFF] = 0x33;
    let mut cart = Cartridge::new();
    cart.load_rom(rom);
    assert_eq!(cart.read(0x0000), 0x11);
    assert_eq!(cart.read(0x4000), 0x22);
    assert_eq!(cart.read(0x7FFF), 0x33);
    cart.write(0x0000, 0xAA);
    assert_eq!(cart.read(0x0000), 0x11, "ROM-only cartridges ignore writes");
    // External RAM is absent: reads are 0xFF.
    assert_eq!(cart.read(0xA000), 0xFF);
}

#[test]
fn reads_past_the_image_return_ff() {
    let mut cart = Cartridge::new();
    cart.load_rom(vec![0x99u8; 0x100]);
    assert_eq!(cart.read(0x00FF), 0x99);
    assert_eq!(cart.read(0x0100), 0xFF);
    assert_eq!(cart.read(0x4000), 0xFF);
}

#[test]
fn mbc1_ram_enable_and_banking() {
    // A 64 KiB MBC1 image with 8 KiB of RAM.
    let mut rom = vec![0u8; 0x10000];
    rom[0x0147] = 0x03; // MBC1 with RAM and battery
    rom[0x0149] = 0x02; // 8 KiB of external RAM
    rom[0x4000] = 0xB1; // a byte of bank 1
    rom[0x8000] = 0xB2; // a byte of bank 2
    let mut cart = Cartridge::new();
    cart.load_rom(rom);
    // RAM is gated until 0x0A is written below 0x2000.
    cart.write(0xA000, 0x77);
    assert_eq!(cart.read(0xA000), 0xFF);
    cart.write(0x0000, 0x0A);
    cart.write(0xA000, 0x77);
    assert_eq!(cart.read(0xA000), 0x77);
    // Bank 1 answers 0x4000..0x8000 until the bank register changes.
    assert_eq!(cart.read(0x4000), 0xB1);
    cart.write(0x2000, 0x02);
    assert_eq!(cart.read(0x4000), 0xB2);
    // Writing bank 0 selects bank 1.
    cart.write(0x2000, 0x00);
    assert_eq!(cart.read(0x4000), 0xB1);
    // The low bank never moves.
    assert_eq!(cart.read(0x0000), 0x00);
}

#[test]
fn header_text_tables() {
    assert_eq!(get_rom_size(0x00), "32 KiB (2 ROM banks)");
    assert_eq!(get_rom_size(0x05), "1 MiB (64 ROM banks)");
    assert_eq!(get_rom_size(0x99), "Unknown");
    assert_eq!(get_ram_size(0x00), "No RAM");
    assert_eq!(get_ram_size(0x03), "32 KiB (4 banks of 8 KiB each)");
    assert_eq!(get_destination(0x00), "Japan (and possibly overseas)");
    assert_eq!(get_destination(0x01), "Overseas only");
    assert_eq!(get_destination(0x42), "Unknown");
}

#[test]
fn header_checksum_and_title() {
    let mut rom = vec![0u8; 0x8000];
    let title = b"EMUCHAN TEST";
    for (i, &ch) in title.iter().enumerate() {
        rom[0x134 + i] = ch;
    }
    // The checksum byte makes `c := c - byte - 1` over 0x134..=0x14C come
    // out equal to it.
    let mut c: u8 = 0;
    for addr in 0x134..=0x14C {
        c = c.wrapping_sub(rom[addr]).wrapping_sub(1);
    }
    rom[0x14D] = c;
    let mut cart = Cartridge::new();
    cart.load_rom(rom);
    assert_eq!(cart.header_checksum_ok(), Some(true));
    assert_eq!(cart.compute_header_checksum(), Some(c));
    let got = cart.game_title();
    assert_eq!(&got[..12], title);
    assert_eq!(got.len(), 16);
}

#[test]
fn header_checksum_mismatch_is_reported() {
    let mut rom = vec![0u8; 0x8000];
    rom[0x14D] = 0x55; // almost surely wrong for an all-zero header
    let mut cart = Cartridge::new();
    cart.load_rom(rom);
    assert_eq!(cart.header_checksum_ok(), Some(false));
}

#[test]
fn short_image_has_no_header() {
    let mut cart = Cartridge::new();
    cart.load_rom(vec![0u8; 0x40]);
    assert_eq!(cart.header_checksum_ok(), None);
    assert_eq!(cart.compute_header_checksum(), None);
    assert_eq!(cart.game_title(), Vec::<u8>::new());
}

#[test]
fn dimensions_scale() {
    let d = Dimensions::new(160, 144);
    let s = d.scale(4);
    assert_eq!(s.width, 640);
    assert_eq!(s.height, 576);
}
