//! Instruction classes beyond the basic scenarios: 16-bit arithmetic
//! flags, stack-pointer arithmetic, AF masking through the stack, BCD
//! adjust after subtraction, high-RAM loads, jumps, restarts, interrupt
//! enable bits, HALT and STOP, and operations through the HL pointer.

use emuchan::bus::BUS;
use emuchan::cartridge::Cartridge;
use emuchan::cpu::CPU;

fn machine(program: &[u8], org: usize) -> (CPU, BUS) {
    let mut rom = vec![0u8; 0x8000];
    for (i, &byte) in program.iter().enumerate() {
        rom[org + i] = byte;
    }
    let mut cart = Cartridge::new();
    cart.load_rom(rom);
    let mut bus = BUS::new();
    bus.cartridge_connect(cart);
    bus.write(0xFF50, 1);
    let mut cpu = CPU::new();
    cpu.reg.pc = org as u16;
    (cpu, bus)
}

#[test]
fn add_hl_carries_between_bits_11_and_12() {
    let (mut cpu, mut bus) = machine(&[0x09, 0x09], 0x0100); // ADD HL,BC twice
    cpu.reg.set_hl(0x0FFF);
    cpu.reg.set_bc(0x0001);
    let dots = cpu.step(&mut bus).unwrap();
    assert_eq!(dots, 8);
    assert_eq!(cpu.reg.get_hl(), 0x1000);
    assert_eq!(cpu.reg.f, 0x20, "half-carry out of bit 11");
    cpu.reg.set_hl(0xFFFF);
    cpu.reg.set_bc(0x0001);
    cpu.step(&mut bus).unwrap();
    assert_eq!(cpu.reg.get_hl(), 0x0000);
    assert_eq!(cpu.reg.f, 0x30, "both carries on full wrap");
}

#[test]
fn add_sp_signed_immediate() {
    let (mut cpu, mut bus) = machine(&[0xE8, 0x08], 0x0100); // ADD SP,+8
    cpu.reg.sp = 0xFFF8;
    let dots = cpu.step(&mut bus).unwrap();
    assert_eq!(dots, 16);
    assert_eq!(cpu.reg.sp, 0x0000);
    assert_eq!(cpu.reg.f, 0x30, "H and C from the low byte");
}

#[test]
fn ld_hl_sp_negative_offset() {
    let (mut cpu, mut bus) = machine(&[0xF8, 0xFE], 0x0100); // LD HL,SP-2
    cpu.reg.sp = 0x0100;
    let dots = cpu.step(&mut bus).unwrap();
    assert_eq!(dots, 12);
    assert_eq!(cpu.reg.get_hl(), 0x00FE);
    assert_eq!(cpu.reg.sp, 0x0100, "SP itself is untouched");
    assert_eq!(cpu.reg.f, 0x00);
}

#[test]
fn pop_af_masks_the_flag_nibble() {
    let (mut cpu, mut bus) = machine(&[0xC5, 0xF1], 0x0100); // PUSH BC; POP AF
    cpu.reg.sp = 0xFFFE;
    cpu.reg.set_bc(0x12FF);
    cpu.step(&mut bus).unwrap();
    cpu.step(&mut bus).unwrap();
    assert_eq!(cpu.reg.a, 0x12);
    assert_eq!(cpu.reg.f, 0xF0, "the low nibble of F is forced to zero");
    assert_eq!(cpu.reg.sp, 0xFFFE);
}

#[test]
fn daa_after_bcd_subtraction() {
    let (mut cpu, mut bus) = machine(&[0x90, 0x27], 0x0100); // SUB A,B; DAA
    cpu.reg.a = 0x42;
    cpu.reg.b = 0x09;
    cpu.step(&mut bus).unwrap();
    assert_eq!(cpu.reg.a, 0x39);
    cpu.step(&mut bus).unwrap();
    assert_eq!(cpu.reg.a, 0x33, "BCD 42 - 09 = 33");
}

#[test]
fn ldh_round_trip_through_hram() {
    // LDH (0x80),A ; XOR A ; LDH A,(0x80)
    let (mut cpu, mut bus) = machine(&[0xE0, 0x80, 0xAF, 0xF0, 0x80], 0x0100);
    cpu.reg.a = 0x5D;
    let dots = cpu.step(&mut bus).unwrap();
    assert_eq!(dots, 12);
    assert_eq!(bus.read(0xFF80), 0x5D);
    cpu.step(&mut bus).unwrap();
    assert_eq!(cpu.reg.a, 0x00);
    let dots = cpu.step(&mut bus).unwrap();
    assert_eq!(dots, 12);
    assert_eq!(cpu.reg.a, 0x5D);
}

#[test]
fn ld_c_indirection() {
    let (mut cpu, mut bus) = machine(&[0xE2, 0xF2], 0x0100); // LD (C),A ; LD A,(C)
    cpu.reg.c = 0x81;
    cpu.reg.a = 0x99;
    cpu.step(&mut bus).unwrap();
    assert_eq!(bus.read(0xFF81), 0x99);
    cpu.reg.a = 0x00;
    cpu.step(&mut bus).unwrap();
    assert_eq!(cpu.reg.a, 0x99);
}

#[test]
fn jp_absolute_and_jp_hl() {
    let mut program = vec![0u8; 0x100];
    program[0] = 0xC3; // JP 0x0150
    program[1] = 0x50;
    program[2] = 0x01;
    program[0x50] = 0xE9; // JP HL
    let (mut cpu, mut bus) = machine(&program, 0x0100);
    cpu.reg.set_hl(0x0123);
    let dots = cpu.step(&mut bus).unwrap();
    assert_eq!(dots, 16);
    assert_eq!(cpu.reg.pc, 0x0150);
    let dots = cpu.step(&mut bus).unwrap();
    assert_eq!(dots, 4);
    assert_eq!(cpu.reg.pc, 0x0123);
}

#[test]
fn rst_pushes_and_vectors() {
    let (mut cpu, mut bus) = machine(&[0xDF], 0x0100); // RST 0x18
    cpu.reg.sp = 0xFFFE;
    let dots = cpu.step(&mut bus).unwrap();
    assert_eq!(dots, 16);
    assert_eq!(cpu.reg.pc, 0x0018);
    assert_eq!(cpu.reg.sp, 0xFFFC);
    assert_eq!(bus.read(0xFFFC), 0x01, "low byte of the return address");
    assert_eq!(bus.read(0xFFFD), 0x01);
}

#[test]
fn di_ei_toggle_ime() {
    let (mut cpu, mut bus) = machine(&[0xFB, 0xF3], 0x0100); // EI ; DI
    assert_eq!(cpu.reg.ime, 0);
    cpu.step(&mut bus).unwrap();
    assert_eq!(cpu.reg.ime, 1);
    cpu.step(&mut bus).unwrap();
    assert_eq!(cpu.reg.ime, 0);
}

#[test]
fn halt_spins_in_place() {
    let (mut cpu, mut bus) = machine(&[0x76], 0x0100);
    let dots = cpu.step(&mut bus).unwrap();
    assert_eq!(dots, 4);
    assert_eq!(cpu.reg.pc, 0x0100, "a halted CPU stays on the HALT");
    cpu.step(&mut bus).unwrap();
    assert_eq!(cpu.reg.pc, 0x0100);
}

#[test]
fn stop_consumes_its_padding_byte() {
    let (mut cpu, mut bus) = machine(&[0x10, 0x00, 0x04], 0x0100); // STOP ; INC B
    let dots = cpu.step(&mut bus).unwrap();
    assert_eq!(dots, 4);
    assert_eq!(cpu.reg.pc, 0x0102);
    cpu.step(&mut bus).unwrap();
    assert_eq!(cpu.reg.b, 1);
}

#[test]
fn ld_a16_sp_stores_little_endian() {
    let (mut cpu, mut bus) = machine(&[0x08, 0x00, 0xC0], 0x0100); // LD (0xC000),SP
    cpu.reg.sp = 0xBEEF;
    let dots = cpu.step(&mut bus).unwrap();
    assert_eq!(dots, 20);
    assert_eq!(bus.read(0xC000), 0xEF);
    assert_eq!(bus.read(0xC001), 0xBE);
}

#[test]
fn operations_through_the_hl_pointer() {
    // LD (HL),B ; INC (HL) ; ADD A,(HL)
    let (mut cpu, mut bus) = machine(&[0x70, 0x34, 0x86], 0x0100);
    cpu.reg.set_hl(0xC800);
    cpu.reg.b = 0x41;
    cpu.reg.a = 0x01;
    let dots = cpu.step(&mut bus).unwrap();
    assert_eq!(dots, 8);
    assert_eq!(bus.read(0xC800), 0x41);
    let dots = cpu.step(&mut bus).unwrap();
    assert_eq!(dots, 12);
    assert_eq!(bus.read(0xC800), 0x42);
    let dots = cpu.step(&mut bus).unwrap();
    assert_eq!(dots, 8);
    assert_eq!(cpu.reg.a, 0x43);
}

#[test]
fn cb_swap_and_srl() {
    let (mut cpu, mut bus) = machine(&[0xCB, 0x37, 0xCB, 0x3F], 0x0100); // SWAP A ; SRL A
    cpu.reg.a = 0xAB;
    cpu.step(&mut bus).unwrap();
    assert_eq!(cpu.reg.a, 0xBA);
    assert_eq!(cpu.reg.f, 0x00);
    cpu.step(&mut bus).unwrap();
    assert_eq!(cpu.reg.a, 0x5D);
    assert_eq!(cpu.reg.f, 0x00, "shifted-out bit 0 of 0xBA is clear");
}

#[test]
fn sixteen_bit_inc_dec_wrap() {
    let (mut cpu, mut bus) = machine(&[0x23, 0x0B], 0x0100); // INC HL ; DEC BC
    cpu.reg.set_hl(0xFFFF);
    cpu.reg.set_bc(0x0000);
    cpu.step(&mut bus).unwrap();
    assert_eq!(cpu.reg.get_hl(), 0x0000);
    cpu.step(&mut bus).unwrap();
    assert_eq!(cpu.reg.get_bc(), 0xFFFF);
}

#[test]
fn cb_bit_on_hl_costs_twelve_dots() {
    let (mut cpu, mut bus) = machine(&[0xCB, 0x46, 0xCB, 0x86], 0x0100); // BIT 0,(HL); RES 0,(HL)
    cpu.reg.set_hl(0xC900);
    bus.write(0xC900, 0x01);
    let dots = cpu.step(&mut bus).unwrap();
    assert_eq!(dots, 12);
    assert_eq!(cpu.reg.f & 0x80, 0, "bit 0 is set, so Z is clear");
    let dots = cpu.step(&mut bus).unwrap();
    assert_eq!(dots, 16);
    assert_eq!(bus.read(0xC900), 0x00);
}
