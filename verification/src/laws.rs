//! System-wide laws, each proved once and for all inputs: register-pair
//! aliasing, the flag table of the ALU, the push/pop round trip, the bus
//! write/read discipline, the one-way boot latch, and the periodicity of
//! the PPU's mode machine over one frame.

use vstd::prelude::*;

use crate::bus::BusV;
use crate::bus::bus_read_spec;
use crate::bus::bus_write_spec;
use crate::cartridge::cart_read_spec;
use crate::cartridge::is_mbc1;
use crate::cartridge::active_ram_bank;
use crate::cpu::alu_vals;
use crate::cpu::pop_val;
use crate::cpu::push_bus;
use crate::cpu::wrap_sub16;
use crate::opcodes::AluOp;
use crate::opcodes::spec_decode;
use crate::ppu::Mode;
use crate::ppu::PpuV;
use crate::ppu::lcd_on;
use crate::ppu::ppu_step_n_spec;
use crate::ppu::ppu_step_spec;
use crate::register::Register;
use crate::register::Register16;
use crate::register::c_flag;
use crate::register::flags_byte;
use crate::register::h_flag;
use crate::register::hi8;
use crate::register::lo8;
use crate::register::n_flag;
use crate::register::spec_get_r16;
use crate::register::spec_set_r16;
use crate::register::word16;
use crate::register::z_flag;

verus! {

/// Register-pair aliasing: writing a 16-bit value to BC, DE, HL or SP and
/// reading it back yields the value; through AF the low nibble of F reads
/// back as zero.
pub proof fn lemma_register_pair_roundtrip(r: Register, v: u16)
    ensures
        spec_get_r16(spec_set_r16(r, Register16::BC, v), Register16::BC) == v,
        spec_get_r16(spec_set_r16(r, Register16::DE, v), Register16::DE) == v,
        spec_get_r16(spec_set_r16(r, Register16::HL, v), Register16::HL) == v,
        spec_get_r16(spec_set_r16(r, Register16::SP, v), Register16::SP) == v,
        spec_get_r16(spec_set_r16(r, Register16::AF, v), Register16::AF) == v / 16 * 16,
{
    assert(word16(hi8(v), lo8(v)) == v);
    assert(hi8(v) * 256 + (lo8(v) / 16 * 16) == v / 16 * 16);
}

/// The four flag bits land in bits 7..4 of the composed flag byte, whose
/// low nibble is zero.
pub proof fn lemma_flags_byte(z: bool, n: bool, h: bool, c: bool)
    ensures
        z_flag(flags_byte(z, n, h, c)) == z,
        n_flag(flags_byte(z, n, h, c)) == n,
        h_flag(flags_byte(z, n, h, c)) == h,
        c_flag(flags_byte(z, n, h, c)) == c,
        flags_byte(z, n, h, c) % 16 == 0,
{
}

/// The flag table of the eight accumulator operations, for every pair of
/// operand bytes and carry-in: Z iff the 8-bit result is zero, N on
/// subtractions and compares, H on a carry or borrow between bits 3 and 4,
/// C on full-width overflow or borrow; AND sets H; all three bitwise
/// operations clear C; CP leaves the accumulator alone.
pub proof fn lemma_alu_flags(op: AluOp, a: u8, v: u8, cin: bool)
    ensures
        ({
            let res = alu_vals(op, a, v, cin).0;
            let f = alu_vals(op, a, v, cin).1;
            let ci: int = if cin { 1int } else { 0int };
            match op {
                AluOp::Add => {
                    &&& res == (a + v) % 256
                    &&& z_flag(f) == (res == 0)
                    &&& !n_flag(f)
                    &&& h_flag(f) == (a % 16 + v % 16 > 15)
                    &&& c_flag(f) == (a + v > 255)
                },
                AluOp::Adc => {
                    &&& res == (a + v + ci) % 256
                    &&& z_flag(f) == (res == 0)
                    &&& !n_flag(f)
                    &&& h_flag(f) == (a % 16 + v % 16 + ci > 15)
                    &&& c_flag(f) == (a + v + ci > 255)
                },
                AluOp::Sub => {
                    &&& res == (a - v) % 256
                    &&& z_flag(f) == (res == 0)
                    &&& n_flag(f)
                    &&& h_flag(f) == (a % 16 < v % 16)
                    &&& c_flag(f) == (a < v)
                },
                AluOp::Sbc => {
                    &&& res == (a - v - ci) % 256
                    &&& z_flag(f) == (res == 0)
                    &&& n_flag(f)
                    &&& h_flag(f) == (a % 16 < v % 16 + ci)
                    &&& c_flag(f) == (a < v + ci)
                },
                AluOp::And => {
                    &&& res == (a & v)
                    &&& z_flag(f) == (res == 0)
                    &&& !n_flag(f)
                    &&& h_flag(f)
                    &&& !c_flag(f)
                },
                AluOp::Xor => {
                    &&& res == (a ^ v)
                    &&& z_flag(f) == (res == 0)
                    &&& !n_flag(f)
                    &&& !h_flag(f)
                    &&& !c_flag(f)
                },
                AluOp::Or => {
                    &&& res == (a | v)
                    &&& z_flag(f) == (res == 0)
                    &&& !n_flag(f)
                    &&& !h_flag(f)
                    &&& !c_flag(f)
                },
                AluOp::Cp => {
                    &&& res == a
                    &&& z_flag(f) == ((a - v) % 256 == 0)
                    &&& n_flag(f)
                    &&& h_flag(f) == (a % 16 < v % 16)
                    &&& c_flag(f) == (a < v)
                },
            }
        }),
{
    let f = alu_vals(op, a, v, cin).1;
    match op {
        AluOp::Add => {
            lemma_flags_byte((a + v) % 256 == 0, false, a % 16 + v % 16 > 15, a + v > 255);
            assert((a + v) % 256 == (a + v) % 256);
        }
        AluOp::Adc => {
            let ci: int = if cin { 1int } else { 0int };
            lemma_flags_byte(
                (a + v + ci) % 256 == 0,
                false,
                a % 16 + v % 16 + ci > 15,
                a + v + ci > 255,
            );
        }
        AluOp::Sub => {
            lemma_flags_byte((a + 256 - v) % 256 == 0, true, a % 16 < v % 16, a < v);
            assert((a - v) % 256 == (a + 256 - v) % 256);
        }
        AluOp::Sbc => {
            let ci: int = if cin { 1int } else { 0int };
            lemma_flags_byte(
                (a + 512 - v - ci) % 256 == 0,
                true,
                a % 16 < v % 16 + ci,
                a < v + ci,
            );
            assert((a - v - ci) % 256 == (a + 512 - v - ci) % 256);
        }
        AluOp::And => {
            lemma_flags_byte((a & v) == 0, false, true, false);
        }
        AluOp::Xor => {
            lemma_flags_byte((a ^ v) == 0, false, false, false);
        }
        AluOp::Or => {
            lemma_flags_byte((a | v) == 0, false, false, false);
        }
        AluOp::Cp => {
            lemma_flags_byte((a + 256 - v) % 256 == 0, true, a % 16 < v % 16, a < v);
            assert((a - v) % 256 == (a + 256 - v) % 256);
        }
    }
}

/// Exactly eleven base opcodes have no handler; the other 245, and all
/// 256 0xCB-prefixed ones, decode to an instruction.
pub proof fn lemma_illegal_opcodes(op: u8)
    ensures
        spec_decode(op) is Illegal <==> (op == 0xD3 || op == 0xDB || op == 0xDD || op == 0xE3
            || op == 0xE4 || op == 0xEB || op == 0xEC || op == 0xED || op == 0xF4 || op == 0xFC
            || op == 0xFD),
{
}

/// The addresses at which a write stores the byte so that a read at the
/// same address returns it: VRAM, enabled in-range external RAM, WRAM and
/// its echo, OAM, the plain I/O bytes and the stored video registers
/// (not STAT with its read-only bits, not the read-only LY, not the
/// boot latch), HRAM and IE.
pub open spec fn writable(b: BusV, addr: u16) -> bool {
    ||| (0x8000 <= addr < 0xA000)
    ||| (0xA000 <= addr < 0xC000 && is_mbc1(b.cart.kind) && b.cart.ram_enable
        && active_ram_bank(b.cart) * 0x2000 + (addr - 0xA000) < b.cart.ram.len())
    ||| (0xC000 <= addr < 0xFEA0)
    ||| (0xFF00 <= addr < 0xFF80 && addr != 0xFF41 && addr != 0xFF44 && addr != 0xFF50)
    ||| (0xFF80 <= addr)
}

/// A bus write keeps the bus well-formed.
#[verifier::rlimit(100)]
pub proof fn lemma_bus_write_wf(b: BusV, addr: u16, v: u8)
    requires
        b.wf(),
    ensures
        bus_write_spec(b, addr, v).wf(),
{
}

/// Bus decoding: a write followed by a read of the same address returns
/// the written byte in every writable region; the unusable range reads
/// 0xFF regardless; and under a ROM-only cartridge a write into the ROM
/// range changes no read at all.
#[verifier::rlimit(100)]
pub proof fn lemma_bus_write_read(b: BusV, addr: u16, v: u8)
    requires
        b.wf(),
    ensures
        writable(b, addr) ==> bus_read_spec(bus_write_spec(b, addr, v), addr) == v,
        0xFEA0 <= addr < 0xFF00 ==> bus_read_spec(bus_write_spec(b, addr, v), addr) == 0xFF,
        addr < 0x8000 && b.cart.kind == 0 ==> bus_write_spec(b, addr, v) == b,
        0xA000 <= addr < 0xC000 && !b.cart.ram_enable ==> bus_read_spec(
            bus_write_spec(b, addr, v),
            addr,
        ) == 0xFF,
        addr == 0xFF44 ==> bus_read_spec(bus_write_spec(b, addr, v), addr) == b.ppu.ly,
        addr == 0xFF41 ==> bus_read_spec(bus_write_spec(b, addr, v), addr) == v / 8 * 8
            + b.ppu.stat % 8,
{
}

/// A write at one writable address leaves the cartridge's banking state,
/// the boot latch and every memory length alone, so writability of other
/// addresses is unaffected.
pub proof fn lemma_write_keeps_writable(b: BusV, a1: u16, v: u8, a2: u16)
    requires
        b.wf(),
        writable(b, a1),
        writable(b, a2),
    ensures
        writable(bus_write_spec(b, a1, v), a2),
{
}

/// Two writes at distinct adjacent writable addresses do not disturb each
/// other, even through the WRAM echo.
#[verifier::rlimit(100)]
pub proof fn lemma_adjacent_write_read(b: BusV, a1: u16, v1: u8, a2: u16, v2: u8)
    requires
        b.wf(),
        writable(b, a1),
        writable(b, a2),
        a1 == crate::cpu::wrap_add16(a2, 1),
    ensures
        bus_read_spec(bus_write_spec(bus_write_spec(b, a1, v1), a2, v2), a2) == v2,
        bus_read_spec(bus_write_spec(bus_write_spec(b, a1, v1), a2, v2), a1) == v1,
{
    lemma_bus_write_wf(b, a1, v1);
    lemma_write_keeps_writable(b, a1, v1, a2);
    lemma_bus_write_read(bus_write_spec(b, a1, v1), a2, v2);
}

/// The push/pop round trip: pushing any 16-bit value through a stack
/// pointer whose two stack cells are writable leaves the low byte at
/// sp-2 and the high byte at sp-1, and popping at the new stack pointer
/// returns the value (with SP restored by the pop's two increments).
#[verifier::rlimit(100)]
pub proof fn lemma_push_pop_roundtrip(r: Register, b: BusV, v: u16)
    requires
        b.wf(),
        writable(b, wrap_sub16(r.sp, 1)),
        writable(b, wrap_sub16(r.sp, 2)),
    ensures
        bus_read_spec(push_bus(b, r.sp, v), wrap_sub16(r.sp, 2)) == lo8(v),
        bus_read_spec(push_bus(b, r.sp, v), wrap_sub16(r.sp, 1)) == hi8(v),
        pop_val(push_bus(b, r.sp, v), wrap_sub16(r.sp, 2)) == v,
{
    let a1 = wrap_sub16(r.sp, 1);
    let a2 = wrap_sub16(r.sp, 2);
    assert(a1 == crate::cpu::wrap_add16(a2, 1));
    lemma_adjacent_write_read(b, a1, hi8(v), a2, lo8(v));
    assert(word16(hi8(v), lo8(v)) == v);
}

/// The boot overlay is one-shot: while the latch is clear, address 0 reads
/// the boot byte; once anything is written to 0xFF50 the latch is clear
/// for good, address 0 reads the cartridge, and no later write to 0xFF50
/// can re-enable the overlay.
pub proof fn lemma_boot_overlay_one_shot(b: BusV, d: u8, d2: u8)
    requires
        b.wf(),
    ensures
        b.boot_enabled ==> bus_read_spec(b, 0x0000) == b.boot[0],
        !b.boot_enabled ==> bus_read_spec(b, 0x0000) == cart_read_spec(b.cart, 0x0000),
        !bus_write_spec(b, 0xFF50, d).boot_enabled,
        !bus_write_spec(bus_write_spec(b, 0xFF50, d), 0xFF50, d2).boot_enabled,
{
}

/// The dot budget of each PPU mode.
pub open spec fn mode_budget(m: Mode) -> u32 {
    match m {
        Mode::AccessOAM => 80,
        Mode::AccessVRAM => 172,
        Mode::HBlank => 204,
        Mode::VBlank => 456,
    }
}

/// The dot position, within a scanline, at which each mode ends.
pub open spec fn mode_end(m: Mode) -> int {
    match m {
        Mode::AccessOAM => 80,
        Mode::AccessVRAM => 252,
        Mode::HBlank => 456,
        Mode::VBlank => 456,
    }
}

/// The countdown never exceeds the current mode's budget. `PPU::new` and
/// every transition establish this.
pub open spec fn phased(p: PpuV) -> bool {
    p.dots <= mode_budget(p.mode)
}

/// The position of the PPU within the 70224-dot frame.
pub open spec fn phase_of(p: PpuV) -> int {
    p.ly * 456 + mode_end(p.mode) - p.dots
}

/// A well-formed, phased PPU sits at a phase inside the frame, and is in
/// VBlank exactly during the last ten lines (phases 65664..70224).
pub proof fn lemma_phase_range(p: PpuV)
    requires
        p.wf(),
        phased(p),
    ensures
        0 <= phase_of(p) < 70224,
        p.mode is VBlank <==> 65664 <= phase_of(p) < 70224,
{
}

/// One dot advances the phase by exactly one, modulo the frame length,
/// and keeps the PPU well-formed and phased; LCDC is untouched.
#[verifier::rlimit(100)]
pub proof fn lemma_ppu_step_phase(p: PpuV)
    requires
        p.wf(),
        phased(p),
        lcd_on(p.lcdc),
    ensures
        ppu_step_spec(p).wf(),
        phased(ppu_step_spec(p)),
        ppu_step_spec(p).lcdc == p.lcdc,
        phase_of(ppu_step_spec(p)) == (phase_of(p) + 1) % 70224,
{
    lemma_phase_range(p);
    let q = ppu_step_spec(p);
    if p.dots > 1 {
    } else {
        match p.mode {
            Mode::AccessOAM => {}
            Mode::AccessVRAM => {
                crate::ppu::lemma_draw_line_wf(p);
            }
            Mode::HBlank => {}
            Mode::VBlank => {
                if p.ly == 153 {
                    assert(phase_of(p) == 70223);
                }
            }
        }
    }
    lemma_phase_range(q);
}

/// The phase pins the mode, the line and the countdown: two well-formed,
/// phased PPUs at the same phase agree on all three.
pub proof fn lemma_phase_determines(p: PpuV, q: PpuV)
    requires
        p.wf(),
        phased(p),
        q.wf(),
        phased(q),
        phase_of(p) == phase_of(q),
    ensures
        p.mode == q.mode,
        p.ly == q.ly,
        p.dots == q.dots,
{
    lemma_phase_range(p);
    lemma_phase_range(q);
    assert(p.ly == phase_of(p) / 456 && q.ly == phase_of(q) / 456) by {
        assert(0 <= mode_end(p.mode) - p.dots < 456);
        assert(0 <= mode_end(q.mode) - q.dots < 456);
    }
}

/// `n` dots advance the phase by `n`, modulo the frame length.
pub proof fn lemma_ppu_step_n_phase(p: PpuV, n: nat)
    requires
        p.wf(),
        phased(p),
        lcd_on(p.lcdc),
    ensures
        ppu_step_n_spec(p, n).wf(),
        phased(ppu_step_n_spec(p, n)),
        ppu_step_n_spec(p, n).lcdc == p.lcdc,
        phase_of(ppu_step_n_spec(p, n)) == (phase_of(p) + n) % 70224,
    decreases n,
{
    lemma_phase_range(p);
    if n == 0 {
        assert((phase_of(p) + 0) % 70224 == phase_of(p));
    } else {
        lemma_ppu_step_phase(p);
        let q = ppu_step_spec(p);
        lemma_ppu_step_n_phase(q, (n - 1) as nat);
        assert((((phase_of(p) + 1) % 70224) + (n - 1)) % 70224 == (phase_of(p) + n) % 70224)
            by {
            vstd::arithmetic::div_mod::lemma_add_mod_noop(
                phase_of(p) + 1,
                (n - 1) as int,
                70224,
            );
            vstd::arithmetic::div_mod::lemma_mod_twice((n - 1) as int, 70224);
            vstd::arithmetic::div_mod::lemma_add_mod_noop(phase_of(p) + 1, (n - 1) as int, 70224);
        }
    }
}

/// Frame periodicity of the mode machine: with the LCD on, 70224 dots
/// bring the PPU back to the same mode, line and countdown, having
/// visited VBlank exactly during the frame's last ten lines
/// (`lemma_phase_range`); the visible mode cycle is
/// (AccessOAM, AccessVRAM, HBlank) for each of 144 lines, then one
/// VBlank stretch.
pub proof fn lemma_ppu_frame_cycle(p: PpuV)
    requires
        p.wf(),
        phased(p),
        lcd_on(p.lcdc),
    ensures
        ppu_step_n_spec(p, 70224).mode == p.mode,
        ppu_step_n_spec(p, 70224).ly == p.ly,
        ppu_step_n_spec(p, 70224).dots == p.dots,
{
    lemma_phase_range(p);
    lemma_ppu_step_n_phase(p, 70224);
    let q = ppu_step_n_spec(p, 70224);
    assert((phase_of(p) + 70224) % 70224 == phase_of(p)) by {
        vstd::arithmetic::div_mod::lemma_mod_add_multiples_vanish(phase_of(p), 70224);
        vstd::arithmetic::div_mod::lemma_small_mod(phase_of(p) as nat, 70224);
    }
    lemma_phase_determines(p, q);
}

} // verus!
