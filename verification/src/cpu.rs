//! The SM83 CPU: the register file, the memory micro-operations it issues
//! to the bus (fetch, push, pop), and the arithmetic helpers whose
//! contracts carry the flag table: Z when the 8-bit result is zero, N on
//! subtractions, H on a carry or borrow between bits 3 and 4, C on
//! full-width overflow.

use vstd::prelude::*;

use crate::bus::BUS;
use crate::bus::BusV;
use crate::bus::bus_read_spec;
use crate::bus::bus_write_spec;
use crate::opcodes::AluOp;
use crate::opcodes::CbKind;
use crate::opcodes::Condition;
use crate::opcodes::Instr;
use crate::opcodes::Opcode;
use crate::opcodes::Operand8;
use crate::opcodes::spec_decode;
use crate::register::Flags;
use crate::register::Register;
use crate::register::c_flag;
use crate::register::compose_flags;
use crate::register::flags_byte;
use crate::register::hi8;
use crate::register::lo8;
use crate::register::spec_get_flag;
use crate::register::spec_get_r8;
use crate::register::spec_set_flag;
use crate::register::spec_set_r8;
use crate::register::word16;
use crate::register::z_flag;

verus! {

/// The diagnostic surfaced when the decoder meets a byte with no handler:
/// the program counter of the offending byte and the byte itself.
#[derive(Debug, Clone, Copy, PartialEq, Eq, Structural)]
pub struct CpuError {
    pub pc: u16,
    pub opcode: u8,
}

pub struct CPU {
    pub reg: Register,
    pub cycles: u32,
}

/// 16-bit addition with wraparound.
pub open spec fn wrap_add16(a: u16, k: u16) -> u16 {
    ((a + k) % 0x10000) as u16
}

/// 16-bit subtraction with wraparound.
pub open spec fn wrap_sub16(a: u16, k: u16) -> u16 {
    ((a + 0x10000 - k) % 0x10000) as u16
}

/// The register file with the program counter advanced by `k`.
pub open spec fn pc_plus(r: Register, k: u16) -> Register {
    Register { pc: wrap_add16(r.pc, k), ..r }
}

/// The little-endian 16-bit immediate at `pc`.
pub open spec fn imm16_at(b: BusV, pc: u16) -> u16 {
    word16(bus_read_spec(b, wrap_add16(pc, 1)), bus_read_spec(b, pc))
}

/// The bus after pushing `v`: high byte at sp-1, low byte at sp-2.
pub open spec fn push_bus(b: BusV, sp: u16, v: u16) -> BusV {
    bus_write_spec(bus_write_spec(b, wrap_sub16(sp, 1), hi8(v)), wrap_sub16(sp, 2), lo8(v))
}

/// The 16-bit value popped at `sp`: low byte first.
pub open spec fn pop_val(b: BusV, sp: u16) -> u16 {
    word16(bus_read_spec(b, wrap_add16(sp, 1)), bus_read_spec(b, sp))
}

/// The jump target of a relative branch: `pc` plus the sign-extended
/// offset byte.
pub open spec fn rel_target(pc: u16, off: u8) -> u16 {
    if off < 128 {
        wrap_add16(pc, off as u16)
    } else {
        wrap_add16(pc, (off + 0xFF00) as u16)
    }
}

/// Whether a branch condition holds under a flag byte.
pub open spec fn cond_met(c: Condition, f: u8) -> bool {
    match c {
        Condition::NZ => !z_flag(f),
        Condition::Z => z_flag(f),
        Condition::NC => !c_flag(f),
        Condition::C => c_flag(f),
    }
}

/// Result and flag byte of one accumulator operation.
///
/// This is the flag table: Z when the 8-bit result is zero, N on
/// subtractions and compares, H on a nibble carry or borrow, C on 8-bit
/// overflow or borrow; AND sets H; the bitwise operations clear C.
/// CP leaves the accumulator untouched and only reports the flags of the
/// subtraction.
pub open spec fn alu_vals(op: AluOp, a: u8, v: u8, cin: bool) -> (u8, u8) {
    let ci: int = if cin { 1int } else { 0int };
    match op {
        AluOp::Add => {
            let res = ((a + v) % 256) as u8;
            (res, flags_byte(res == 0, false, a % 16 + v % 16 > 15, a + v > 255))
        },
        AluOp::Adc => {
            let res = ((a + v + ci) % 256) as u8;
            (res, flags_byte(res == 0, false, a % 16 + v % 16 + ci > 15, a + v + ci > 255))
        },
        AluOp::Sub => {
            let res = ((a + 256 - v) % 256) as u8;
            (res, flags_byte(res == 0, true, a % 16 < v % 16, a < v))
        },
        AluOp::Sbc => {
            let res = ((a + 512 - v - ci) % 256) as u8;
            (res, flags_byte(res == 0, true, a % 16 < v % 16 + ci, a < v + ci))
        },
        AluOp::And => {
            let res = a & v;
            (res, flags_byte(res == 0, false, true, false))
        },
        AluOp::Xor => {
            let res = a ^ v;
            (res, flags_byte(res == 0, false, false, false))
        },
        AluOp::Or => {
            let res = a | v;
            (res, flags_byte(res == 0, false, false, false))
        },
        AluOp::Cp => {
            let res = ((a + 256 - v) % 256) as u8;
            (a, flags_byte(res == 0, true, a % 16 < v % 16, a < v))
        },
    }
}

/// The register file after an accumulator operation against `v`.
pub open spec fn alu_apply(op: AluOp, r: Register, v: u8) -> Register {
    let rv = alu_vals(op, r.a, v, c_flag(r.f));
    Register { a: rv.0, f: rv.1, ..r }
}

/// Result and carry-out of one rotate, shift or swap.
pub open spec fn rot_vals(kind: CbKind, v: u8, cin: bool) -> (u8, bool) {
    let ci: int = if cin { 1int } else { 0int };
    match kind {
        CbKind::Rlc => (((v % 128) * 2 + v / 128) as u8, v / 128 == 1),
        CbKind::Rrc => ((v / 2 + (v % 2) * 128) as u8, v % 2 == 1),
        CbKind::Rl => (((v % 128) * 2 + ci) as u8, v / 128 == 1),
        CbKind::Rr => ((v / 2 + ci * 128) as u8, v % 2 == 1),
        CbKind::Sla => (((v % 128) * 2) as u8, v / 128 == 1),
        CbKind::Sra => ((v / 2 + (v / 128) * 128) as u8, v % 2 == 1),
        CbKind::Swap => (((v % 16) * 16 + v / 16) as u8, false),
        CbKind::Srl => ((v / 2) as u8, v % 2 == 1),
        _ => (v, false),
    }
}

/// Result and flag byte of the decimal adjust of the accumulator after an
/// addition (N clear) or subtraction (N set).
pub open spec fn daa_vals(a: u8, n: bool, h: bool, c: bool) -> (u8, u8) {
    if !n {
        let adj: int = (if h || a % 16 > 9 { 6int } else { 0int })
            + (if c || a > 0x99 { 0x60int } else { 0int });
        let res = ((a + adj) % 256) as u8;
        (res, flags_byte(res == 0, false, false, c || a > 0x99))
    } else {
        let adj: int = (if h { 6int } else { 0int }) + (if c { 0x60int } else { 0int });
        let res = ((a + 256 - adj) % 256) as u8;
        (res, flags_byte(res == 0, true, false, c))
    }
}

/// Result and flag byte of adding the sign-extended offset byte to SP;
/// H and C come from the low nibble and low byte as in an 8-bit addition.
pub open spec fn sp_rel_vals(sp: u16, off: u8) -> (u16, u8) {
    (rel_target(sp, off), flags_byte(false, false, sp % 16 + off % 16 > 15, sp % 256 + off > 255))
}

/// The byte an 8-bit operand denotes: a register, or memory at HL.
pub open spec fn read_op8_spec(t: Operand8, r: Register, b: BusV) -> u8 {
    match t {
        Operand8::Reg(r8) => spec_get_r8(r, r8),
        Operand8::HlInd => bus_read_spec(b, word16(r.h, r.l)),
    }
}

/// The register file after writing an 8-bit operand (unchanged for the
/// memory operand).
pub open spec fn write_op8_regs(t: Operand8, r: Register, v: u8) -> Register {
    match t {
        Operand8::Reg(r8) => spec_set_r8(r, r8, v),
        Operand8::HlInd => r,
    }
}

/// The bus after writing an 8-bit operand (unchanged for a register).
pub open spec fn write_op8_bus(t: Operand8, r: Register, b: BusV, v: u8) -> BusV {
    match t {
        Operand8::Reg(r8) => b,
        Operand8::HlInd => bus_write_spec(b, word16(r.h, r.l), v),
    }
}

/// Whether the operand is the byte addressed by HL.
pub open spec fn op8_hl(t: Operand8) -> bool {
    t is HlInd
}

/// 16-bit addition with wraparound.
pub fn wrap16_add(a: u16, k: u16) -> (r: u16)
    ensures
        r == wrap_add16(a, k),
{
    ((a as u32 + k as u32) % 0x10000) as u16
}

/// 16-bit subtraction with wraparound.
pub fn wrap16_sub(a: u16, k: u16) -> (r: u16)
    ensures
        r == wrap_sub16(a, k),
{
    ((a as u32 + 0x10000 - k as u32) % 0x10000) as u16
}

/// The jump target of a relative branch.
pub fn rel_target_of(pc: u16, off: u8) -> (r: u16)
    ensures
        r == rel_target(pc, off),
{
    if off < 128 {
        wrap16_add(pc, off as u16)
    } else {
        wrap16_add(pc, off as u16 + 0xFF00)
    }
}

/// `v` with bit `n` cleared: the bit's contribution is subtracted.
pub open spec fn clear_bit_spec(v: u8, n: u8) -> u8 {
    if n == 0 {
        (v - v % 2) as u8
    } else if n == 1 {
        (v - v / 2 % 2 * 2) as u8
    } else if n == 2 {
        (v - v / 4 % 2 * 4) as u8
    } else if n == 3 {
        (v - v / 8 % 2 * 8) as u8
    } else if n == 4 {
        (v - v / 16 % 2 * 16) as u8
    } else if n == 5 {
        (v - v / 32 % 2 * 32) as u8
    } else if n == 6 {
        (v - v / 64 % 2 * 64) as u8
    } else {
        (v - v / 128 % 2 * 128) as u8
    }
}

/// `v` with bit `n` set: the bit's missing contribution is added.
pub open spec fn set_bit_spec(v: u8, n: u8) -> u8 {
    if n == 0 {
        (v + (1 - v % 2)) as u8
    } else if n == 1 {
        (v + (1 - v / 2 % 2) * 2) as u8
    } else if n == 2 {
        (v + (1 - v / 4 % 2) * 4) as u8
    } else if n == 3 {
        (v + (1 - v / 8 % 2) * 8) as u8
    } else if n == 4 {
        (v + (1 - v / 16 % 2) * 16) as u8
    } else if n == 5 {
        (v + (1 - v / 32 % 2) * 32) as u8
    } else if n == 6 {
        (v + (1 - v / 64 % 2) * 64) as u8
    } else {
        (v + (1 - v / 128 % 2) * 128) as u8
    }
}

/// `v` with bit `n` cleared.
pub fn clear_bit(v: u8, n: u8) -> (r: u8)
    requires
        n < 8,
    ensures
        r == clear_bit_spec(v, n),
{
    if n == 0 {
        v - v % 2
    } else if n == 1 {
        v - v / 2 % 2 * 2
    } else if n == 2 {
        v - v / 4 % 2 * 4
    } else if n == 3 {
        v - v / 8 % 2 * 8
    } else if n == 4 {
        v - v / 16 % 2 * 16
    } else if n == 5 {
        v - v / 32 % 2 * 32
    } else if n == 6 {
        v - v / 64 % 2 * 64
    } else {
        v - v / 128 % 2 * 128
    }
}

/// `v` with bit `n` set.
pub fn set_bit(v: u8, n: u8) -> (r: u8)
    requires
        n < 8,
    ensures
        r == set_bit_spec(v, n),
{
    if n == 0 {
        v + (1 - v % 2)
    } else if n == 1 {
        v + (1 - v / 2 % 2) * 2
    } else if n == 2 {
        v + (1 - v / 4 % 2) * 4
    } else if n == 3 {
        v + (1 - v / 8 % 2) * 8
    } else if n == 4 {
        v + (1 - v / 16 % 2) * 16
    } else if n == 5 {
        v + (1 - v / 32 % 2) * 32
    } else if n == 6 {
        v + (1 - v / 64 % 2) * 64
    } else {
        v + (1 - v / 128 % 2) * 128
    }
}

/// Result and carry-out of one rotate, shift or swap.
pub fn rot_calc(kind: CbKind, v: u8, cin: bool) -> (rc: (u8, bool))
    ensures
        rc == rot_vals(kind, v, cin),
{
    let ci: u8 = if cin { 1 } else { 0 };
    match kind {
        CbKind::Rlc => ((v % 128) * 2 + v / 128, v / 128 == 1),
        CbKind::Rrc => (v / 2 + (v % 2) * 128, v % 2 == 1),
        CbKind::Rl => ((v % 128) * 2 + ci, v / 128 == 1),
        CbKind::Rr => (v / 2 + ci * 128, v % 2 == 1),
        CbKind::Sla => ((v % 128) * 2, v / 128 == 1),
        CbKind::Sra => (v / 2 + (v / 128) * 128, v % 2 == 1),
        CbKind::Swap => ((v % 16) * 16 + v / 16, false),
        CbKind::Srl => (v / 2, v % 2 == 1),
        _ => (v, false),
    }
}

/// Result and flag byte of adding the sign-extended offset byte to SP.
pub fn sp_rel_calc(sp: u16, off: u8) -> (rv: (u16, u8))
    ensures
        rv == sp_rel_vals(sp, off),
{
    let res = rel_target_of(sp, off);
    let f = compose_flags(false, false, sp % 16 + (off % 16) as u16 > 15, sp % 256 + off as u16 > 255);
    (res, f)
}

impl CPU {
    /// A CPU with cleared registers and no cycles on the clock.
    pub fn new() -> (c: CPU)
        ensures
            c.reg == (Register {
                a: 0u8, b: 0u8, c: 0u8, d: 0u8, e: 0u8, f: 0u8, h: 0u8, l: 0u8,
                pc: 0u16, sp: 0u16, ime: 0u8, ie: 0u8,
            }),
            c.cycles == 0,
    {
        CPU { reg: Register::new(), cycles: 0 }
    }

    /// Read one byte from the bus.
    pub fn read(&self, bus: &BUS, addr: u16) -> (data: u8)
        requires
            bus@.wf(),
        ensures
            data == bus_read_spec(bus@, addr),
    {
        bus.read(addr)
    }

    /// Write one byte to the bus.
    pub fn write(&self, bus: &mut BUS, addr: u16, data: u8)
        requires
            old(bus)@.wf(),
        ensures
            final(bus)@ == bus_write_spec(old(bus)@, addr, data),
            final(bus)@.wf(),
    {
        bus.write(addr, data);
    }

    /// Record the dot count of the instruction just executed.
    pub fn set_cycles(&mut self, dots: u32)
        ensures
            *final(self) == (CPU { cycles: dots, ..*old(self) }),
    {
        self.cycles = dots;
    }

    /// Read one condition flag as 0 or 1.
    pub fn get_flag(&self, flag: Flags) -> (v: u8)
        ensures
            v == spec_get_flag(self.reg.f, flag),
    {
        self.reg.get_flag(flag)
    }

    /// Set or clear one condition flag.
    pub fn set_flag(&mut self, flag: Flags, on: bool)
        ensures
            final(self).reg == (Register {
                f: spec_set_flag(old(self).reg.f, flag, on),
                ..old(self).reg
            }),
            final(self).cycles == old(self).cycles,
    {
        self.reg.set_flag(flag, on);
    }

    /// Whether a branch condition holds under the current flags.
    pub fn check_condition(&self, cond: Condition) -> (m: bool)
        ensures
            m == cond_met(cond, self.reg.f),
    {
        match cond {
            Condition::NZ => self.reg.f / 128 % 2 == 0,
            Condition::Z => self.reg.f / 128 % 2 == 1,
            Condition::NC => self.reg.f / 16 % 2 == 0,
            Condition::C => self.reg.f / 16 % 2 == 1,
        }
    }

    /// Fetch the byte at PC and advance PC.
    pub fn fetch(&mut self, bus: &BUS) -> (data: u8)
        requires
            bus@.wf(),
        ensures
            data == bus_read_spec(bus@, old(self).reg.pc),
            final(self).reg == pc_plus(old(self).reg, 1),
            final(self).cycles == old(self).cycles,
    {
        let data = bus.read(self.reg.pc);
        self.reg.pc = wrap16_add(self.reg.pc, 1);
        data
    }

    /// Fetch the little-endian 16-bit immediate at PC and advance PC by 2.
    pub fn fetch16(&mut self, bus: &BUS) -> (data: u16)
        requires
            bus@.wf(),
        ensures
            data == imm16_at(bus@, old(self).reg.pc),
            final(self).reg == pc_plus(old(self).reg, 2),
            final(self).cycles == old(self).cycles,
    {
        let lo = bus.read(self.reg.pc);
        let hi = bus.read(wrap16_add(self.reg.pc, 1));
        self.reg.pc = wrap16_add(self.reg.pc, 2);
        (hi as u16) * 256 + (lo as u16)
    }

    /// Push a 16-bit value: SP drops by two; high byte first, so the low
    /// byte ends up at the lower address.
    pub fn push(&mut self, bus: &mut BUS, data: u16)
        requires
            old(bus)@.wf(),
        ensures
            final(self).reg == (Register { sp: wrap_sub16(old(self).reg.sp, 2), ..old(self).reg }),
            final(self).cycles == old(self).cycles,
            final(bus)@ == push_bus(old(bus)@, old(self).reg.sp, data),
            final(bus)@.wf(),
    {
        let hi = (data / 256) as u8;
        let lo = (data % 256) as u8;
        self.reg.sp = wrap16_sub(self.reg.sp, 1);
        bus.write(self.reg.sp, hi);
        self.reg.sp = wrap16_sub(self.reg.sp, 1);
        bus.write(self.reg.sp, lo);
        proof {
            assert(wrap_sub16(wrap_sub16(old(self).reg.sp, 1), 1) == wrap_sub16(
                old(self).reg.sp,
                2,
            ));
        }
    }

    /// Pop a 16-bit value: low byte at SP, high byte above it; SP rises by
    /// two.
    pub fn pop(&mut self, bus: &BUS) -> (data: u16)
        requires
            bus@.wf(),
        ensures
            data == pop_val(bus@, old(self).reg.sp),
            final(self).reg == (Register { sp: wrap_add16(old(self).reg.sp, 2), ..old(self).reg }),
            final(self).cycles == old(self).cycles,
    {
        let lo = bus.read(self.reg.sp);
        self.reg.sp = wrap16_add(self.reg.sp, 1);
        let hi = bus.read(self.reg.sp);
        self.reg.sp = wrap16_add(self.reg.sp, 1);
        proof {
            assert(wrap_add16(wrap_add16(old(self).reg.sp, 1), 1) == wrap_add16(
                old(self).reg.sp,
                2,
            ));
        }
        (hi as u16) * 256 + (lo as u16)
    }

    /// Read one 8-bit operand: a register, or memory at HL.
    pub fn get_op8(&self, bus: &BUS, t: Operand8) -> (v: u8)
        requires
            bus@.wf(),
        ensures
            v == read_op8_spec(t, self.reg, bus@),
    {
        match t {
            Operand8::Reg(r8) => self.reg.get_r8(r8),
            Operand8::HlInd => bus.read(self.reg.get_hl()),
        }
    }

    /// Write one 8-bit operand: a register, or memory at HL.
    pub fn set_op8(&mut self, bus: &mut BUS, t: Operand8, v: u8)
        requires
            old(bus)@.wf(),
        ensures
            final(self).reg == write_op8_regs(t, old(self).reg, v),
            final(self).cycles == old(self).cycles,
            final(bus)@ == write_op8_bus(t, old(self).reg, old(bus)@, v),
            final(bus)@.wf(),
    {
        match t {
            Operand8::Reg(r8) => self.reg.set_r8(r8, v),
            Operand8::HlInd => bus.write(self.reg.get_hl(), v),
        }
    }

    /// Run one accumulator operation against `v`, updating A (except for
    /// CP) and all four flags.
    pub fn op_alu(&mut self, op: AluOp, v: u8)
        ensures
            final(self).reg == alu_apply(op, old(self).reg, v),
            final(self).cycles == old(self).cycles,
    {
        let a = self.reg.a;
        let cin: u8 = self.reg.f / 16 % 2;
        match op {
            AluOp::Add => {
                let s: u16 = a as u16 + v as u16;
                let res = (s % 256) as u8;
                self.reg.a = res;
                self.reg.f = compose_flags(res == 0, false, a % 16 + v % 16 > 15, s > 255);
            }
            AluOp::Adc => {
                let s: u16 = a as u16 + v as u16 + cin as u16;
                let res = (s % 256) as u8;
                self.reg.a = res;
                self.reg.f = compose_flags(res == 0, false, a % 16 + v % 16 + cin > 15, s > 255);
            }
            AluOp::Sub => {
                let res = ((a as u16 + 256 - v as u16) % 256) as u8;
                self.reg.a = res;
                self.reg.f = compose_flags(res == 0, true, a % 16 < v % 16, a < v);
            }
            AluOp::Sbc => {
                let res = ((a as u16 + 512 - v as u16 - cin as u16) % 256) as u8;
                self.reg.a = res;
                self.reg.f = compose_flags(
                    res == 0,
                    true,
                    ((a % 16) as u16) < v as u16 % 16 + cin as u16,
                    (a as u16) < v as u16 + cin as u16,
                );
            }
            AluOp::And => {
                let res = a & v;
                self.reg.a = res;
                self.reg.f = compose_flags(res == 0, false, true, false);
            }
            AluOp::Xor => {
                let res = a ^ v;
                self.reg.a = res;
                self.reg.f = compose_flags(res == 0, false, false, false);
            }
            AluOp::Or => {
                let res = a | v;
                self.reg.a = res;
                self.reg.f = compose_flags(res == 0, false, false, false);
            }
            AluOp::Cp => {
                let res = ((a as u16 + 256 - v as u16) % 256) as u8;
                self.reg.f = compose_flags(res == 0, true, a % 16 < v % 16, a < v);
            }
        }
    }

    /// Decimal-adjust the accumulator.
    pub fn op_daa(&mut self)
        ensures
            final(self).reg == ({
                let dv = daa_vals(
                    old(self).reg.a,
                    crate::register::n_flag(old(self).reg.f),
                    crate::register::h_flag(old(self).reg.f),
                    c_flag(old(self).reg.f),
                );
                Register { a: dv.0, f: dv.1, ..old(self).reg }
            }),
            final(self).cycles == old(self).cycles,
    {
        let a = self.reg.a;
        let n = self.reg.f / 64 % 2 == 1;
        let h = self.reg.f / 32 % 2 == 1;
        let c = self.reg.f / 16 % 2 == 1;
        if !n {
            let adj: u16 = (if h || a % 16 > 9 { 6u16 } else { 0u16 })
                + (if c || a > 0x99 { 0x60u16 } else { 0u16 });
            let res = ((a as u16 + adj) % 256) as u8;
            self.reg.a = res;
            self.reg.f = compose_flags(res == 0, false, false, c || a > 0x99);
        } else {
            let adj: u16 = (if h { 6u16 } else { 0u16 }) + (if c { 0x60u16 } else { 0u16 });
            let res = ((a as u16 + 256 - adj) % 256) as u8;
            self.reg.a = res;
            self.reg.f = compose_flags(res == 0, true, false, c);
        }
    }

    /// Decode a base-space opcode byte.
    pub fn decode(&self, instruction: u8) -> (i: Instr)
        ensures
            i == spec_decode(instruction),
    {
        Opcode::new(instruction).decode()
    }
}

} // verus!
