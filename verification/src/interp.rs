//! Execution of decoded instructions.
//!
//! `exec_instr_spec` is the mathematical meaning of every instruction: the
//! register file and bus after it, and its cost in dots (1 M-cycle = 4
//! dots). `CPU::step` fetches, decodes and executes one instruction and is
//! proved to realise exactly that meaning; an opcode with no handler is
//! reported with its address and leaves the machine untouched apart from
//! the fetch.

use vstd::prelude::*;

use crate::bus::BUS;
use crate::bus::BusV;
use crate::bus::bus_read_spec;
use crate::bus::bus_write_spec;
use crate::cpu::CPU;
use crate::cpu::CpuError;
use crate::cpu::alu_apply;
use crate::cpu::clear_bit;
use crate::cpu::clear_bit_spec;
use crate::cpu::cond_met;
use crate::cpu::daa_vals;
use crate::cpu::imm16_at;
use crate::cpu::op8_hl;
use crate::cpu::pc_plus;
use crate::cpu::pop_val;
use crate::cpu::push_bus;
use crate::cpu::read_op8_spec;
use crate::cpu::rel_target;
use crate::cpu::rel_target_of;
use crate::cpu::rot_calc;
use crate::cpu::rot_vals;
use crate::cpu::set_bit;
use crate::cpu::set_bit_spec;
use crate::cpu::sp_rel_calc;
use crate::cpu::sp_rel_vals;
use crate::cpu::wrap16_add;
use crate::cpu::wrap16_sub;
use crate::cpu::wrap_add16;
use crate::cpu::wrap_sub16;
use crate::cpu::write_op8_bus;
use crate::cpu::write_op8_regs;
use crate::opcodes::CbInstr;
use crate::opcodes::CbKind;
use crate::opcodes::Instr;
use crate::opcodes::Opcode;
use crate::opcodes::cb_wf;
use crate::opcodes::spec_decode;
use crate::opcodes::spec_decode_cb;
use crate::ppu::bit_at;
use crate::register::Register;
use crate::register::Register16;
use crate::register::c_flag;
use crate::register::compose_flags;
use crate::register::flags_byte;
use crate::register::h_flag;
use crate::register::hi8;
use crate::register::lo8;
use crate::register::n_flag;
use crate::register::spec_get_r16;
use crate::register::spec_set_r16;
use crate::register::word16;
use crate::register::z_flag;
use crate::ppu::bit_of;

verus! {

/// The outcome of one instruction: registers, bus, and its cost in dots.
pub struct SOut {
    pub r: Register,
    pub b: BusV,
    pub dots: u32,
}

/// The meaning of one 0xCB-prefixed instruction, with the program counter
/// already past both opcode bytes.
pub open spec fn exec_cb_spec(ci: CbInstr, r: Register, b: BusV) -> SOut {
    let v = read_op8_spec(ci.tgt, r, b);
    let hl = op8_hl(ci.tgt);
    match ci.kind {
        CbKind::Bit(n) => SOut {
            r: Register { f: flags_byte(bit_at(v, n) == 0, false, true, c_flag(r.f)), ..r },
            b,
            dots: if hl { 12 } else { 8 },
        },
        CbKind::Res(n) => {
            let res = clear_bit_spec(v, n);
            SOut {
                r: write_op8_regs(ci.tgt, r, res),
                b: write_op8_bus(ci.tgt, r, b, res),
                dots: if hl { 16 } else { 8 },
            }
        },
        CbKind::SetBit(n) => {
            let res = set_bit_spec(v, n);
            SOut {
                r: write_op8_regs(ci.tgt, r, res),
                b: write_op8_bus(ci.tgt, r, b, res),
                dots: if hl { 16 } else { 8 },
            }
        },
        _ => {
            let rv = rot_vals(ci.kind, v, c_flag(r.f));
            SOut {
                r: Register {
                    f: flags_byte(rv.0 == 0, false, false, rv.1),
                    ..write_op8_regs(ci.tgt, r, rv.0)
                },
                b: write_op8_bus(ci.tgt, r, b, rv.0),
                dots: if hl { 16 } else { 8 },
            }
        },
    }
}

/// The meaning of one base-space instruction, with the program counter
/// already past the opcode byte: the new register file and bus, and the
/// instruction's cost in dots.
#[verifier::opaque]
pub open spec fn exec_instr_spec(i: Instr, r: Register, b: BusV) -> SOut {
    match i {
        Instr::Nop => SOut { r, b, dots: 4 },
        Instr::Stop => SOut { r: pc_plus(r, 1), b, dots: 4 },
        Instr::Halt => SOut { r: Register { pc: wrap_sub16(r.pc, 1), ..r }, b, dots: 4 },
        Instr::LdMove(dst, src) => {
            let v = read_op8_spec(src, r, b);
            SOut {
                r: write_op8_regs(dst, r, v),
                b: write_op8_bus(dst, r, b, v),
                dots: if op8_hl(dst) || op8_hl(src) { 8 } else { 4 },
            }
        },
        Instr::LdRImm(t) => {
            let v = bus_read_spec(b, r.pc);
            let r1 = pc_plus(r, 1);
            SOut {
                r: write_op8_regs(t, r1, v),
                b: write_op8_bus(t, r1, b, v),
                dots: if op8_hl(t) { 12 } else { 8 },
            }
        },
        Instr::LdRrImm(rr) => SOut {
            r: spec_set_r16(pc_plus(r, 2), rr, imm16_at(b, r.pc)),
            b,
            dots: 12,
        },
        Instr::LdBcA => SOut { r, b: bus_write_spec(b, word16(r.b, r.c), r.a), dots: 8 },
        Instr::LdDeA => SOut { r, b: bus_write_spec(b, word16(r.d, r.e), r.a), dots: 8 },
        Instr::LdABc => SOut {
            r: Register { a: bus_read_spec(b, word16(r.b, r.c)), ..r },
            b,
            dots: 8,
        },
        Instr::LdADe => SOut {
            r: Register { a: bus_read_spec(b, word16(r.d, r.e)), ..r },
            b,
            dots: 8,
        },
        Instr::LdHliA => {
            let hl = word16(r.h, r.l);
            SOut {
                r: spec_set_r16(r, Register16::HL, wrap_add16(hl, 1)),
                b: bus_write_spec(b, hl, r.a),
                dots: 8,
            }
        },
        Instr::LdAHli => {
            let hl = word16(r.h, r.l);
            SOut {
                r: spec_set_r16(
                    Register { a: bus_read_spec(b, hl), ..r },
                    Register16::HL,
                    wrap_add16(hl, 1),
                ),
                b,
                dots: 8,
            }
        },
        Instr::LdHldA => {
            let hl = word16(r.h, r.l);
            SOut {
                r: spec_set_r16(r, Register16::HL, wrap_sub16(hl, 1)),
                b: bus_write_spec(b, hl, r.a),
                dots: 8,
            }
        },
        Instr::LdAHld => {
            let hl = word16(r.h, r.l);
            SOut {
                r: spec_set_r16(
                    Register { a: bus_read_spec(b, hl), ..r },
                    Register16::HL,
                    wrap_sub16(hl, 1),
                ),
                b,
                dots: 8,
            }
        },
        Instr::LdhImmA => {
            let off = bus_read_spec(b, r.pc);
            SOut { r: pc_plus(r, 1), b: bus_write_spec(b, (0xFF00 + off) as u16, r.a), dots: 12 }
        },
        Instr::LdhAImm => {
            let off = bus_read_spec(b, r.pc);
            SOut {
                r: Register { a: bus_read_spec(b, (0xFF00 + off) as u16), ..pc_plus(r, 1) },
                b,
                dots: 12,
            }
        },
        Instr::LdhCA => SOut { r, b: bus_write_spec(b, (0xFF00 + r.c) as u16, r.a), dots: 8 },
        Instr::LdhAC => SOut {
            r: Register { a: bus_read_spec(b, (0xFF00 + r.c) as u16), ..r },
            b,
            dots: 8,
        },
        Instr::LdAbsA => SOut {
            r: pc_plus(r, 2),
            b: bus_write_spec(b, imm16_at(b, r.pc), r.a),
            dots: 16,
        },
        Instr::LdAAbs => SOut {
            r: Register { a: bus_read_spec(b, imm16_at(b, r.pc)), ..pc_plus(r, 2) },
            b,
            dots: 16,
        },
        Instr::LdAbsSp => {
            let addr = imm16_at(b, r.pc);
            SOut {
                r: pc_plus(r, 2),
                b: bus_write_spec(
                    bus_write_spec(b, addr, lo8(r.sp)),
                    wrap_add16(addr, 1),
                    hi8(r.sp),
                ),
                dots: 20,
            }
        },
        Instr::LdSpHl => SOut { r: Register { sp: word16(r.h, r.l), ..r }, b, dots: 8 },
        Instr::LdHlSpImm => {
            let rv = sp_rel_vals(r.sp, bus_read_spec(b, r.pc));
            SOut {
                r: spec_set_r16(Register { f: rv.1, ..pc_plus(r, 1) }, Register16::HL, rv.0),
                b,
                dots: 12,
            }
        },
        Instr::AddSpImm => {
            let rv = sp_rel_vals(r.sp, bus_read_spec(b, r.pc));
            SOut { r: Register { sp: rv.0, f: rv.1, ..pc_plus(r, 1) }, b, dots: 16 }
        },
        Instr::IncR(t) => {
            let v = read_op8_spec(t, r, b);
            let res = ((v + 1) % 256) as u8;
            SOut {
                r: Register {
                    f: flags_byte(res == 0, false, v % 16 == 15, c_flag(r.f)),
                    ..write_op8_regs(t, r, res)
                },
                b: write_op8_bus(t, r, b, res),
                dots: if op8_hl(t) { 12 } else { 4 },
            }
        },
        Instr::DecR(t) => {
            let v = read_op8_spec(t, r, b);
            let res = ((v + 255) % 256) as u8;
            SOut {
                r: Register {
                    f: flags_byte(res == 0, true, v % 16 == 0, c_flag(r.f)),
                    ..write_op8_regs(t, r, res)
                },
                b: write_op8_bus(t, r, b, res),
                dots: if op8_hl(t) { 12 } else { 4 },
            }
        },
        Instr::IncRr(rr) => SOut {
            r: spec_set_r16(r, rr, wrap_add16(spec_get_r16(r, rr), 1)),
            b,
            dots: 8,
        },
        Instr::DecRr(rr) => SOut {
            r: spec_set_r16(r, rr, wrap_sub16(spec_get_r16(r, rr), 1)),
            b,
            dots: 8,
        },
        Instr::Alu(op, t) => SOut {
            r: alu_apply(op, r, read_op8_spec(t, r, b)),
            b,
            dots: if op8_hl(t) { 8 } else { 4 },
        },
        Instr::AluImm(op) => SOut {
            r: alu_apply(op, pc_plus(r, 1), bus_read_spec(b, r.pc)),
            b,
            dots: 8,
        },
        Instr::AddHlRr(rr) => {
            let hl = word16(r.h, r.l);
            let v = spec_get_r16(r, rr);
            let f1 = flags_byte(z_flag(r.f), false, hl % 4096 + v % 4096 > 4095, hl + v > 65535);
            SOut {
                r: spec_set_r16(Register { f: f1, ..r }, Register16::HL, wrap_add16(hl, v)),
                b,
                dots: 8,
            }
        },
        Instr::Rlca => {
            let rv = rot_vals(CbKind::Rlc, r.a, c_flag(r.f));
            SOut {
                r: Register { a: rv.0, f: flags_byte(false, false, false, rv.1), ..r },
                b,
                dots: 4,
            }
        },
        Instr::Rrca => {
            let rv = rot_vals(CbKind::Rrc, r.a, c_flag(r.f));
            SOut {
                r: Register { a: rv.0, f: flags_byte(false, false, false, rv.1), ..r },
                b,
                dots: 4,
            }
        },
        Instr::Rla => {
            let rv = rot_vals(CbKind::Rl, r.a, c_flag(r.f));
            SOut {
                r: Register { a: rv.0, f: flags_byte(false, false, false, rv.1), ..r },
                b,
                dots: 4,
            }
        },
        Instr::Rra => {
            let rv = rot_vals(CbKind::Rr, r.a, c_flag(r.f));
            SOut {
                r: Register { a: rv.0, f: flags_byte(false, false, false, rv.1), ..r },
                b,
                dots: 4,
            }
        },
        Instr::Daa => {
            let dv = daa_vals(r.a, n_flag(r.f), h_flag(r.f), c_flag(r.f));
            SOut { r: Register { a: dv.0, f: dv.1, ..r }, b, dots: 4 }
        },
        Instr::Cpl => SOut {
            r: Register {
                a: (255 - r.a) as u8,
                f: flags_byte(z_flag(r.f), true, true, c_flag(r.f)),
                ..r
            },
            b,
            dots: 4,
        },
        Instr::Scf => SOut {
            r: Register { f: flags_byte(z_flag(r.f), false, false, true), ..r },
            b,
            dots: 4,
        },
        Instr::Ccf => SOut {
            r: Register { f: flags_byte(z_flag(r.f), false, false, !c_flag(r.f)), ..r },
            b,
            dots: 4,
        },
        Instr::JpImm => SOut { r: Register { pc: imm16_at(b, r.pc), ..r }, b, dots: 16 },
        Instr::JpCond(c) => {
            if cond_met(c, r.f) {
                SOut { r: Register { pc: imm16_at(b, r.pc), ..r }, b, dots: 16 }
            } else {
                SOut { r: pc_plus(r, 2), b, dots: 12 }
            }
        },
        Instr::JpHl => SOut { r: Register { pc: word16(r.h, r.l), ..r }, b, dots: 4 },
        Instr::JrImm => {
            let off = bus_read_spec(b, r.pc);
            SOut { r: Register { pc: rel_target(wrap_add16(r.pc, 1), off), ..r }, b, dots: 12 }
        },
        Instr::JrCond(c) => {
            let off = bus_read_spec(b, r.pc);
            if cond_met(c, r.f) {
                SOut { r: Register { pc: rel_target(wrap_add16(r.pc, 1), off), ..r }, b, dots: 12 }
            } else {
                SOut { r: pc_plus(r, 1), b, dots: 8 }
            }
        },
        Instr::CallImm => {
            let addr = imm16_at(b, r.pc);
            SOut {
                r: Register { pc: addr, sp: wrap_sub16(r.sp, 2), ..r },
                b: push_bus(b, r.sp, wrap_add16(r.pc, 2)),
                dots: 24,
            }
        },
        Instr::CallCond(c) => {
            if cond_met(c, r.f) {
                let addr = imm16_at(b, r.pc);
                SOut {
                    r: Register { pc: addr, sp: wrap_sub16(r.sp, 2), ..r },
                    b: push_bus(b, r.sp, wrap_add16(r.pc, 2)),
                    dots: 24,
                }
            } else {
                SOut { r: pc_plus(r, 2), b, dots: 12 }
            }
        },
        Instr::Ret => SOut {
            r: Register { pc: pop_val(b, r.sp), sp: wrap_add16(r.sp, 2), ..r },
            b,
            dots: 16,
        },
        Instr::RetCond(c) => {
            if cond_met(c, r.f) {
                SOut {
                    r: Register { pc: pop_val(b, r.sp), sp: wrap_add16(r.sp, 2), ..r },
                    b,
                    dots: 20,
                }
            } else {
                SOut { r, b, dots: 8 }
            }
        },
        Instr::Reti => SOut {
            r: Register { pc: pop_val(b, r.sp), sp: wrap_add16(r.sp, 2), ime: 1, ..r },
            b,
            dots: 16,
        },
        Instr::Rst(n) => SOut {
            r: Register { pc: n as u16, sp: wrap_sub16(r.sp, 2), ..r },
            b: push_bus(b, r.sp, r.pc),
            dots: 16,
        },
        Instr::PushRr(rr) => SOut {
            r: Register { sp: wrap_sub16(r.sp, 2), ..r },
            b: push_bus(b, r.sp, spec_get_r16(r, rr)),
            dots: 16,
        },
        Instr::PopRr(rr) => SOut {
            r: spec_set_r16(
                Register { sp: wrap_add16(r.sp, 2), ..r },
                rr,
                pop_val(b, r.sp),
            ),
            b,
            dots: 12,
        },
        Instr::Di => SOut { r: Register { ime: 0, ..r }, b, dots: 4 },
        Instr::Ei => SOut { r: Register { ime: 1, ..r }, b, dots: 4 },
        Instr::Prefix => {
            let cb = bus_read_spec(b, r.pc);
            exec_cb_spec(spec_decode_cb(cb), pc_plus(r, 1), b)
        },
        Instr::Illegal => SOut { r, b, dots: 4 },
    }
}

impl CPU {
    /// Execute one 0xCB-prefixed instruction, PC already past both bytes.
    fn exec_cb(&mut self, bus: &mut BUS, ci: CbInstr)
        requires
            old(bus)@.wf(),
            cb_wf(ci),
        ensures
            ({
                let s = exec_cb_spec(ci, old(self).reg, old(bus)@);
                final(self).reg == s.r && final(bus)@ == s.b && final(self).cycles == s.dots
            }),
            final(bus)@.wf(),
            4 <= final(self).cycles <= 24,
    {
        let v = self.get_op8(bus, ci.tgt);
        let hl = matches!(ci.tgt, crate::opcodes::Operand8::HlInd);
        match ci.kind {
            CbKind::Bit(n) => {
                let bt = bit_of(v, n);
                let c = self.reg.f / 16 % 2 == 1;
                self.reg.f = compose_flags(bt == 0, false, true, c);
                self.set_cycles(if hl { 12 } else { 8 });
            }
            CbKind::Res(n) => {
                let res = clear_bit(v, n);
                self.set_op8(bus, ci.tgt, res);
                self.set_cycles(if hl { 16 } else { 8 });
            }
            CbKind::SetBit(n) => {
                let res = set_bit(v, n);
                self.set_op8(bus, ci.tgt, res);
                self.set_cycles(if hl { 16 } else { 8 });
            }
            _ => {
                let cin = self.reg.f / 16 % 2 == 1;
                let rc = rot_calc(ci.kind, v, cin);
                self.set_op8(bus, ci.tgt, rc.0);
                self.reg.f = compose_flags(rc.0 == 0, false, false, rc.1);
                self.set_cycles(if hl { 16 } else { 8 });
            }
        }
    }

    /// Execute one decoded instruction, PC already past the opcode byte.
    #[verifier::rlimit(60)]
    fn execute(&mut self, bus: &mut BUS, i: Instr)
        requires
            old(bus)@.wf(),
            !(i is Illegal),
        ensures
            ({
                let s = exec_instr_spec(i, old(self).reg, old(bus)@);
                final(self).reg == s.r && final(bus)@ == s.b && final(self).cycles == s.dots
            }),
            final(bus)@.wf(),
            4 <= final(self).cycles <= 24,
    {
        proof {
            reveal(exec_instr_spec);
        }
        match i {
            Instr::Nop => {
                self.set_cycles(4);
            }
            Instr::Stop => {
                let _ = self.fetch(bus);
                self.set_cycles(4);
            }
            Instr::Halt => {
                self.reg.pc = wrap16_sub(self.reg.pc, 1);
                self.set_cycles(4);
            }
            Instr::LdMove(dst, src) => {
                let v = self.get_op8(bus, src);
                let hl = matches!(dst, crate::opcodes::Operand8::HlInd) || matches!(
                    src,
                    crate::opcodes::Operand8::HlInd,
                );
                self.set_op8(bus, dst, v);
                self.set_cycles(if hl { 8 } else { 4 });
            }
            Instr::LdRImm(t) => {
                let v = self.fetch(bus);
                let hl = matches!(t, crate::opcodes::Operand8::HlInd);
                self.set_op8(bus, t, v);
                self.set_cycles(if hl { 12 } else { 8 });
            }
            Instr::LdRrImm(rr) => {
                let v = self.fetch16(bus);
                self.reg.set_r16(rr, v);
                self.set_cycles(12);
            }
            Instr::LdBcA => {
                self.write(bus, self.reg.get_bc(), self.reg.a);
                self.set_cycles(8);
            }
            Instr::LdDeA => {
                self.write(bus, self.reg.get_de(), self.reg.a);
                self.set_cycles(8);
            }
            Instr::LdABc => {
                let v = self.read(bus, self.reg.get_bc());
                self.reg.a = v;
                self.set_cycles(8);
            }
            Instr::LdADe => {
                let v = self.read(bus, self.reg.get_de());
                self.reg.a = v;
                self.set_cycles(8);
            }
            Instr::LdHliA => {
                let hl = self.reg.get_hl();
                self.write(bus, hl, self.reg.a);
                self.reg.set_hl(wrap16_add(hl, 1));
                self.set_cycles(8);
            }
            Instr::LdAHli => {
                let hl = self.reg.get_hl();
                let v = self.read(bus, hl);
                self.reg.a = v;
                self.reg.set_hl(wrap16_add(hl, 1));
                self.set_cycles(8);
            }
            Instr::LdHldA => {
                let hl = self.reg.get_hl();
                self.write(bus, hl, self.reg.a);
                self.reg.set_hl(wrap16_sub(hl, 1));
                self.set_cycles(8);
            }
            Instr::LdAHld => {
                let hl = self.reg.get_hl();
                let v = self.read(bus, hl);
                self.reg.a = v;
                self.reg.set_hl(wrap16_sub(hl, 1));
                self.set_cycles(8);
            }
            Instr::LdhImmA => {
                let off = self.fetch(bus);
                self.write(bus, 0xFF00 + off as u16, self.reg.a);
                self.set_cycles(12);
            }
            Instr::LdhAImm => {
                let off = self.fetch(bus);
                let v = self.read(bus, 0xFF00 + off as u16);
                self.reg.a = v;
                self.set_cycles(12);
            }
            Instr::LdhCA => {
                self.write(bus, 0xFF00 + self.reg.c as u16, self.reg.a);
                self.set_cycles(8);
            }
            Instr::LdhAC => {
                let v = self.read(bus, 0xFF00 + self.reg.c as u16);
                self.reg.a = v;
                self.set_cycles(8);
            }
            Instr::LdAbsA => {
                let addr = self.fetch16(bus);
                self.write(bus, addr, self.reg.a);
                self.set_cycles(16);
            }
            Instr::LdAAbs => {
                let addr = self.fetch16(bus);
                let v = self.read(bus, addr);
                self.reg.a = v;
                self.set_cycles(16);
            }
            Instr::LdAbsSp => {
                let addr = self.fetch16(bus);
                self.write(bus, addr, (self.reg.sp % 256) as u8);
                self.write(bus, wrap16_add(addr, 1), (self.reg.sp / 256) as u8);
                self.set_cycles(20);
            }
            Instr::LdSpHl => {
                self.reg.sp = self.reg.get_hl();
                self.set_cycles(8);
            }
            Instr::LdHlSpImm => {
                let off = self.fetch(bus);
                let rv = sp_rel_calc(self.reg.sp, off);
                self.reg.f = rv.1;
                self.reg.set_hl(rv.0);
                self.set_cycles(12);
            }
            Instr::AddSpImm => {
                let off = self.fetch(bus);
                let rv = sp_rel_calc(self.reg.sp, off);
                self.reg.sp = rv.0;
                self.reg.f = rv.1;
                self.set_cycles(16);
            }
            Instr::IncR(t) => {
                let v = self.get_op8(bus, t);
                let res = ((v as u16 + 1) % 256) as u8;
                let c = self.reg.f / 16 % 2 == 1;
                let hl = matches!(t, crate::opcodes::Operand8::HlInd);
                self.set_op8(bus, t, res);
                self.reg.f = compose_flags(res == 0, false, v % 16 == 15, c);
                self.set_cycles(if hl { 12 } else { 4 });
            }
            Instr::DecR(t) => {
                let v = self.get_op8(bus, t);
                let res = ((v as u16 + 255) % 256) as u8;
                let c = self.reg.f / 16 % 2 == 1;
                let hl = matches!(t, crate::opcodes::Operand8::HlInd);
                self.set_op8(bus, t, res);
                self.reg.f = compose_flags(res == 0, true, v % 16 == 0, c);
                self.set_cycles(if hl { 12 } else { 4 });
            }
            Instr::IncRr(rr) => {
                let v = self.reg.get_r16(rr);
                self.reg.set_r16(rr, wrap16_add(v, 1));
                self.set_cycles(8);
            }
            Instr::DecRr(rr) => {
                let v = self.reg.get_r16(rr);
                self.reg.set_r16(rr, wrap16_sub(v, 1));
                self.set_cycles(8);
            }
            Instr::Alu(op, t) => {
                let v = self.get_op8(bus, t);
                let hl = matches!(t, crate::opcodes::Operand8::HlInd);
                self.op_alu(op, v);
                self.set_cycles(if hl { 8 } else { 4 });
            }
            Instr::AluImm(op) => {
                let v = self.fetch(bus);
                self.op_alu(op, v);
                self.set_cycles(8);
            }
            Instr::AddHlRr(rr) => {
                let hl = self.reg.get_hl();
                let v = self.reg.get_r16(rr);
                let z = self.reg.f / 128 % 2 == 1;
                let h = hl % 4096 + v % 4096 > 4095;
                let c = hl as u32 + v as u32 > 65535;
                self.reg.f = compose_flags(z, false, h, c);
                self.reg.set_hl(wrap16_add(hl, v));
                self.set_cycles(8);
            }
            Instr::Rlca => {
                let cin = self.reg.f / 16 % 2 == 1;
                let rc = rot_calc(CbKind::Rlc, self.reg.a, cin);
                self.reg.a = rc.0;
                self.reg.f = compose_flags(false, false, false, rc.1);
                self.set_cycles(4);
            }
            Instr::Rrca => {
                let cin = self.reg.f / 16 % 2 == 1;
                let rc = rot_calc(CbKind::Rrc, self.reg.a, cin);
                self.reg.a = rc.0;
                self.reg.f = compose_flags(false, false, false, rc.1);
                self.set_cycles(4);
            }
            Instr::Rla => {
                let cin = self.reg.f / 16 % 2 == 1;
                let rc = rot_calc(CbKind::Rl, self.reg.a, cin);
                self.reg.a = rc.0;
                self.reg.f = compose_flags(false, false, false, rc.1);
                self.set_cycles(4);
            }
            Instr::Rra => {
                let cin = self.reg.f / 16 % 2 == 1;
                let rc = rot_calc(CbKind::Rr, self.reg.a, cin);
                self.reg.a = rc.0;
                self.reg.f = compose_flags(false, false, false, rc.1);
                self.set_cycles(4);
            }
            Instr::Daa => {
                self.op_daa();
                self.set_cycles(4);
            }
            Instr::Cpl => {
                let z = self.reg.f / 128 % 2 == 1;
                let c = self.reg.f / 16 % 2 == 1;
                self.reg.a = 255 - self.reg.a;
                self.reg.f = compose_flags(z, true, true, c);
                self.set_cycles(4);
            }
            Instr::Scf => {
                let z = self.reg.f / 128 % 2 == 1;
                self.reg.f = compose_flags(z, false, false, true);
                self.set_cycles(4);
            }
            Instr::Ccf => {
                let z = self.reg.f / 128 % 2 == 1;
                let c = self.reg.f / 16 % 2 == 1;
                self.reg.f = compose_flags(z, false, false, !c);
                self.set_cycles(4);
            }
            Instr::JpImm => {
                let addr = self.fetch16(bus);
                self.reg.pc = addr;
                self.set_cycles(16);
            }
            Instr::JpCond(c) => {
                let addr = self.fetch16(bus);
                if self.check_condition(c) {
                    self.reg.pc = addr;
                    self.set_cycles(16);
                } else {
                    self.set_cycles(12);
                }
            }
            Instr::JpHl => {
                self.reg.pc = self.reg.get_hl();
                self.set_cycles(4);
            }
            Instr::JrImm => {
                let off = self.fetch(bus);
                self.reg.pc = rel_target_of(self.reg.pc, off);
                self.set_cycles(12);
            }
            Instr::JrCond(c) => {
                let off = self.fetch(bus);
                if self.check_condition(c) {
                    self.reg.pc = rel_target_of(self.reg.pc, off);
                    self.set_cycles(12);
                } else {
                    self.set_cycles(8);
                }
            }
            Instr::CallImm => {
                let addr = self.fetch16(bus);
                self.push(bus, self.reg.pc);
                self.reg.pc = addr;
                self.set_cycles(24);
            }
            Instr::CallCond(c) => {
                let addr = self.fetch16(bus);
                if self.check_condition(c) {
                    self.push(bus, self.reg.pc);
                    self.reg.pc = addr;
                    self.set_cycles(24);
                } else {
                    self.set_cycles(12);
                }
            }
            Instr::Ret => {
                let addr = self.pop(bus);
                self.reg.pc = addr;
                self.set_cycles(16);
            }
            Instr::RetCond(c) => {
                if self.check_condition(c) {
                    let addr = self.pop(bus);
                    self.reg.pc = addr;
                    self.set_cycles(20);
                } else {
                    self.set_cycles(8);
                }
            }
            Instr::Reti => {
                let addr = self.pop(bus);
                self.reg.pc = addr;
                self.reg.ime = 1;
                self.set_cycles(16);
            }
            Instr::Rst(n) => {
                self.push(bus, self.reg.pc);
                self.reg.pc = n as u16;
                self.set_cycles(16);
            }
            Instr::PushRr(rr) => {
                let v = self.reg.get_r16(rr);
                self.push(bus, v);
                self.set_cycles(16);
            }
            Instr::PopRr(rr) => {
                let v = self.pop(bus);
                self.reg.set_r16(rr, v);
                self.set_cycles(12);
            }
            Instr::Di => {
                self.reg.ime = 0;
                self.set_cycles(4);
            }
            Instr::Ei => {
                self.reg.ime = 1;
                self.set_cycles(4);
            }
            Instr::Prefix => {
                let cb = self.fetch(bus);
                let ci = Opcode::new(cb).decode_cb();
                self.exec_cb(bus, ci);
            }
            Instr::Illegal => {
                proof {
                    assert(false);
                }
            }
        }
    }

    /// Fetch, decode and execute one instruction.
    ///
    /// On success the machine is exactly what `exec_instr_spec` gives for
    /// the decoded opcode, and the result is its cost in dots. An opcode
    /// with no handler is reported with its address; only the fetch of the
    /// opcode byte has then happened.
    pub fn step(&mut self, bus: &mut BUS) -> (res: Result<u32, CpuError>)
        requires
            old(bus)@.wf(),
        ensures
            ({
                let op = bus_read_spec(old(bus)@, old(self).reg.pc);
                match res {
                    Ok(dots) => {
                        &&& !(spec_decode(op) is Illegal)
                        &&& {
                            let s = exec_instr_spec(
                                spec_decode(op),
                                pc_plus(old(self).reg, 1),
                                old(bus)@,
                            );
                            final(self).reg == s.r && final(bus)@ == s.b && dots == s.dots
                                && final(self).cycles == s.dots
                        }
                        &&& 4 <= dots <= 24
                    },
                    Err(e) => {
                        &&& spec_decode(op) is Illegal
                        &&& e == (CpuError { pc: old(self).reg.pc, opcode: op })
                        &&& final(self).reg == pc_plus(old(self).reg, 1)
                        &&& final(bus)@ == old(bus)@
                        &&& final(self).cycles == old(self).cycles
                    },
                }
            }),
            final(bus)@.wf(),
    {
        let pc0 = self.reg.pc;
        let instruction = self.fetch(bus);
        let i = Opcode::new(instruction).decode();
        if matches!(i, Instr::Illegal) {
            return Err(CpuError { pc: pc0, opcode: instruction });
        }
        self.execute(bus, i);
        Ok(self.cycles)
    }
}

} // verus!
