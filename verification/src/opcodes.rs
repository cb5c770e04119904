//! Decoding of the SM83 opcode spaces into a small instruction
//! representation.
//!
//! `Opcode::decode` maps the 256 base opcodes (eleven of them illegal) and
//! `Opcode::decode_cb` the 256 0xCB-prefixed ones. Both are total and are
//! pinned, byte for byte, by `spec_decode` and `spec_decode_cb`.

use vstd::prelude::*;

use crate::register::Register16;
use crate::register::Register8;

verus! {

/// A branch condition over the Z and C flags.
#[derive(Debug, Clone, Copy, PartialEq, Eq, Structural)]
pub enum Condition {
    NZ,
    Z,
    NC,
    C,
}

/// An 8-bit operand: a register, or the byte addressed by HL.
#[derive(Debug, Clone, Copy, PartialEq, Eq, Structural)]
pub enum Operand8 {
    Reg(Register8),
    HlInd,
}

/// The eight accumulator operations of the 0x80..0xC0 quadrant.
#[derive(Debug, Clone, Copy, PartialEq, Eq, Structural)]
pub enum AluOp {
    Add,
    Adc,
    Sub,
    Sbc,
    And,
    Xor,
    Or,
    Cp,
}

/// One decoded base-space instruction.
#[derive(Debug, Clone, Copy, PartialEq, Eq, Structural)]
pub enum Instr {
    Nop,
    Stop,
    Halt,
    LdMove(Operand8, Operand8),
    LdRImm(Operand8),
    LdRrImm(Register16),
    LdBcA,
    LdDeA,
    LdABc,
    LdADe,
    LdHliA,
    LdAHli,
    LdHldA,
    LdAHld,
    LdhImmA,
    LdhAImm,
    LdhCA,
    LdhAC,
    LdAbsA,
    LdAAbs,
    LdAbsSp,
    LdSpHl,
    LdHlSpImm,
    IncR(Operand8),
    DecR(Operand8),
    IncRr(Register16),
    DecRr(Register16),
    Alu(AluOp, Operand8),
    AluImm(AluOp),
    AddHlRr(Register16),
    AddSpImm,
    Rlca,
    Rrca,
    Rla,
    Rra,
    Daa,
    Cpl,
    Scf,
    Ccf,
    JpImm,
    JpCond(Condition),
    JpHl,
    JrImm,
    JrCond(Condition),
    CallImm,
    CallCond(Condition),
    Ret,
    RetCond(Condition),
    Reti,
    Rst(u8),
    PushRr(Register16),
    PopRr(Register16),
    Di,
    Ei,
    Prefix,
    Illegal,
}

/// The operation of one 0xCB-prefixed instruction.
#[derive(Debug, Clone, Copy, PartialEq, Eq, Structural)]
pub enum CbKind {
    Rlc,
    Rrc,
    Rl,
    Rr,
    Sla,
    Sra,
    Swap,
    Srl,
    Bit(u8),
    Res(u8),
    SetBit(u8),
}

/// One decoded 0xCB-prefixed instruction.
#[derive(Debug, Clone, Copy, PartialEq, Eq, Structural)]
pub struct CbInstr {
    pub kind: CbKind,
    pub tgt: Operand8,
}

/// The operand selected by a 3-bit register code, in the order
/// B, C, D, E, H, L, (HL), A.
pub open spec fn spec_op8(code: u8) -> Operand8 {
    if code == 0 {
        Operand8::Reg(Register8::B)
    } else if code == 1 {
        Operand8::Reg(Register8::C)
    } else if code == 2 {
        Operand8::Reg(Register8::D)
    } else if code == 3 {
        Operand8::Reg(Register8::E)
    } else if code == 4 {
        Operand8::Reg(Register8::H)
    } else if code == 5 {
        Operand8::Reg(Register8::L)
    } else if code == 6 {
        Operand8::HlInd
    } else {
        Operand8::Reg(Register8::A)
    }
}

/// The accumulator operation selected by bits 3..6 of an ALU opcode.
pub open spec fn spec_alu_sel(code: u8) -> AluOp {
    if code == 0 {
        AluOp::Add
    } else if code == 1 {
        AluOp::Adc
    } else if code == 2 {
        AluOp::Sub
    } else if code == 3 {
        AluOp::Sbc
    } else if code == 4 {
        AluOp::And
    } else if code == 5 {
        AluOp::Xor
    } else if code == 6 {
        AluOp::Or
    } else {
        AluOp::Cp
    }
}

/// The instruction denoted by a base-space opcode byte.
pub open spec fn spec_decode(op: u8) -> Instr {
    if 0x40 <= op < 0x80 {
        if op == 0x76 {
            Instr::Halt
        } else {
            Instr::LdMove(spec_op8(((op - 0x40) / 8) as u8), spec_op8(op % 8))
        }
    } else if 0x80 <= op < 0xC0 {
        Instr::Alu(spec_alu_sel(((op - 0x80) / 8) as u8), spec_op8(op % 8))
    } else if op == 0x00 {
        Instr::Nop
    } else if op == 0x01 {
        Instr::LdRrImm(Register16::BC)
    } else if op == 0x02 {
        Instr::LdBcA
    } else if op == 0x03 {
        Instr::IncRr(Register16::BC)
    } else if op == 0x04 {
        Instr::IncR(spec_op8(0))
    } else if op == 0x05 {
        Instr::DecR(spec_op8(0))
    } else if op == 0x06 {
        Instr::LdRImm(spec_op8(0))
    } else if op == 0x07 {
        Instr::Rlca
    } else if op == 0x08 {
        Instr::LdAbsSp
    } else if op == 0x09 {
        Instr::AddHlRr(Register16::BC)
    } else if op == 0x0A {
        Instr::LdABc
    } else if op == 0x0B {
        Instr::DecRr(Register16::BC)
    } else if op == 0x0C {
        Instr::IncR(spec_op8(1))
    } else if op == 0x0D {
        Instr::DecR(spec_op8(1))
    } else if op == 0x0E {
        Instr::LdRImm(spec_op8(1))
    } else if op == 0x0F {
        Instr::Rrca
    } else if op == 0x10 {
        Instr::Stop
    } else if op == 0x11 {
        Instr::LdRrImm(Register16::DE)
    } else if op == 0x12 {
        Instr::LdDeA
    } else if op == 0x13 {
        Instr::IncRr(Register16::DE)
    } else if op == 0x14 {
        Instr::IncR(spec_op8(2))
    } else if op == 0x15 {
        Instr::DecR(spec_op8(2))
    } else if op == 0x16 {
        Instr::LdRImm(spec_op8(2))
    } else if op == 0x17 {
        Instr::Rla
    } else if op == 0x18 {
        Instr::JrImm
    } else if op == 0x19 {
        Instr::AddHlRr(Register16::DE)
    } else if op == 0x1A {
        Instr::LdADe
    } else if op == 0x1B {
        Instr::DecRr(Register16::DE)
    } else if op == 0x1C {
        Instr::IncR(spec_op8(3))
    } else if op == 0x1D {
        Instr::DecR(spec_op8(3))
    } else if op == 0x1E {
        Instr::LdRImm(spec_op8(3))
    } else if op == 0x1F {
        Instr::Rra
    } else if op == 0x20 {
        Instr::JrCond(Condition::NZ)
    } else if op == 0x21 {
        Instr::LdRrImm(Register16::HL)
    } else if op == 0x22 {
        Instr::LdHliA
    } else if op == 0x23 {
        Instr::IncRr(Register16::HL)
    } else if op == 0x24 {
        Instr::IncR(spec_op8(4))
    } else if op == 0x25 {
        Instr::DecR(spec_op8(4))
    } else if op == 0x26 {
        Instr::LdRImm(spec_op8(4))
    } else if op == 0x27 {
        Instr::Daa
    } else if op == 0x28 {
        Instr::JrCond(Condition::Z)
    } else if op == 0x29 {
        Instr::AddHlRr(Register16::HL)
    } else if op == 0x2A {
        Instr::LdAHli
    } else if op == 0x2B {
        Instr::DecRr(Register16::HL)
    } else if op == 0x2C {
        Instr::IncR(spec_op8(5))
    } else if op == 0x2D {
        Instr::DecR(spec_op8(5))
    } else if op == 0x2E {
        Instr::LdRImm(spec_op8(5))
    } else if op == 0x2F {
        Instr::Cpl
    } else if op == 0x30 {
        Instr::JrCond(Condition::NC)
    } else if op == 0x31 {
        Instr::LdRrImm(Register16::SP)
    } else if op == 0x32 {
        Instr::LdHldA
    } else if op == 0x33 {
        Instr::IncRr(Register16::SP)
    } else if op == 0x34 {
        Instr::IncR(spec_op8(6))
    } else if op == 0x35 {
        Instr::DecR(spec_op8(6))
    } else if op == 0x36 {
        Instr::LdRImm(spec_op8(6))
    } else if op == 0x37 {
        Instr::Scf
    } else if op == 0x38 {
        Instr::JrCond(Condition::C)
    } else if op == 0x39 {
        Instr::AddHlRr(Register16::SP)
    } else if op == 0x3A {
        Instr::LdAHld
    } else if op == 0x3B {
        Instr::DecRr(Register16::SP)
    } else if op == 0x3C {
        Instr::IncR(spec_op8(7))
    } else if op == 0x3D {
        Instr::DecR(spec_op8(7))
    } else if op == 0x3E {
        Instr::LdRImm(spec_op8(7))
    } else if op == 0x3F {
        Instr::Ccf
    } else if op == 0xC0 {
        Instr::RetCond(Condition::NZ)
    } else if op == 0xC1 {
        Instr::PopRr(Register16::BC)
    } else if op == 0xC2 {
        Instr::JpCond(Condition::NZ)
    } else if op == 0xC3 {
        Instr::JpImm
    } else if op == 0xC4 {
        Instr::CallCond(Condition::NZ)
    } else if op == 0xC5 {
        Instr::PushRr(Register16::BC)
    } else if op == 0xC6 {
        Instr::AluImm(AluOp::Add)
    } else if op == 0xC7 {
        Instr::Rst(0x00)
    } else if op == 0xC8 {
        Instr::RetCond(Condition::Z)
    } else if op == 0xC9 {
        Instr::Ret
    } else if op == 0xCA {
        Instr::JpCond(Condition::Z)
    } else if op == 0xCB {
        Instr::Prefix
    } else if op == 0xCC {
        Instr::CallCond(Condition::Z)
    } else if op == 0xCD {
        Instr::CallImm
    } else if op == 0xCE {
        Instr::AluImm(AluOp::Adc)
    } else if op == 0xCF {
        Instr::Rst(0x08)
    } else if op == 0xD0 {
        Instr::RetCond(Condition::NC)
    } else if op == 0xD1 {
        Instr::PopRr(Register16::DE)
    } else if op == 0xD2 {
        Instr::JpCond(Condition::NC)
    } else if op == 0xD4 {
        Instr::CallCond(Condition::NC)
    } else if op == 0xD5 {
        Instr::PushRr(Register16::DE)
    } else if op == 0xD6 {
        Instr::AluImm(AluOp::Sub)
    } else if op == 0xD7 {
        Instr::Rst(0x10)
    } else if op == 0xD8 {
        Instr::RetCond(Condition::C)
    } else if op == 0xD9 {
        Instr::Reti
    } else if op == 0xDA {
        Instr::JpCond(Condition::C)
    } else if op == 0xDC {
        Instr::CallCond(Condition::C)
    } else if op == 0xDE {
        Instr::AluImm(AluOp::Sbc)
    } else if op == 0xDF {
        Instr::Rst(0x18)
    } else if op == 0xE0 {
        Instr::LdhImmA
    } else if op == 0xE1 {
        Instr::PopRr(Register16::HL)
    } else if op == 0xE2 {
        Instr::LdhCA
    } else if op == 0xE5 {
        Instr::PushRr(Register16::HL)
    } else if op == 0xE6 {
        Instr::AluImm(AluOp::And)
    } else if op == 0xE7 {
        Instr::Rst(0x20)
    } else if op == 0xE8 {
        Instr::AddSpImm
    } else if op == 0xE9 {
        Instr::JpHl
    } else if op == 0xEA {
        Instr::LdAbsA
    } else if op == 0xEE {
        Instr::AluImm(AluOp::Xor)
    } else if op == 0xEF {
        Instr::Rst(0x28)
    } else if op == 0xF0 {
        Instr::LdhAImm
    } else if op == 0xF1 {
        Instr::PopRr(Register16::AF)
    } else if op == 0xF2 {
        Instr::LdhAC
    } else if op == 0xF3 {
        Instr::Di
    } else if op == 0xF5 {
        Instr::PushRr(Register16::AF)
    } else if op == 0xF6 {
        Instr::AluImm(AluOp::Or)
    } else if op == 0xF7 {
        Instr::Rst(0x30)
    } else if op == 0xF8 {
        Instr::LdHlSpImm
    } else if op == 0xF9 {
        Instr::LdSpHl
    } else if op == 0xFA {
        Instr::LdAAbs
    } else if op == 0xFB {
        Instr::Ei
    } else if op == 0xFE {
        Instr::AluImm(AluOp::Cp)
    } else if op == 0xFF {
        Instr::Rst(0x38)
    } else {
        Instr::Illegal
    }
}

/// The instruction denoted by a 0xCB-prefixed opcode byte: the top two
/// bits select rotate/shift, BIT, RES or SET; bits 3..6 the rotate kind or
/// bit number; the low three bits the operand.
pub open spec fn spec_decode_cb(op: u8) -> CbInstr {
    CbInstr {
        kind: if op < 0x40 {
            let sel = op / 8;
            if sel == 0 {
                CbKind::Rlc
            } else if sel == 1 {
                CbKind::Rrc
            } else if sel == 2 {
                CbKind::Rl
            } else if sel == 3 {
                CbKind::Rr
            } else if sel == 4 {
                CbKind::Sla
            } else if sel == 5 {
                CbKind::Sra
            } else if sel == 6 {
                CbKind::Swap
            } else {
                CbKind::Srl
            }
        } else if op < 0x80 {
            CbKind::Bit(((op - 0x40) / 8) as u8)
        } else if op < 0xC0 {
            CbKind::Res(((op - 0x80) / 8) as u8)
        } else {
            CbKind::SetBit(((op - 0xC0) / 8) as u8)
        },
        tgt: spec_op8(op % 8),
    }
}

/// The bit number carried by a BIT/RES/SET instruction is below 8.
pub open spec fn cb_wf(ci: CbInstr) -> bool {
    match ci.kind {
        CbKind::Bit(n) => n < 8,
        CbKind::Res(n) => n < 8,
        CbKind::SetBit(n) => n < 8,
        _ => true,
    }
}

/// One opcode byte, to be decoded into an instruction.
#[derive(Debug, Clone, Copy, PartialEq, Eq, Structural)]
pub struct Opcode(pub u8);

/// The operand selected by a 3-bit register code.
pub fn op8_of(code: u8) -> (t: Operand8)
    requires
        code < 8,
    ensures
        t == spec_op8(code),
{
    if code == 0 {
        Operand8::Reg(Register8::B)
    } else if code == 1 {
        Operand8::Reg(Register8::C)
    } else if code == 2 {
        Operand8::Reg(Register8::D)
    } else if code == 3 {
        Operand8::Reg(Register8::E)
    } else if code == 4 {
        Operand8::Reg(Register8::H)
    } else if code == 5 {
        Operand8::Reg(Register8::L)
    } else if code == 6 {
        Operand8::HlInd
    } else {
        Operand8::Reg(Register8::A)
    }
}

/// The accumulator operation selected by a 3-bit code.
pub fn alu_sel_of(code: u8) -> (op: AluOp)
    requires
        code < 8,
    ensures
        op == spec_alu_sel(code),
{
    if code == 0 {
        AluOp::Add
    } else if code == 1 {
        AluOp::Adc
    } else if code == 2 {
        AluOp::Sub
    } else if code == 3 {
        AluOp::Sbc
    } else if code == 4 {
        AluOp::And
    } else if code == 5 {
        AluOp::Xor
    } else if code == 6 {
        AluOp::Or
    } else {
        AluOp::Cp
    }
}

impl Opcode {
    pub fn new(op: u8) -> (r: Opcode)
        ensures
            r.0 == op,
    {
        Opcode(op)
    }

    /// Decode a base-space opcode byte.
    pub fn decode(&self) -> (i: Instr)
        ensures
            i == spec_decode(self.0),
    {
        let op = self.0;
        if 0x40 <= op && op < 0x80 {
            if op == 0x76 {
                Instr::Halt
            } else {
                Instr::LdMove(op8_of((op - 0x40) / 8), op8_of(op % 8))
            }
        } else if 0x80 <= op && op < 0xC0 {
            Instr::Alu(alu_sel_of((op - 0x80) / 8), op8_of(op % 8))
        } else if op == 0x00 {
            Instr::Nop
        } else if op == 0x01 {
            Instr::LdRrImm(Register16::BC)
        } else if op == 0x02 {
            Instr::LdBcA
        } else if op == 0x03 {
            Instr::IncRr(Register16::BC)
        } else if op == 0x04 {
            Instr::IncR(op8_of(0))
        } else if op == 0x05 {
            Instr::DecR(op8_of(0))
        } else if op == 0x06 {
            Instr::LdRImm(op8_of(0))
        } else if op == 0x07 {
            Instr::Rlca
        } else if op == 0x08 {
            Instr::LdAbsSp
        } else if op == 0x09 {
            Instr::AddHlRr(Register16::BC)
        } else if op == 0x0A {
            Instr::LdABc
        } else if op == 0x0B {
            Instr::DecRr(Register16::BC)
        } else if op == 0x0C {
            Instr::IncR(op8_of(1))
        } else if op == 0x0D {
            Instr::DecR(op8_of(1))
        } else if op == 0x0E {
            Instr::LdRImm(op8_of(1))
        } else if op == 0x0F {
            Instr::Rrca
        } else if op == 0x10 {
            Instr::Stop
        } else if op == 0x11 {
            Instr::LdRrImm(Register16::DE)
        } else if op == 0x12 {
            Instr::LdDeA
        } else if op == 0x13 {
            Instr::IncRr(Register16::DE)
        } else if op == 0x14 {
            Instr::IncR(op8_of(2))
        } else if op == 0x15 {
            Instr::DecR(op8_of(2))
        } else if op == 0x16 {
            Instr::LdRImm(op8_of(2))
        } else if op == 0x17 {
            Instr::Rla
        } else if op == 0x18 {
            Instr::JrImm
        } else if op == 0x19 {
            Instr::AddHlRr(Register16::DE)
        } else if op == 0x1A {
            Instr::LdADe
        } else if op == 0x1B {
            Instr::DecRr(Register16::DE)
        } else if op == 0x1C {
            Instr::IncR(op8_of(3))
        } else if op == 0x1D {
            Instr::DecR(op8_of(3))
        } else if op == 0x1E {
            Instr::LdRImm(op8_of(3))
        } else if op == 0x1F {
            Instr::Rra
        } else if op == 0x20 {
            Instr::JrCond(Condition::NZ)
        } else if op == 0x21 {
            Instr::LdRrImm(Register16::HL)
        } else if op == 0x22 {
            Instr::LdHliA
        } else if op == 0x23 {
            Instr::IncRr(Register16::HL)
        } else if op == 0x24 {
            Instr::IncR(op8_of(4))
        } else if op == 0x25 {
            Instr::DecR(op8_of(4))
        } else if op == 0x26 {
            Instr::LdRImm(op8_of(4))
        } else if op == 0x27 {
            Instr::Daa
        } else if op == 0x28 {
            Instr::JrCond(Condition::Z)
        } else if op == 0x29 {
            Instr::AddHlRr(Register16::HL)
        } else if op == 0x2A {
            Instr::LdAHli
        } else if op == 0x2B {
            Instr::DecRr(Register16::HL)
        } else if op == 0x2C {
            Instr::IncR(op8_of(5))
        } else if op == 0x2D {
            Instr::DecR(op8_of(5))
        } else if op == 0x2E {
            Instr::LdRImm(op8_of(5))
        } else if op == 0x2F {
            Instr::Cpl
        } else if op == 0x30 {
            Instr::JrCond(Condition::NC)
        } else if op == 0x31 {
            Instr::LdRrImm(Register16::SP)
        } else if op == 0x32 {
            Instr::LdHldA
        } else if op == 0x33 {
            Instr::IncRr(Register16::SP)
        } else if op == 0x34 {
            Instr::IncR(op8_of(6))
        } else if op == 0x35 {
            Instr::DecR(op8_of(6))
        } else if op == 0x36 {
            Instr::LdRImm(op8_of(6))
        } else if op == 0x37 {
            Instr::Scf
        } else if op == 0x38 {
            Instr::JrCond(Condition::C)
        } else if op == 0x39 {
            Instr::AddHlRr(Register16::SP)
        } else if op == 0x3A {
            Instr::LdAHld
        } else if op == 0x3B {
            Instr::DecRr(Register16::SP)
        } else if op == 0x3C {
            Instr::IncR(op8_of(7))
        } else if op == 0x3D {
            Instr::DecR(op8_of(7))
        } else if op == 0x3E {
            Instr::LdRImm(op8_of(7))
        } else if op == 0x3F {
            Instr::Ccf
        } else if op == 0xC0 {
            Instr::RetCond(Condition::NZ)
        } else if op == 0xC1 {
            Instr::PopRr(Register16::BC)
        } else if op == 0xC2 {
            Instr::JpCond(Condition::NZ)
        } else if op == 0xC3 {
            Instr::JpImm
        } else if op == 0xC4 {
            Instr::CallCond(Condition::NZ)
        } else if op == 0xC5 {
            Instr::PushRr(Register16::BC)
        } else if op == 0xC6 {
            Instr::AluImm(AluOp::Add)
        } else if op == 0xC7 {
            Instr::Rst(0x00)
        } else if op == 0xC8 {
            Instr::RetCond(Condition::Z)
        } else if op == 0xC9 {
            Instr::Ret
        } else if op == 0xCA {
            Instr::JpCond(Condition::Z)
        } else if op == 0xCB {
            Instr::Prefix
        } else if op == 0xCC {
            Instr::CallCond(Condition::Z)
        } else if op == 0xCD {
            Instr::CallImm
        } else if op == 0xCE {
            Instr::AluImm(AluOp::Adc)
        } else if op == 0xCF {
            Instr::Rst(0x08)
        } else if op == 0xD0 {
            Instr::RetCond(Condition::NC)
        } else if op == 0xD1 {
            Instr::PopRr(Register16::DE)
        } else if op == 0xD2 {
            Instr::JpCond(Condition::NC)
        } else if op == 0xD4 {
            Instr::CallCond(Condition::NC)
        } else if op == 0xD5 {
            Instr::PushRr(Register16::DE)
        } else if op == 0xD6 {
            Instr::AluImm(AluOp::Sub)
        } else if op == 0xD7 {
            Instr::Rst(0x10)
        } else if op == 0xD8 {
            Instr::RetCond(Condition::C)
        } else if op == 0xD9 {
            Instr::Reti
        } else if op == 0xDA {
            Instr::JpCond(Condition::C)
        } else if op == 0xDC {
            Instr::CallCond(Condition::C)
        } else if op == 0xDE {
            Instr::AluImm(AluOp::Sbc)
        } else if op == 0xDF {
            Instr::Rst(0x18)
        } else if op == 0xE0 {
            Instr::LdhImmA
        } else if op == 0xE1 {
            Instr::PopRr(Register16::HL)
        } else if op == 0xE2 {
            Instr::LdhCA
        } else if op == 0xE5 {
            Instr::PushRr(Register16::HL)
        } else if op == 0xE6 {
            Instr::AluImm(AluOp::And)
        } else if op == 0xE7 {
            Instr::Rst(0x20)
        } else if op == 0xE8 {
            Instr::AddSpImm
        } else if op == 0xE9 {
            Instr::JpHl
        } else if op == 0xEA {
            Instr::LdAbsA
        } else if op == 0xEE {
            Instr::AluImm(AluOp::Xor)
        } else if op == 0xEF {
            Instr::Rst(0x28)
        } else if op == 0xF0 {
            Instr::LdhAImm
        } else if op == 0xF1 {
            Instr::PopRr(Register16::AF)
        } else if op == 0xF2 {
            Instr::LdhAC
        } else if op == 0xF3 {
            Instr::Di
        } else if op == 0xF5 {
            Instr::PushRr(Register16::AF)
        } else if op == 0xF6 {
            Instr::AluImm(AluOp::Or)
        } else if op == 0xF7 {
            Instr::Rst(0x30)
        } else if op == 0xF8 {
            Instr::LdHlSpImm
        } else if op == 0xF9 {
            Instr::LdSpHl
        } else if op == 0xFA {
            Instr::LdAAbs
        } else if op == 0xFB {
            Instr::Ei
        } else if op == 0xFE {
            Instr::AluImm(AluOp::Cp)
        } else if op == 0xFF {
            Instr::Rst(0x38)
        } else {
            Instr::Illegal
        }
    }

    /// Decode a 0xCB-prefixed opcode byte.
    pub fn decode_cb(&self) -> (ci: CbInstr)
        ensures
            ci == spec_decode_cb(self.0),
            cb_wf(ci),
    {
        let op = self.0;
        let kind = if op < 0x40 {
            let sel = op / 8;
            if sel == 0 {
                CbKind::Rlc
            } else if sel == 1 {
                CbKind::Rrc
            } else if sel == 2 {
                CbKind::Rl
            } else if sel == 3 {
                CbKind::Rr
            } else if sel == 4 {
                CbKind::Sla
            } else if sel == 5 {
                CbKind::Sra
            } else if sel == 6 {
                CbKind::Swap
            } else {
                CbKind::Srl
            }
        } else if op < 0x80 {
            CbKind::Bit((op - 0x40) / 8)
        } else if op < 0xC0 {
            CbKind::Res((op - 0x80) / 8)
        } else {
            CbKind::SetBit((op - 0xC0) / 8)
        };
        CbInstr { kind, tgt: op8_of(op % 8) }
    }
}

} // verus!
