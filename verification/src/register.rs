//! The SM83 register file: eight 8-bit registers, the 16-bit SP and PC,
//! the interrupt-master-enable bit and the interrupt-enable byte.
//!
//! The four condition flags live in bits 7..4 of `f` (Z, N, H, C); the low
//! nibble of `f` is forced to zero by every 16-bit write to AF.

use vstd::prelude::*;

verus! {

/// Names for the 8-bit registers reachable by 3-bit operand encodings.
#[derive(Debug, Clone, Copy, PartialEq, Eq, Structural)]
pub enum Register8 {
    A,
    B,
    C,
    D,
    E,
    H,
    L,
}

/// Names for the 16-bit register pairs and the stack pointer.
#[derive(Debug, Clone, Copy, PartialEq, Eq, Structural)]
pub enum Register16 {
    AF,
    BC,
    DE,
    HL,
    SP,
}

/// The four condition flags, stored in bits 7..4 of `f`.
#[derive(Debug, Clone, Copy, PartialEq, Eq, Structural)]
pub enum Flags {
    Z,
    N,
    H,
    C,
}

#[derive(Debug, Clone, Copy, PartialEq, Eq, Structural)]
pub struct Register {
    pub a: u8,
    pub b: u8,
    pub c: u8,
    pub d: u8,
    pub e: u8,
    pub f: u8,
    pub h: u8,
    pub l: u8,
    pub pc: u16,
    pub sp: u16,
    pub ime: u8,
    pub ie: u8,
}

/// The 16-bit word formed by a high and a low byte.
pub open spec fn word16(hi: u8, lo: u8) -> u16 {
    (hi * 256 + lo) as u16
}

/// High byte of a 16-bit word.
pub open spec fn hi8(v: u16) -> u8 {
    (v / 256) as u8
}

/// Low byte of a 16-bit word.
pub open spec fn lo8(v: u16) -> u8 {
    (v % 256) as u8
}

/// Whether the Z flag (bit 7) is set in a flag byte.
pub open spec fn z_flag(f: u8) -> bool {
    f / 128 % 2 == 1
}

/// Whether the N flag (bit 6) is set in a flag byte.
pub open spec fn n_flag(f: u8) -> bool {
    f / 64 % 2 == 1
}

/// Whether the H flag (bit 5) is set in a flag byte.
pub open spec fn h_flag(f: u8) -> bool {
    f / 32 % 2 == 1
}

/// Whether the C flag (bit 4) is set in a flag byte.
pub open spec fn c_flag(f: u8) -> bool {
    f / 16 % 2 == 1
}

/// The flag byte with the given Z, N, H, C bits and a zero low nibble.
pub open spec fn flags_byte(z: bool, n: bool, h: bool, c: bool) -> u8 {
    ((if z { 128int } else { 0int }) + (if n { 64int } else { 0int })
        + (if h { 32int } else { 0int }) + (if c { 16int } else { 0int })) as u8
}

/// The value a `get_r8` read returns.
pub open spec fn spec_get_r8(r: Register, reg: Register8) -> u8 {
    match reg {
        Register8::A => r.a,
        Register8::B => r.b,
        Register8::C => r.c,
        Register8::D => r.d,
        Register8::E => r.e,
        Register8::H => r.h,
        Register8::L => r.l,
    }
}

/// The register file after a `set_r8` write.
pub open spec fn spec_set_r8(r: Register, reg: Register8, value: u8) -> Register {
    match reg {
        Register8::A => Register { a: value, ..r },
        Register8::B => Register { b: value, ..r },
        Register8::C => Register { c: value, ..r },
        Register8::D => Register { d: value, ..r },
        Register8::E => Register { e: value, ..r },
        Register8::H => Register { h: value, ..r },
        Register8::L => Register { l: value, ..r },
    }
}

/// The value a `get_r16` read returns: pairs are views over the 8-bit halves.
pub open spec fn spec_get_r16(r: Register, reg: Register16) -> u16 {
    match reg {
        Register16::AF => word16(r.a, r.f),
        Register16::BC => word16(r.b, r.c),
        Register16::DE => word16(r.d, r.e),
        Register16::HL => word16(r.h, r.l),
        Register16::SP => r.sp,
    }
}

/// The register file after a `set_r16` write; a write to AF forces the low
/// nibble of F to zero.
pub open spec fn spec_set_r16(r: Register, reg: Register16, value: u16) -> Register {
    match reg {
        Register16::AF => Register { a: hi8(value), f: (lo8(value) / 16 * 16) as u8, ..r },
        Register16::BC => Register { b: hi8(value), c: lo8(value), ..r },
        Register16::DE => Register { d: hi8(value), e: lo8(value), ..r },
        Register16::HL => Register { h: hi8(value), l: lo8(value), ..r },
        Register16::SP => Register { sp: value, ..r },
    }
}

/// The flag bit selected by `flag`, as 0 or 1.
pub open spec fn spec_get_flag(f: u8, flag: Flags) -> u8 {
    match flag {
        Flags::Z => f / 128 % 2,
        Flags::N => f / 64 % 2,
        Flags::H => f / 32 % 2,
        Flags::C => f / 16 % 2,
    }
}

/// The flag byte after setting or clearing one flag; the other three flags
/// and the low nibble are kept.
pub open spec fn spec_set_flag(f: u8, flag: Flags, on: bool) -> u8 {
    (flags_byte(
        if flag is Z { on } else { z_flag(f) },
        if flag is N { on } else { n_flag(f) },
        if flag is H { on } else { h_flag(f) },
        if flag is C { on } else { c_flag(f) },
    ) + f % 16) as u8
}

impl Register {
    /// A register file with every register cleared.
    pub fn new() -> (r: Register)
        ensures
            r == (Register {
                a: 0u8, b: 0u8, c: 0u8, d: 0u8, e: 0u8, f: 0u8, h: 0u8, l: 0u8,
                pc: 0u16, sp: 0u16, ime: 0u8, ie: 0u8,
            }),
    {
        Register { a: 0, b: 0, c: 0, d: 0, e: 0, f: 0, h: 0, l: 0, pc: 0, sp: 0, ime: 0, ie: 0 }
    }

    /// Read one 8-bit register.
    pub fn get_r8(&self, reg: Register8) -> (v: u8)
        ensures
            v == spec_get_r8(*self, reg),
    {
        match reg {
            Register8::A => self.a,
            Register8::B => self.b,
            Register8::C => self.c,
            Register8::D => self.d,
            Register8::E => self.e,
            Register8::H => self.h,
            Register8::L => self.l,
        }
    }

    /// Write one 8-bit register.
    pub fn set_r8(&mut self, reg: Register8, value: u8)
        ensures
            *final(self) == spec_set_r8(*old(self), reg, value),
    {
        match reg {
            Register8::A => self.a = value,
            Register8::B => self.b = value,
            Register8::C => self.c = value,
            Register8::D => self.d = value,
            Register8::E => self.e = value,
            Register8::H => self.h = value,
            Register8::L => self.l = value,
        }
    }

    /// Read a 16-bit pair as `(high << 8) | low`.
    pub fn get_r16(&self, reg: Register16) -> (v: u16)
        ensures
            v == spec_get_r16(*self, reg),
    {
        match reg {
            Register16::AF => (self.a as u16) * 256 + (self.f as u16),
            Register16::BC => (self.b as u16) * 256 + (self.c as u16),
            Register16::DE => (self.d as u16) * 256 + (self.e as u16),
            Register16::HL => (self.h as u16) * 256 + (self.l as u16),
            Register16::SP => self.sp,
        }
    }

    /// Write a 16-bit pair; AF masks the low nibble of F to zero.
    pub fn set_r16(&mut self, reg: Register16, value: u16)
        ensures
            *final(self) == spec_set_r16(*old(self), reg, value),
    {
        let hi = (value / 256) as u8;
        let lo = (value % 256) as u8;
        match reg {
            Register16::AF => {
                self.a = hi;
                self.f = lo / 16 * 16;
            }
            Register16::BC => {
                self.b = hi;
                self.c = lo;
            }
            Register16::DE => {
                self.d = hi;
                self.e = lo;
            }
            Register16::HL => {
                self.h = hi;
                self.l = lo;
            }
            Register16::SP => {
                self.sp = value;
            }
        }
    }

    /// BC as a 16-bit word.
    pub fn get_bc(&self) -> (v: u16)
        ensures
            v == word16(self.b, self.c),
    {
        (self.b as u16) * 256 + (self.c as u16)
    }

    /// Write BC as a 16-bit word.
    pub fn set_bc(&mut self, data: u16)
        ensures
            *final(self) == (Register { b: hi8(data), c: lo8(data), ..*old(self) }),
    {
        self.b = (data / 256) as u8;
        self.c = (data % 256) as u8;
    }

    /// DE as a 16-bit word.
    pub fn get_de(&self) -> (v: u16)
        ensures
            v == word16(self.d, self.e),
    {
        (self.d as u16) * 256 + (self.e as u16)
    }

    /// Write DE as a 16-bit word.
    pub fn set_de(&mut self, data: u16)
        ensures
            *final(self) == (Register { d: hi8(data), e: lo8(data), ..*old(self) }),
    {
        self.d = (data / 256) as u8;
        self.e = (data % 256) as u8;
    }

    /// HL as a 16-bit word.
    pub fn get_hl(&self) -> (v: u16)
        ensures
            v == word16(self.h, self.l),
    {
        (self.h as u16) * 256 + (self.l as u16)
    }

    /// Write HL as a 16-bit word.
    pub fn set_hl(&mut self, data: u16)
        ensures
            *final(self) == (Register { h: hi8(data), l: lo8(data), ..*old(self) }),
    {
        self.h = (data / 256) as u8;
        self.l = (data % 256) as u8;
    }

    /// Read one condition flag as 0 or 1.
    pub fn get_flag(&self, flag: Flags) -> (v: u8)
        ensures
            v == spec_get_flag(self.f, flag),
    {
        match flag {
            Flags::Z => self.f / 128 % 2,
            Flags::N => self.f / 64 % 2,
            Flags::H => self.f / 32 % 2,
            Flags::C => self.f / 16 % 2,
        }
    }

    /// Set or clear one condition flag, keeping the other three.
    pub fn set_flag(&mut self, flag: Flags, on: bool)
        ensures
            *final(self) == (Register { f: spec_set_flag(old(self).f, flag, on), ..*old(self) }),
    {
        let z = if matches!(flag, Flags::Z) { on } else { self.f / 128 % 2 == 1 };
        let n = if matches!(flag, Flags::N) { on } else { self.f / 64 % 2 == 1 };
        let h = if matches!(flag, Flags::H) { on } else { self.f / 32 % 2 == 1 };
        let c = if matches!(flag, Flags::C) { on } else { self.f / 16 % 2 == 1 };
        self.f = compose_flags(z, n, h, c) + self.f % 16;
    }
}

/// Build a flag byte (low nibble zero) from the four condition bits.
pub fn compose_flags(z: bool, n: bool, h: bool, c: bool) -> (f: u8)
    ensures
        f == flags_byte(z, n, h, c),
{
    (if z { 128u8 } else { 0u8 }) + (if n { 64u8 } else { 0u8 }) + (if h { 32u8 } else { 0u8 })
        + (if c { 16u8 } else { 0u8 })
}

} // verus!
