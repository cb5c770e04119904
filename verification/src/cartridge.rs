//! The cartridge: an immutable ROM image, optional external RAM, and the
//! memory-bank controller that interprets writes into the ROM address range
//! as bank-switch commands.
//!
//! ROM-only cartridges (type byte 0x00) ignore writes. MBC1 cartridges
//! (type bytes 0x01..=0x03) track a 5-bit ROM bank (minimum 1), a RAM bank,
//! a RAM-enable gate and a banking mode. Reads past the end of the image
//! return 0xFF.

use vstd::prelude::*;

verus! {

pub struct Cartridge {
    rom: Vec<u8>,
    ram: Vec<u8>,
    kind: u8,
    rom_bank: u8,
    ram_bank: u8,
    ram_enable: bool,
    bank_mode: u8,
}

/// Mathematical model of a cartridge.
pub struct CartV {
    pub rom: Seq<u8>,
    pub ram: Seq<u8>,
    pub kind: u8,
    pub rom_bank: u8,
    pub ram_bank: u8,
    pub ram_enable: bool,
    pub bank_mode: u8,
}

impl View for Cartridge {
    type V = CartV;

    closed spec fn view(&self) -> CartV {
        CartV {
            rom: self.rom@,
            ram: self.ram@,
            kind: self.kind,
            rom_bank: self.rom_bank,
            ram_bank: self.ram_bank,
            ram_enable: self.ram_enable,
            bank_mode: self.bank_mode,
        }
    }
}

/// Whether the cartridge-type byte selects the MBC1 controller.
pub open spec fn is_mbc1(kind: u8) -> bool {
    1 <= kind <= 3
}

/// The RAM bank that services external-RAM accesses: banked only in mode 1.
pub open spec fn active_ram_bank(c: CartV) -> u8 {
    if c.bank_mode == 1 { c.ram_bank } else { 0 }
}

/// The byte a cartridge read returns.
///
/// 0x0000..0x4000 always reads ROM bank 0; 0x4000..0x8000 reads the selected
/// bank; 0xA000..0xC000 reads external RAM when enabled. Any read that falls
/// outside the image (or of disabled RAM) returns 0xFF.
pub open spec fn cart_read_spec(c: CartV, addr: u16) -> u8 {
    if addr < 0x4000 {
        if addr < c.rom.len() { c.rom[addr as int] } else { 0xFF }
    } else if addr < 0x8000 {
        let idx = c.rom_bank * 0x4000 + (addr - 0x4000);
        if idx < c.rom.len() { c.rom[idx as int] } else { 0xFF }
    } else if 0xA000 <= addr < 0xC000 {
        if c.ram_enable {
            let idx = active_ram_bank(c) * 0x2000 + (addr - 0xA000);
            if idx < c.ram.len() { c.ram[idx as int] } else { 0xFF }
        } else {
            0xFF
        }
    } else {
        0xFF
    }
}

/// The cartridge after a write.
///
/// On a ROM-only cartridge every write is ignored. On MBC1, writes below
/// 0x8000 are bank-switch commands: 0x0000..0x2000 gates RAM (low nibble
/// 0xA enables), 0x2000..0x4000 sets the 5-bit ROM bank (0 becomes 1),
/// 0x4000..0x6000 sets the RAM bank (2 bits), 0x6000..0x8000 sets the
/// banking mode (1 bit). Writes to 0xA000..0xC000 land in external RAM when
/// it is enabled and the index is in range.
pub open spec fn cart_write_spec(c: CartV, addr: u16, data: u8) -> CartV {
    if !is_mbc1(c.kind) {
        c
    } else if addr < 0x2000 {
        CartV { ram_enable: data % 16 == 0x0A, ..c }
    } else if addr < 0x4000 {
        CartV { rom_bank: if data % 32 == 0 { 1 } else { data % 32 }, ..c }
    } else if addr < 0x6000 {
        CartV { ram_bank: data % 4, ..c }
    } else if addr < 0x8000 {
        CartV { bank_mode: data % 2, ..c }
    } else if 0xA000 <= addr < 0xC000 && c.ram_enable {
        let idx = active_ram_bank(c) * 0x2000 + (addr - 0xA000);
        if idx < c.ram.len() {
            CartV { ram: c.ram.update(idx as int, data), ..c }
        } else {
            c
        }
    } else {
        c
    }
}

/// Number of external-RAM bytes selected by the header RAM-size code.
pub open spec fn spec_ram_size_bytes(code: u8) -> usize {
    if code == 0x02 {
        0x2000
    } else if code == 0x03 {
        0x8000
    } else if code == 0x04 {
        0x20000
    } else if code == 0x05 {
        0x10000
    } else {
        0
    }
}

/// The header checksum over bytes 0x134..i, computed as
/// `c := c - byte - 1` with 8-bit wraparound.
pub open spec fn checksum_upto(rom: Seq<u8>, i: int) -> u8
    decreases i,
{
    if i <= 0x134 {
        0
    } else {
        ((checksum_upto(rom, i - 1) - rom[i - 1] - 1) % 256) as u8
    }
}

/// The cartridge state `load_rom` establishes for a given image.
pub open spec fn loaded_cart(bytes: Seq<u8>) -> CartV {
    CartV {
        rom: bytes,
        ram: Seq::new(
            spec_ram_size_bytes(if bytes.len() > 0x149 { bytes[0x149] } else { 0 }) as nat,
            |i: int| 0u8,
        ),
        kind: if bytes.len() > 0x147 { bytes[0x147] } else { 0 },
        rom_bank: 1,
        ram_bank: 0,
        ram_enable: false,
        bank_mode: 0,
    }
}

impl Cartridge {
    /// An empty cartridge: no image, no RAM, ROM-only controller.
    pub fn new() -> (c: Cartridge)
        ensures
            c@ == (CartV {
                rom: Seq::<u8>::empty(),
                ram: Seq::<u8>::empty(),
                kind: 0u8,
                rom_bank: 1u8,
                ram_bank: 0u8,
                ram_enable: false,
                bank_mode: 0u8,
            }),
    {
        let c = Cartridge {
            rom: Vec::new(),
            ram: Vec::new(),
            kind: 0,
            rom_bank: 1,
            ram_bank: 0,
            ram_enable: false,
            bank_mode: 0,
        };
        proof {
            assert(c@.rom =~= Seq::<u8>::empty());
            assert(c@.ram =~= Seq::<u8>::empty());
        }
        c
    }

    /// Adopt a ROM image: decode the cartridge type and RAM size from the
    /// header and reset the banking state.
    pub fn load_rom(&mut self, bytes: Vec<u8>)
        ensures
            final(self)@ == loaded_cart(bytes@),
    {
        let kind = if bytes.len() > 0x147 { bytes[0x147] } else { 0 };
        let ram_code = if bytes.len() > 0x149 { bytes[0x149] } else { 0 };
        let ram_len = ram_size_bytes(ram_code);
        self.rom = bytes;
        self.ram = vec![0u8; ram_len];
        self.kind = kind;
        self.rom_bank = 1;
        self.ram_bank = 0;
        self.ram_enable = false;
        self.bank_mode = 0;
        proof {
            assert(self@.ram =~= loaded_cart(self.rom@).ram);
        }
    }

    /// Read one byte through the cartridge's address decoding.
    pub fn read(&self, addr: u16) -> (data: u8)
        ensures
            data == cart_read_spec(self@, addr),
    {
        if addr < 0x4000 {
            if (addr as usize) < self.rom.len() {
                self.rom[addr as usize]
            } else {
                0xFF
            }
        } else if addr < 0x8000 {
            let idx: usize = (self.rom_bank as usize) * 0x4000 + (addr as usize - 0x4000);
            if idx < self.rom.len() {
                self.rom[idx]
            } else {
                0xFF
            }
        } else if 0xA000 <= addr && addr < 0xC000 {
            if self.ram_enable {
                let bank: u8 = if self.bank_mode == 1 { self.ram_bank } else { 0 };
                let idx: usize = (bank as usize) * 0x2000 + (addr as usize - 0xA000);
                if idx < self.ram.len() {
                    self.ram[idx]
                } else {
                    0xFF
                }
            } else {
                0xFF
            }
        } else {
            0xFF
        }
    }

    /// Accept one write: a bank-switch command or an external-RAM store.
    pub fn write(&mut self, addr: u16, data: u8)
        ensures
            final(self)@ == cart_write_spec(old(self)@, addr, data),
    {
        if !(1 <= self.kind && self.kind <= 3) {
            return;
        }
        if addr < 0x2000 {
            self.ram_enable = data % 16 == 0x0A;
        } else if addr < 0x4000 {
            let low = data % 32;
            self.rom_bank = if low == 0 { 1 } else { low };
        } else if addr < 0x6000 {
            self.ram_bank = data % 4;
        } else if addr < 0x8000 {
            self.bank_mode = data % 2;
        } else if 0xA000 <= addr && addr < 0xC000 && self.ram_enable {
            let bank: u8 = if self.bank_mode == 1 { self.ram_bank } else { 0 };
            let idx: usize = (bank as usize) * 0x2000 + (addr as usize - 0xA000);
            if idx < self.ram.len() {
                self.ram[idx] = data;
            }
        }
    }

    /// The sixteen title bytes at 0x134..0x144, or empty if the image is
    /// too short to hold them.
    pub fn game_title(&self) -> (title: Vec<u8>)
        ensures
            self@.rom.len() >= 0x144 ==> title@ == self@.rom.subrange(0x134, 0x144),
            self@.rom.len() < 0x144 ==> title@ == Seq::<u8>::empty(),
    {
        let mut title: Vec<u8> = Vec::new();
        if self.rom.len() < 0x144 {
            proof {
                assert(title@ =~= Seq::<u8>::empty());
            }
            return title;
        }
        let mut i: usize = 0x134;
        while i < 0x144
            invariant
                0x134 <= i <= 0x144,
                self@.rom.len() >= 0x144,
                title@ == self@.rom.subrange(0x134, i as int),
            decreases 0x144 - i,
        {
            title.push(self.rom[i]);
            i += 1;
            proof {
                assert(title@ =~= self@.rom.subrange(0x134, i as int));
            }
        }
        title
    }

    /// The header checksum over 0x134..=0x14C, or None if the image is too
    /// short to hold the header.
    pub fn compute_header_checksum(&self) -> (r: Option<u8>)
        ensures
            self@.rom.len() >= 0x14D ==> r == Some(checksum_upto(self@.rom, 0x14D)),
            self@.rom.len() < 0x14D ==> r is None,
    {
        if self.rom.len() < 0x14D {
            return None;
        }
        let mut c: u8 = 0;
        let mut i: usize = 0x134;
        while i < 0x14D
            invariant
                0x134 <= i <= 0x14D,
                self@.rom.len() >= 0x14D,
                c == checksum_upto(self@.rom, i as int),
            decreases 0x14D - i,
        {
            let b = self.rom[i];
            c = ((c as u16 + 512 - b as u16 - 1) % 256) as u8;
            i += 1;
        }
        Some(c)
    }

    /// Whether the computed header checksum matches the byte at 0x14D.
    /// The mismatch is reported, never enforced.
    pub fn header_checksum_ok(&self) -> (r: Option<bool>)
        ensures
            self@.rom.len() >= 0x14E ==> r == Some(
                checksum_upto(self@.rom, 0x14D) == self@.rom[0x14D],
            ),
            self@.rom.len() < 0x14E ==> r is None,
    {
        if self.rom.len() < 0x14E {
            return None;
        }
        let computed = self.compute_header_checksum();
        match computed {
            Some(c) => Some(c == self.rom[0x14D]),
            None => None,
        }
    }

    /// Length of the ROM image in bytes.
    pub fn rom_len(&self) -> (n: usize)
        ensures
            n == self@.rom.len(),
    {
        self.rom.len()
    }
}

/// Number of external-RAM bytes selected by the header RAM-size code.
pub fn ram_size_bytes(code: u8) -> (n: usize)
    ensures
        n == spec_ram_size_bytes(code),
{
    if code == 0x02 {
        0x2000
    } else if code == 0x03 {
        0x8000
    } else if code == 0x04 {
        0x20000
    } else if code == 0x05 {
        0x10000
    } else {
        0
    }
}

/// Display text for the header ROM-size code at 0x148.
pub fn get_rom_size(code: u8) -> (s: &'static str)
    ensures
        code == 0x00 ==> s@ == "32 KiB (2 ROM banks)"@,
        code == 0x01 ==> s@ == "64 KiB (4 ROM banks)"@,
        code == 0x02 ==> s@ == "128 KiB (8 ROM banks)"@,
        code == 0x03 ==> s@ == "256 KiB (16 ROM banks)"@,
        code == 0x04 ==> s@ == "512 KiB (32 ROM banks)"@,
        code == 0x05 ==> s@ == "1 MiB (64 ROM banks)"@,
        code == 0x06 ==> s@ == "2 MiB (128 ROM banks)"@,
        code == 0x07 ==> s@ == "4 MiB (256 ROM banks)"@,
        code == 0x08 ==> s@ == "8 MiB (512 ROM banks)"@,
        code == 0x52 ==> s@ == "1.1 MiB (72 ROM banks)"@,
        code == 0x53 ==> s@ == "1.2 MiB (80 ROM banks)"@,
        code == 0x54 ==> s@ == "1.5 MiB (96 ROM banks)"@,
        !(code <= 0x08 || code == 0x52 || code == 0x53 || code == 0x54) ==> s@ == "Unknown"@,
{
    match code {
        0x00 => "32 KiB (2 ROM banks)",
        0x01 => "64 KiB (4 ROM banks)",
        0x02 => "128 KiB (8 ROM banks)",
        0x03 => "256 KiB (16 ROM banks)",
        0x04 => "512 KiB (32 ROM banks)",
        0x05 => "1 MiB (64 ROM banks)",
        0x06 => "2 MiB (128 ROM banks)",
        0x07 => "4 MiB (256 ROM banks)",
        0x08 => "8 MiB (512 ROM banks)",
        0x52 => "1.1 MiB (72 ROM banks)",
        0x53 => "1.2 MiB (80 ROM banks)",
        0x54 => "1.5 MiB (96 ROM banks)",
        _ => "Unknown",
    }
}

/// Display text for the header RAM-size code at 0x149.
pub fn get_ram_size(code: u8) -> (s: &'static str)
    ensures
        code == 0x00 ==> s@ == "No RAM"@,
        code == 0x01 ==> s@ == "Unused"@,
        code == 0x02 ==> s@ == "8 KiB (1 bank)"@,
        code == 0x03 ==> s@ == "32 KiB (4 banks of 8 KiB each)"@,
        code == 0x04 ==> s@ == "128 KiB (16 banks of 8 KiB each)"@,
        code == 0x05 ==> s@ == "64 KiB (8 banks of 8 KiB each)"@,
        code > 0x05 ==> s@ == "Unknown"@,
{
    match code {
        0x00 => "No RAM",
        0x01 => "Unused",
        0x02 => "8 KiB (1 bank)",
        0x03 => "32 KiB (4 banks of 8 KiB each)",
        0x04 => "128 KiB (16 banks of 8 KiB each)",
        0x05 => "64 KiB (8 banks of 8 KiB each)",
        _ => "Unknown",
    }
}

/// Display text for the header destination code at 0x14A.
pub fn get_destination(code: u8) -> (s: &'static str)
    ensures
        code == 0x00 ==> s@ == "Japan (and possibly overseas)"@,
        code == 0x01 ==> s@ == "Overseas only"@,
        code > 0x01 ==> s@ == "Unknown"@,
{
    match code {
        0x00 => "Japan (and possibly overseas)",
        0x01 => "Overseas only",
        _ => "Unknown",
    }
}

} // verus!
