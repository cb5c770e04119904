//! The address bus: a flat 16-bit space multiplexed onto the boot-ROM
//! overlay, the cartridge, VRAM/OAM and the video registers of the PPU,
//! work RAM and its echo, the flat I/O byte store, high RAM, and the
//! interrupt-enable byte.
//!
//! The 256-byte boot overlay shadows 0x0000..0x0100 until the guest writes
//! to 0xFF50; that write latches one-way for the lifetime of the bus.

use vstd::prelude::*;

use crate::cartridge::Cartridge;
use crate::cartridge::CartV;
use crate::cartridge::cart_read_spec;
use crate::cartridge::cart_write_spec;
use crate::ppu::PPU;
use crate::ppu::PpuV;
use crate::ppu::initial_ppu;
use crate::ppu::ppu_read_spec;
use crate::ppu::ppu_step_n_spec;
use crate::ppu::ppu_write_spec;

verus! {

pub struct BUS {
    boot: Vec<u8>,
    wram: Vec<u8>,
    hram: Vec<u8>,
    io: Vec<u8>,
    ie: u8,
    boot_enabled: bool,
    cartridge: Cartridge,
    ppu: PPU,
}

/// Mathematical model of the bus and everything it owns.
pub struct BusV {
    pub boot: Seq<u8>,
    pub wram: Seq<u8>,
    pub hram: Seq<u8>,
    pub io: Seq<u8>,
    pub ie: u8,
    pub boot_enabled: bool,
    pub cart: CartV,
    pub ppu: PpuV,
}

impl View for BUS {
    type V = BusV;

    closed spec fn view(&self) -> BusV {
        BusV {
            boot: self.boot@,
            wram: self.wram@,
            hram: self.hram@,
            io: self.io@,
            ie: self.ie,
            boot_enabled: self.boot_enabled,
            cart: self.cartridge@,
            ppu: self.ppu@,
        }
    }
}

impl BusV {
    /// Well-formedness: fixed memory sizes and a well-formed PPU.
    pub open spec fn wf(self) -> bool {
        &&& self.boot.len() == 0x100
        &&& self.wram.len() == 0x2000
        &&& self.hram.len() == 0x7F
        &&& self.io.len() == 0x80
        &&& self.ppu.wf()
    }
}

/// The I/O registers the PPU answers for: 0xFF40..=0xFF45, 0xFF47..=0xFF4B.
pub open spec fn ppu_owns_io(addr: u16) -> bool {
    (0xFF40 <= addr <= 0xFF45) || (0xFF47 <= addr <= 0xFF4B)
}

/// The byte a bus read returns, by prefix match in address order: boot
/// overlay, cartridge ROM, VRAM, external RAM, WRAM, its echo, OAM, the
/// unusable range (0xFF), the I/O registers, HRAM, and IE.
pub open spec fn bus_read_spec(b: BusV, addr: u16) -> u8 {
    if addr < 0x100 && b.boot_enabled {
        b.boot[addr as int]
    } else if addr < 0x8000 {
        cart_read_spec(b.cart, addr)
    } else if addr < 0xA000 {
        ppu_read_spec(b.ppu, addr)
    } else if addr < 0xC000 {
        cart_read_spec(b.cart, addr)
    } else if addr < 0xE000 {
        b.wram[addr - 0xC000]
    } else if addr < 0xFE00 {
        b.wram[addr - 0xE000]
    } else if addr < 0xFEA0 {
        ppu_read_spec(b.ppu, addr)
    } else if addr < 0xFF00 {
        0xFF
    } else if addr < 0xFF80 {
        if ppu_owns_io(addr) {
            ppu_read_spec(b.ppu, addr)
        } else {
            b.io[addr - 0xFF00]
        }
    } else if addr < 0xFFFF {
        b.hram[addr - 0xFF80]
    } else {
        b.ie
    }
}

/// The bus after a write.
///
/// Writes under 0x8000 are bank-switch commands for the cartridge (no-ops
/// while the boot overlay still answers the address); 0xFEA0..0xFF00 is
/// ignored; a write to 0xFF50 with the latch clear hides the boot overlay
/// for good and later writes to it are ignored.
pub open spec fn bus_write_spec(b: BusV, addr: u16, data: u8) -> BusV {
    if addr < 0x100 && b.boot_enabled {
        b
    } else if addr < 0x8000 {
        BusV { cart: cart_write_spec(b.cart, addr, data), ..b }
    } else if addr < 0xA000 {
        BusV { ppu: ppu_write_spec(b.ppu, addr, data), ..b }
    } else if addr < 0xC000 {
        BusV { cart: cart_write_spec(b.cart, addr, data), ..b }
    } else if addr < 0xE000 {
        BusV { wram: b.wram.update(addr - 0xC000, data), ..b }
    } else if addr < 0xFE00 {
        BusV { wram: b.wram.update(addr - 0xE000, data), ..b }
    } else if addr < 0xFEA0 {
        BusV { ppu: ppu_write_spec(b.ppu, addr, data), ..b }
    } else if addr < 0xFF00 {
        b
    } else if addr == 0xFF50 {
        if b.boot_enabled {
            BusV { boot_enabled: false, io: b.io.update(0x50, data), ..b }
        } else {
            b
        }
    } else if addr < 0xFF80 {
        if ppu_owns_io(addr) {
            BusV { ppu: ppu_write_spec(b.ppu, addr, data), ..b }
        } else {
            BusV { io: b.io.update(addr - 0xFF00, data), ..b }
        }
    } else if addr < 0xFFFF {
        BusV { hram: b.hram.update(addr - 0xFF80, data), ..b }
    } else {
        BusV { ie: data, ..b }
    }
}

/// The bus state `BUS::new` establishes: cleared memories, the boot
/// overlay enabled, an empty cartridge, and a fresh PPU.
pub open spec fn initial_bus() -> BusV {
    BusV {
        boot: Seq::new(0x100, |i: int| 0u8),
        wram: Seq::new(0x2000, |i: int| 0u8),
        hram: Seq::new(0x7F, |i: int| 0u8),
        io: Seq::new(0x80, |i: int| 0u8),
        ie: 0,
        boot_enabled: true,
        cart: CartV {
            rom: Seq::<u8>::empty(),
            ram: Seq::<u8>::empty(),
            kind: 0,
            rom_bank: 1,
            ram_bank: 0,
            ram_enable: false,
            bank_mode: 0,
        },
        ppu: initial_ppu(),
    }
}

impl BUS {
    /// A bus with cleared memories, the boot overlay enabled, an empty
    /// cartridge and a fresh PPU.
    pub fn new() -> (b: BUS)
        ensures
            b@ == initial_bus(),
            b@.wf(),
    {
        let b = BUS {
            boot: vec![0u8; 0x100],
            wram: vec![0u8; 0x2000],
            hram: vec![0u8; 0x7F],
            io: vec![0u8; 0x80],
            ie: 0,
            boot_enabled: true,
            cartridge: Cartridge::new(),
            ppu: PPU::new(),
        };
        proof {
            assert(b@.boot =~= initial_bus().boot);
            assert(b@.wram =~= initial_bus().wram);
            assert(b@.hram =~= initial_bus().hram);
            assert(b@.io =~= initial_bus().io);
        }
        b
    }

    /// Read one byte through the address decoder.
    pub fn read(&self, addr: u16) -> (data: u8)
        requires
            self@.wf(),
        ensures
            data == bus_read_spec(self@, addr),
    {
        if addr < 0x100 && self.boot_enabled {
            self.boot[addr as usize]
        } else if addr < 0x8000 {
            self.cartridge.read(addr)
        } else if addr < 0xA000 {
            self.ppu.read(addr)
        } else if addr < 0xC000 {
            self.cartridge.read(addr)
        } else if addr < 0xE000 {
            self.wram[(addr - 0xC000) as usize]
        } else if addr < 0xFE00 {
            self.wram[(addr - 0xE000) as usize]
        } else if addr < 0xFEA0 {
            self.ppu.read(addr)
        } else if addr < 0xFF00 {
            0xFF
        } else if addr < 0xFF80 {
            if (0xFF40 <= addr && addr <= 0xFF45) || (0xFF47 <= addr && addr <= 0xFF4B) {
                self.ppu.read(addr)
            } else {
                self.io[(addr - 0xFF00) as usize]
            }
        } else if addr < 0xFFFF {
            self.hram[(addr - 0xFF80) as usize]
        } else {
            self.ie
        }
    }

    /// Write one byte through the address decoder.
    pub fn write(&mut self, addr: u16, data: u8)
        requires
            old(self)@.wf(),
        ensures
            final(self)@ == bus_write_spec(old(self)@, addr, data),
            final(self)@.wf(),
    {
        if addr < 0x100 && self.boot_enabled {
            return;
        }
        if addr < 0x8000 {
            self.cartridge.write(addr, data);
        } else if addr < 0xA000 {
            self.ppu.write(addr, data);
        } else if addr < 0xC000 {
            self.cartridge.write(addr, data);
        } else if addr < 0xE000 {
            self.wram[(addr - 0xC000) as usize] = data;
        } else if addr < 0xFE00 {
            self.wram[(addr - 0xE000) as usize] = data;
        } else if addr < 0xFEA0 {
            self.ppu.write(addr, data);
        } else if addr < 0xFF00 {
        } else if addr == 0xFF50 {
            if self.boot_enabled {
                self.boot_enabled = false;
                self.io[0x50] = data;
            }
        } else if addr < 0xFF80 {
            if (0xFF40 <= addr && addr <= 0xFF45) || (0xFF47 <= addr && addr <= 0xFF4B) {
                self.ppu.write(addr, data);
            } else {
                self.io[(addr - 0xFF00) as usize] = data;
            }
        } else if addr < 0xFFFF {
            self.hram[(addr - 0xFF80) as usize] = data;
        } else {
            self.ie = data;
        }
    }

    /// Put a cartridge on the bus.
    pub fn cartridge_connect(&mut self, cart: Cartridge)
        ensures
            final(self)@ == (BusV { cart: cart@, ..old(self)@ }),
    {
        self.cartridge = cart;
    }

    /// Install the 256-byte boot program that overlays 0x0000..0x0100.
    pub fn load_boot_rom(&mut self, boot: Vec<u8>)
        requires
            boot@.len() == 0x100,
        ensures
            final(self)@ == (BusV { boot: boot@, ..old(self)@ }),
    {
        self.boot = boot;
    }

    /// The cartridge currently on the bus.
    pub fn cartridge_ref(&self) -> (c: &Cartridge)
        ensures
            c@ == self@.cart,
    {
        &self.cartridge
    }

    /// The PPU on the bus.
    pub fn ppu_ref(&self) -> (p: &PPU)
        ensures
            p@ == self@.ppu,
    {
        &self.ppu
    }

    /// Hand the PPU `n` dots of simulated time.
    pub fn ppu_step_n(&mut self, n: u32)
        requires
            old(self)@.wf(),
        ensures
            final(self)@ == (BusV { ppu: ppu_step_n_spec(old(self)@.ppu, n as nat), ..old(self)@ }),
            final(self)@.wf(),
    {
        self.ppu.step_n(n);
    }
}

} // verus!
