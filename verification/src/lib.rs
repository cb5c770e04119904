//! Core of a Game Boy (DMG) emulator: an instruction-stepped SM83 CPU, a
//! scanline-granular pixel processing unit, and the shared address bus that
//! mediates between them, the cartridge, and the memory-mapped registers.
//!
//! The crate is organised leaves-first: `register` holds the CPU register
//! file, `cartridge` the ROM image and memory-bank controller, `ppu` the
//! video state machine, `bus` the address decoder that ties them together,
//! `opcodes` the instruction decoder, `cpu` the register and memory
//! micro-operations, `interp` the instruction executor, and `emu` the
//! frame driver that keeps CPU and PPU in lock-step. `config` holds the
//! screen geometry and `laws` the system-wide theorems: register-pair
//! aliasing, the ALU flag table, the push/pop round trip, the bus
//! write/read discipline, the one-way boot latch, and the frame
//! periodicity of the PPU.

pub mod bus;
pub mod cartridge;
pub mod config;
pub mod cpu;
pub mod emu;
pub mod interp;
pub mod laws;
pub mod opcodes;
pub mod ppu;
pub mod register;
