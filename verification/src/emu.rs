//! The frame driver: owns the CPU and the bus, and advances them in
//! lock-step until one frame's worth of dots (70224) has been consumed.
//!
//! Each CPU instruction reports its cost in dots and the PPU is stepped by
//! exactly that many dots, so the two stay synchronised. A decoding error
//! pauses the emulation and is surfaced to the host.

use vstd::prelude::*;

use crate::bus::BUS;
use crate::bus::BusV;
use crate::bus::bus_read_spec;
use crate::cartridge::Cartridge;
use crate::cartridge::loaded_cart;
use crate::cpu::CPU;
use crate::cpu::CpuError;
use crate::cpu::pc_plus;
use crate::interp::exec_instr_spec;
use crate::opcodes::spec_decode;
use crate::ppu::ppu_step_n_spec;
use crate::register::Register;

verus! {

/// One frame is 70224 dots: 154 scanlines of 456 dots each.
pub const DOTS_PER_FRAME: u32 = 70224;

/// Whether the emulation is advancing, paused, or single-stepping.
#[derive(Debug, Clone, Copy, PartialEq, Eq, Structural)]
pub enum EmulationState {
    PAUSED,
    RUNNING,
    STEP,
}

/// A host-facing snapshot of the four condition flags.
#[derive(Debug, Clone, Copy, PartialEq, Eq, Structural)]
pub struct EmuStateFlags {
    pub z: bool,
    pub h: bool,
    pub n: bool,
    pub c: bool,
}

/// A host-facing snapshot of the emulation: flags and run state.
#[derive(Debug, Clone, Copy, PartialEq, Eq, Structural)]
pub struct EmuState {
    pub flags: EmuStateFlags,
    pub emulation_state: EmulationState,
}

/// The machine at the end of a frame: registers, bus, the dots consumed,
/// and the decoding error that cut the frame short, if any.
pub struct FrameOut {
    pub r: Register,
    pub b: BusV,
    pub consumed: u32,
    pub err: Option<CpuError>,
}

/// Dots still to be consumed before the frame is complete.
pub open spec fn frame_measure(consumed: u32) -> int {
    if consumed < DOTS_PER_FRAME {
        DOTS_PER_FRAME - consumed
    } else {
        0
    }
}

/// The meaning of one frame step, instruction by instruction.
///
/// While fewer than 70224 dots are consumed: execute the instruction at
/// PC, hand its dot count to the PPU, and continue; an opcode with no
/// handler stops the frame with an error. Each instruction costs at least
/// 4 dots, so the frame ends.
pub open spec fn run_frame_spec(r: Register, b: BusV, consumed: u32) -> FrameOut
    decreases frame_measure(consumed),
        via run_frame_spec_decreases
{
    if consumed >= DOTS_PER_FRAME {
        FrameOut { r, b, consumed, err: None }
    } else {
        let op = bus_read_spec(b, r.pc);
        if spec_decode(op) is Illegal {
            FrameOut {
                r: pc_plus(r, 1),
                b,
                consumed,
                err: Some(CpuError { pc: r.pc, opcode: op }),
            }
        } else {
            let s = exec_instr_spec(spec_decode(op), pc_plus(r, 1), b);
            let b2 = BusV { ppu: ppu_step_n_spec(s.b.ppu, s.dots as nat), ..s.b };
            run_frame_spec(s.r, b2, (consumed + s.dots) as u32)
        }
    }
}

/// Every instruction costs between 4 and 24 dots, always a whole number
/// of M-cycles (multiples of 4 dots).
#[verifier::rlimit(100)]
pub proof fn lemma_dots_range(i: crate::opcodes::Instr, r: Register, b: BusV)
    ensures
        4 <= exec_instr_spec(i, r, b).dots <= 24,
        exec_instr_spec(i, r, b).dots % 4 == 0,
{
    reveal(exec_instr_spec);
}

#[via_fn]
proof fn run_frame_spec_decreases(r: Register, b: BusV, consumed: u32) {
    if consumed < DOTS_PER_FRAME {
        let op = bus_read_spec(b, r.pc);
        if !(spec_decode(op) is Illegal) {
            lemma_dots_range(spec_decode(op), pc_plus(r, 1), b);
        }
    }
}

/// The emulator: CPU, bus (with cartridge and PPU), and the run state.
pub struct EmuChan {
    pub cpu: CPU,
    pub bus: BUS,
    pub emulation_state: EmulationState,
    pub last_error: Option<CpuError>,
}

impl EmuChan {
    /// A paused emulator on a fresh machine.
    pub fn new() -> (e: EmuChan)
        ensures
            e.cpu.reg == (Register {
                a: 0u8, b: 0u8, c: 0u8, d: 0u8, e: 0u8, f: 0u8, h: 0u8, l: 0u8,
                pc: 0u16, sp: 0u16, ime: 0u8, ie: 0u8,
            }),
            e.cpu.cycles == 0,
            e.bus@ == crate::bus::initial_bus(),
            e.bus@.wf(),
            e.emulation_state is PAUSED,
            e.last_error is None,
    {
        EmuChan {
            cpu: CPU::new(),
            bus: BUS::new(),
            emulation_state: EmulationState::PAUSED,
            last_error: None,
        }
    }

    /// The current run state.
    pub fn emulation_state(&self) -> (s: EmulationState)
        ensures
            s == self.emulation_state,
    {
        self.emulation_state
    }

    /// The error that paused the emulation, if any.
    pub fn last_error(&self) -> (e: Option<CpuError>)
        ensures
            e == self.last_error,
    {
        self.last_error
    }

    /// Set the run state.
    pub fn set_state(&mut self, s: EmulationState)
        ensures
            final(self).emulation_state == s,
            final(self).cpu == old(self).cpu,
            final(self).bus == old(self).bus,
            final(self).last_error == old(self).last_error,
    {
        self.emulation_state = s;
    }

    /// Put a ROM image into a fresh cartridge on the bus.
    pub fn load_rom(&mut self, bytes: Vec<u8>)
        ensures
            final(self).bus@ == (BusV { cart: loaded_cart(bytes@), ..old(self).bus@ }),
            final(self).cpu == old(self).cpu,
            final(self).emulation_state == old(self).emulation_state,
            final(self).last_error == old(self).last_error,
    {
        let mut cart = Cartridge::new();
        cart.load_rom(bytes);
        self.bus.cartridge_connect(cart);
    }

    /// The sixteen title bytes from the cartridge header.
    pub fn get_game_title(&self) -> (title: Vec<u8>)
        ensures
            self.bus@.cart.rom.len() >= 0x144 ==> title@ == self.bus@.cart.rom.subrange(
                0x134,
                0x144,
            ),
            self.bus@.cart.rom.len() < 0x144 ==> title@ == Seq::<u8>::empty(),
    {
        self.bus.cartridge_ref().game_title()
    }

    /// The 160x144 buffer of palette indices the PPU last produced,
    /// each in 0..4.
    pub fn get_video_buffer(&self) -> (buf: &Vec<u8>)
        ensures
            buf@ == self.bus@.ppu.video,
            self.bus@.wf() ==> forall|i: int| 0 <= i < buf@.len() ==> buf@[i] < 4,
    {
        self.bus.ppu_ref().get_video_buffer()
    }

    /// A host-facing snapshot: the four condition flags and the run
    /// state.
    pub fn state_snapshot(&self) -> (s: EmuState)
        ensures
            s.flags.z == crate::register::z_flag(self.cpu.reg.f),
            s.flags.n == crate::register::n_flag(self.cpu.reg.f),
            s.flags.h == crate::register::h_flag(self.cpu.reg.f),
            s.flags.c == crate::register::c_flag(self.cpu.reg.f),
            s.emulation_state == self.emulation_state,
    {
        EmuState {
            flags: EmuStateFlags {
                z: self.cpu.reg.f / 128 % 2 == 1,
                n: self.cpu.reg.f / 64 % 2 == 1,
                h: self.cpu.reg.f / 32 % 2 == 1,
                c: self.cpu.reg.f / 16 % 2 == 1,
            },
            emulation_state: self.emulation_state,
        }
    }

    /// Advance the machine by one frame: execute instructions, feeding
    /// each one's dot count to the PPU, until 70224 dots have elapsed.
    ///
    /// Does nothing unless the emulation is RUNNING. A decoding error
    /// pauses the emulation and is kept for the host.
    #[verifier::rlimit(100)]
    pub fn run_one_frame(&mut self)
        requires
            old(self).bus@.wf(),
        ensures
            final(self).bus@.wf(),
            !(old(self).emulation_state is RUNNING) ==> *final(self) == *old(self),
            old(self).emulation_state is RUNNING ==> ({
                let fo = run_frame_spec(old(self).cpu.reg, old(self).bus@, 0);
                &&& final(self).cpu.reg == fo.r
                &&& final(self).bus@ == fo.b
                &&& final(self).last_error == fo.err
                &&& final(self).emulation_state == (if fo.err is Some {
                    EmulationState::PAUSED
                } else {
                    EmulationState::RUNNING
                })
                &&& (fo.err is None ==> DOTS_PER_FRAME <= fo.consumed < DOTS_PER_FRAME + 24)
            }),
    {
        if !matches!(self.emulation_state, EmulationState::RUNNING) {
            return;
        }
        self.last_error = None;
        let mut consumed: u32 = 0;
        while consumed < DOTS_PER_FRAME
            invariant
                self.bus@.wf(),
                consumed <= DOTS_PER_FRAME + 23,
                old(self).emulation_state is RUNNING,
                self.emulation_state is RUNNING,
                self.last_error is None,
                run_frame_spec(self.cpu.reg, self.bus@, consumed) == run_frame_spec(
                    old(self).cpu.reg,
                    old(self).bus@,
                    0,
                ),
            decreases frame_measure(consumed),
        {
            let ghost pre_r = self.cpu.reg;
            let ghost pre_b = self.bus@;
            let ghost pre_consumed = consumed;
            let step_res = self.cpu.step(&mut self.bus);
            match step_res {
                Err(e) => {
                    proof {
                        let op = bus_read_spec(pre_b, pre_r.pc);
                        assert(run_frame_spec(pre_r, pre_b, pre_consumed) == FrameOut {
                            r: pc_plus(pre_r, 1),
                            b: pre_b,
                            consumed: pre_consumed,
                            err: Some(CpuError { pc: pre_r.pc, opcode: op }),
                        });
                    }
                    self.emulation_state = EmulationState::PAUSED;
                    self.last_error = Some(e);
                    return;
                }
                Ok(dots) => {
                    consumed = consumed + dots;
                    self.bus.ppu_step_n(dots);
                    proof {
                        let op = bus_read_spec(pre_b, pre_r.pc);
                        let s = exec_instr_spec(spec_decode(op), pc_plus(pre_r, 1), pre_b);
                        assert(run_frame_spec(pre_r, pre_b, pre_consumed) == run_frame_spec(
                            s.r,
                            BusV { ppu: ppu_step_n_spec(s.b.ppu, s.dots as nat), ..s.b },
                            (pre_consumed + s.dots) as u32,
                        ));
                    }
                }
            }
        }
    }
}

} // verus!
