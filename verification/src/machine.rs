use vstd::prelude::*;

use crate::cpu::Cpu;
use crate::cpu::CpuStep;
use crate::errors::EmuError;
use crate::model::DOTS_PER_FRAME;
use crate::model::MachineView;
use crate::model::NMI_VECTOR;
use crate::model::ack_spec;
use crate::model::cpu_step_spec;
use crate::model::decode_spec;
use crate::model::initial_view;
use crate::model::master_step_spec;
use crate::model::ppu_step_spec;
use crate::model::push_spec;
use crate::model::read16_spec;
use crate::model::read_spec;
use crate::model::write_spec;
use crate::rom::Rom;

verus! {

/// The machine aggregate: the single owner of the register file, the
/// working RAM, the program ROM, and the suspended-computation state of
/// both steppers.
pub struct Nes {
    /// The register file shared (in turn, never concurrently) by the CPU
    /// stepper and the video clock stepper.
    pub cpu: Cpu,
    /// Working RAM, `RAM_SIZE` bytes, zeroed at power-up.
    pub ram: Vec<u8>,
    /// The program ROM.
    pub rom: Rom,
    /// Where the CPU stepper resumes at its next cycle.
    pub cpu_state: CpuStep,
    /// Frame-local dot index where the video clock stepper resumes.
    pub ppu_dot: u32,
    /// Completed frames of the video clock.
    pub ppu_frame: u64,
}

impl View for Nes {
    type V = MachineView;

    open spec fn view(&self) -> MachineView {
        MachineView {
            cpu: self.cpu,
            ram: self.ram@,
            rom: self.rom.prg_rom@,
            step: self.cpu_state,
            dot: self.ppu_dot,
            frame: self.ppu_frame,
        }
    }
}

impl Nes {
    /// Well-formedness of the machine: the fixed region sizes and a
    /// frame-local dot counter. Established at power-up, preserved by
    /// every step.
    pub open spec fn wf(&self) -> bool {
        crate::model::wf(self@)
    }

    /// Powers up a machine around the given 16 KiB ROM: registers from the
    /// fixed initial-state table, the program counter from the reset
    /// vector, RAM zeroed, both steppers at their starting points.
    pub fn from_rom(rom: Rom) -> (r: Nes)
        requires
            rom.prg_rom@.len() == 0x4000,
        ensures
            r@ == initial_view(rom.prg_rom@),
            r.wf(),
    {
        let lo = rom.prg_rom[0x3FFC];
        let hi = rom.prg_rom[0x3FFD];
        let pc: u16 = (lo as u16) + 256 * (hi as u16);
        let cpu = Cpu { pc, a: 0, x: 0, y: 0, s: 0xFD, p: 0x34, nmi: false };
        let mut ram: Vec<u8> = Vec::new();
        while ram.len() < 0x0800
            invariant
                ram@.len() <= 0x0800,
                forall|i: int| 0 <= i < ram@.len() ==> ram@[i] == 0u8,
            decreases 0x0800 - ram@.len(),
        {
            ram.push(0);
        }
        let r = Nes { cpu, ram, rom, cpu_state: CpuStep::Fetch, ppu_dot: 0, ppu_frame: 0 };
        proof {
            assert(r@.ram =~= Seq::new(0x0800nat, |i: int| 0u8));
            assert(r@ =~= initial_view(r.rom.prg_rom@));
        }
        r
    }

    /// Resolves one bus read: RAM through the mirror rule, ROM through the
    /// mirror rule, `UnmappedAddress` between the windows. No side effect.
    pub fn read_u8(&self, addr: u16) -> (r: Result<u8, EmuError>)
        requires
            self.wf(),
        ensures
            r == read_spec(self@, addr),
    {
        if addr < 0x0800 {
            let idx: usize = (addr as usize) % self.ram.len();
            Ok(self.ram[idx])
        } else if addr >= 0x8000 {
            let idx: usize = ((addr - 0x8000) as usize) % self.rom.prg_rom.len();
            Ok(self.rom.prg_rom[idx])
        } else {
            Err(EmuError::UnmappedAddress(addr))
        }
    }

    /// Little-endian 16-bit bus read; the increment to the second address
    /// wraps at the 16-bit boundary, not at a page boundary.
    pub fn read_u16(&self, addr: u16) -> (r: Result<u16, EmuError>)
        requires
            self.wf(),
        ensures
            r == read16_spec(self@, addr),
    {
        let lo = match self.read_u8(addr) {
            Ok(b) => b,
            Err(e) => {
                return Err(e);
            },
        };
        let next: u16 = if addr == 0xFFFF {
            0
        } else {
            addr + 1
        };
        let hi = match self.read_u8(next) {
            Ok(b) => b,
            Err(e) => {
                return Err(e);
            },
        };
        Ok((lo as u16) + 256 * (hi as u16))
    }

    /// Resolves one bus write: mutates the mirrored RAM cell, silently
    /// discards a write into the ROM window, fails between the windows.
    pub fn write_u8(&mut self, addr: u16, value: u8) -> (r: Result<(), EmuError>)
        requires
            old(self).wf(),
        ensures
            final(self).wf(),
            r == write_spec(old(self)@, addr, value).0,
            final(self)@ == write_spec(old(self)@, addr, value).1,
    {
        if addr < 0x0800 {
            let idx: usize = (addr as usize) % self.ram.len();
            self.ram[idx] = value;
            proof {
                assert(self@ =~= write_spec(old(self)@, addr, value).1);
            }
            Ok(())
        } else if addr >= 0x8000 {
            Ok(())
        } else {
            Err(EmuError::UnmappedAddress(addr))
        }
    }

    /// Pushes one byte onto the stack page and wraps the stack pointer
    /// down by one.
    fn push(&mut self, value: u8)
        requires
            old(self).wf(),
        ensures
            final(self).wf(),
            final(self)@ == push_spec(old(self)@, value),
    {
        let idx: usize = 0x0100 + (self.cpu.s as usize);
        self.ram[idx] = value;
        self.cpu.s = if self.cpu.s == 0 {
            0xFF
        } else {
            self.cpu.s - 1
        };
        proof {
            assert(self@ =~= push_spec(old(self)@, value));
        }
    }

    /// The interrupt-acknowledge sequence, run at an instruction boundary
    /// when the pending flag is set: push the program counter and the
    /// adjusted status byte, set the interrupt-disable flag, load the
    /// program counter from the interrupt vector, drop the pending flag.
    fn acknowledge_interrupt(&mut self)
        requires
            old(self).wf(),
        ensures
            final(self).wf(),
            final(self)@ == ack_spec(old(self)@),
    {
        let pch: u8 = (self.cpu.pc / 256) as u8;
        let pcl: u8 = (self.cpu.pc % 256) as u8;
        self.push(pch);
        self.push(pcl);
        let status: u8 = (self.cpu.p | 0x20) & 0xEF;
        self.push(status);
        self.cpu.p = self.cpu.p | 0x04;
        let target = match self.read_u16(NMI_VECTOR) {
            Ok(t) => t,
            Err(_) => {
                proof {
                    assert(false);
                }
                0
            },
        };
        self.cpu.pc = target;
        self.cpu.clear_interrupt();
        proof {
            assert(self@ =~= ack_spec(old(self)@));
        }
    }

    /// One clock cycle of the CPU stepper: resumes at the recorded
    /// micro-step, performs exactly that cycle's bus activity and register
    /// mutation, and suspends again. A fault (`UnimplementedOpcode` or
    /// `UnmappedAddress`) is fatal: the stepper stays where it stands and
    /// every further cycle returns the same fault.
    pub fn run_cpu(&mut self) -> (r: Result<(), EmuError>)
        requires
            old(self).wf(),
        ensures
            final(self).wf(),
            r == cpu_step_spec(old(self)@).0,
            final(self)@ == cpu_step_spec(old(self)@).1,
    {
        match self.cpu_state {
            CpuStep::Fetch => {
                if self.cpu.interrupt_pending() {
                    self.acknowledge_interrupt();
                }
                let op = match self.read_u8(self.cpu.pc) {
                    Ok(b) => b,
                    Err(e) => {
                        return Err(e);
                    },
                };
                self.cpu.pc = if self.cpu.pc == 0xFFFF {
                    0
                } else {
                    self.cpu.pc + 1
                };
                self.cpu_state = decode(op);
                proof {
                    assert(self@ =~= cpu_step_spec(old(self)@).1);
                }
                Ok(())
            },
            CpuStep::LdaImm => {
                let value = match self.read_u8(self.cpu.pc) {
                    Ok(b) => b,
                    Err(e) => {
                        return Err(e);
                    },
                };
                self.cpu.pc = if self.cpu.pc == 0xFFFF {
                    0
                } else {
                    self.cpu.pc + 1
                };
                self.cpu.a = value;
                self.cpu_state = CpuStep::Fetch;
                proof {
                    assert(self@ =~= cpu_step_spec(old(self)@).1);
                }
                Ok(())
            },
            CpuStep::AdcImm => {
                let value = match self.read_u8(self.cpu.pc) {
                    Ok(b) => b,
                    Err(e) => {
                        return Err(e);
                    },
                };
                self.cpu.pc = if self.cpu.pc == 0xFFFF {
                    0
                } else {
                    self.cpu.pc + 1
                };
                self.cpu.a = (((self.cpu.a as u16) + (value as u16)) % 256) as u8;
                self.cpu_state = CpuStep::Fetch;
                proof {
                    assert(self@ =~= cpu_step_spec(old(self)@).1);
                }
                Ok(())
            },
            CpuStep::Tax => {
                match self.read_u8(self.cpu.pc) {
                    Ok(_) => (),
                    Err(e) => {
                        return Err(e);
                    },
                };
                self.cpu.x = self.cpu.a;
                self.cpu_state = CpuStep::Fetch;
                proof {
                    assert(self@ =~= cpu_step_spec(old(self)@).1);
                }
                Ok(())
            },
            CpuStep::StxZp => {
                let lo = match self.read_u8(self.cpu.pc) {
                    Ok(b) => b,
                    Err(e) => {
                        return Err(e);
                    },
                };
                self.cpu.pc = if self.cpu.pc == 0xFFFF {
                    0
                } else {
                    self.cpu.pc + 1
                };
                self.cpu_state = CpuStep::StxZpWrite { addr: lo };
                proof {
                    assert(self@ =~= cpu_step_spec(old(self)@).1);
                }
                Ok(())
            },
            CpuStep::StxZpWrite { addr } => {
                let idx: usize = addr as usize;
                self.ram[idx] = self.cpu.x;
                self.cpu_state = CpuStep::Fetch;
                proof {
                    assert(self@ =~= cpu_step_spec(old(self)@).1);
                }
                Ok(())
            },
            CpuStep::LdaZp => {
                let lo = match self.read_u8(self.cpu.pc) {
                    Ok(b) => b,
                    Err(e) => {
                        return Err(e);
                    },
                };
                self.cpu.pc = if self.cpu.pc == 0xFFFF {
                    0
                } else {
                    self.cpu.pc + 1
                };
                self.cpu_state = CpuStep::LdaZpRead { addr: lo };
                proof {
                    assert(self@ =~= cpu_step_spec(old(self)@).1);
                }
                Ok(())
            },
            CpuStep::LdaZpRead { addr } => {
                let idx: usize = addr as usize;
                self.cpu.a = self.ram[idx];
                self.cpu_state = CpuStep::Fetch;
                proof {
                    assert(self@ =~= cpu_step_spec(old(self)@).1);
                }
                Ok(())
            },
            CpuStep::JmpAbs => {
                let lo = match self.read_u8(self.cpu.pc) {
                    Ok(b) => b,
                    Err(e) => {
                        return Err(e);
                    },
                };
                self.cpu.pc = if self.cpu.pc == 0xFFFF {
                    0
                } else {
                    self.cpu.pc + 1
                };
                self.cpu_state = CpuStep::JmpAbsHi { lo };
                proof {
                    assert(self@ =~= cpu_step_spec(old(self)@).1);
                }
                Ok(())
            },
            CpuStep::JmpAbsHi { lo } => {
                let hi = match self.read_u8(self.cpu.pc) {
                    Ok(b) => b,
                    Err(e) => {
                        return Err(e);
                    },
                };
                self.cpu.pc = (lo as u16) + 256 * (hi as u16);
                self.cpu_state = CpuStep::Fetch;
                proof {
                    assert(self@ =~= cpu_step_spec(old(self)@).1);
                }
                Ok(())
            },
            CpuStep::Illegal { op } => Err(EmuError::UnimplementedOpcode(op)),
        }
    }

    /// One dot of the video clock stepper: raises the pending-interrupt
    /// flag at frame-local dot index 1 (the deliberate hardware quirk:
    /// the second dot after wraparound, not dot 0), then advances the
    /// nested dot/frame counter and suspends.
    pub fn run_ppu(&mut self)
        requires
            old(self).wf(),
        ensures
            final(self).wf(),
            final(self)@ == ppu_step_spec(old(self)@),
    {
        if self.ppu_dot == 1 {
            self.cpu.raise_interrupt();
        }
        if self.ppu_dot + 1 == DOTS_PER_FRAME {
            self.ppu_dot = 0;
            self.ppu_frame = if self.ppu_frame == 0xFFFF_FFFF_FFFF_FFFF {
                0
            } else {
                self.ppu_frame + 1
            };
        } else {
            self.ppu_dot = self.ppu_dot + 1;
        }
        proof {
            assert(self@ =~= ppu_step_spec(old(self)@));
        }
    }

    /// One master cycle of the co-scheduler: the CPU stepper's cycle runs
    /// and fully completes first, then the video clock advances exactly
    /// three dots — the fixed 1 : 3 cadence. A CPU fault ends the master
    /// cycle at once, before any dot.
    pub fn run(&mut self) -> (r: Result<(), EmuError>)
        requires
            old(self).wf(),
        ensures
            final(self).wf(),
            r == master_step_spec(old(self)@).0,
            final(self)@ == master_step_spec(old(self)@).1,
    {
        match self.run_cpu() {
            Ok(_) => (),
            Err(e) => {
                return Err(e);
            },
        };
        self.run_ppu();
        self.run_ppu();
        self.run_ppu();
        Ok(())
    }
}

/// Which micro-step sequence an opcode byte decodes into.
fn decode(op: u8) -> (s: CpuStep)
    ensures
        s == decode_spec(op),
{
    match op {
        0xA9 => CpuStep::LdaImm,
        0x69 => CpuStep::AdcImm,
        0xAA => CpuStep::Tax,
        0x86 => CpuStep::StxZp,
        0xA5 => CpuStep::LdaZp,
        0x4C => CpuStep::JmpAbs,
        _ => CpuStep::Illegal { op },
    }
}

} // verus!
