use vstd::prelude::*;

use crate::cpu::Cpu;
use crate::cpu::CpuStep;
use crate::errors::EmuError;

verus! {

/// Size of the working RAM region, in bytes.
pub const RAM_SIZE: usize = 0x0800;

/// Size of the program ROM region, in bytes.
pub const ROM_SIZE: usize = 0x4000;

/// First address of the ROM window; the window runs to the top of the
/// 16-bit address space and mirrors the ROM every `ROM_SIZE` bytes.
pub const ROM_BASE: u16 = 0x8000;

/// Base address of the stack page.
pub const STACK_BASE: u16 = 0x0100;

/// Address of the low byte of the interrupt vector.
pub const NMI_VECTOR: u16 = 0xFFFA;

/// Address of the low byte of the reset vector.
pub const RESET_VECTOR: u16 = 0xFFFC;

/// Dots per scanline of the video clock.
pub const DOTS_PER_SCANLINE: u32 = 341;

/// Scanlines per frame of the video clock.
pub const SCANLINES_PER_FRAME: u32 = 262;

/// Dots per frame: 341 * 262.
pub const DOTS_PER_FRAME: u32 = DOTS_PER_SCANLINE * SCANLINES_PER_FRAME;

/// The mathematical state of the whole machine: registers, memory
/// contents, and where each stepper stands. Every contract of the
/// executable machine speaks of this view.
#[verifier::ext_equal]
pub ghost struct MachineView {
    /// The register file.
    pub cpu: Cpu,
    /// Contents of the working RAM.
    pub ram: Seq<u8>,
    /// Contents of the program ROM.
    pub rom: Seq<u8>,
    /// Where the CPU stepper stands inside the current instruction.
    pub step: CpuStep,
    /// Frame-local dot index of the video clock, below `DOTS_PER_FRAME`.
    pub dot: u32,
    /// Completed-frame counter of the video clock (wraps at 2^64).
    pub frame: u64,
}

/// Well-formedness of a machine state: the memory regions have their fixed
/// sizes and the dot counter is frame-local.
pub open spec fn wf(v: MachineView) -> bool {
    &&& v.ram.len() == RAM_SIZE
    &&& v.rom.len() == ROM_SIZE
    &&& v.dot < DOTS_PER_FRAME
}

/// Whether an address falls in a mapped window: RAM below `RAM_SIZE`, ROM
/// from `ROM_BASE` up.
pub open spec fn mapped(addr: u16) -> bool {
    addr < RAM_SIZE || ROM_BASE <= addr
}

/// 16-bit increment that wraps at the end of the address space.
pub open spec fn wrap_inc16(a: u16) -> u16 {
    if a == 0xFFFF {
        0u16
    } else {
        (a + 1) as u16
    }
}

/// 8-bit addition modulo 256.
pub open spec fn wrap_add8(a: u8, b: u8) -> u8 {
    ((a + b) % 256) as u8
}

/// 8-bit decrement that wraps below zero.
pub open spec fn wrap_dec8(a: u8) -> u8 {
    if a == 0 {
        0xFFu8
    } else {
        (a - 1) as u8
    }
}

/// 64-bit increment that wraps at 2^64.
pub open spec fn wrap_inc64(a: u64) -> u64 {
    if a == 0xFFFF_FFFF_FFFF_FFFF {
        0u64
    } else {
        (a + 1) as u64
    }
}

/// Little-endian composition of two bytes.
pub open spec fn u16_from(lo: u8, hi: u8) -> u16 {
    (lo + 256 * hi) as u16
}

/// What a bus read returns: the RAM byte through the RAM-mirror rule, the
/// ROM byte through the ROM-mirror rule, or `UnmappedAddress` between the
/// windows. Reads have no side effect.
pub open spec fn read_spec(v: MachineView, addr: u16) -> Result<u8, EmuError> {
    if addr < RAM_SIZE {
        Ok(v.ram[addr as int % (RAM_SIZE as int)])
    } else if ROM_BASE <= addr {
        Ok(v.rom[(addr - ROM_BASE) as int % (v.rom.len() as int)])
    } else {
        Err(EmuError::UnmappedAddress(addr))
    }
}

/// The state after a write into RAM through the mirror rule; only the one
/// RAM cell changes.
pub open spec fn ram_write(v: MachineView, addr: u16, value: u8) -> MachineView
    recommends
        addr < RAM_SIZE,
{
    MachineView { ram: v.ram.update(addr as int % (RAM_SIZE as int), value), ..v }
}

/// What a bus write does: mutates the mirrored RAM cell, silently discards
/// a write into the ROM window, and fails between the windows. The first
/// component is the outcome, the second the state after the write.
pub open spec fn write_spec(v: MachineView, addr: u16, value: u8) -> (Result<
    (),
    EmuError,
>, MachineView) {
    if addr < RAM_SIZE {
        (Ok(()), ram_write(v, addr, value))
    } else if ROM_BASE <= addr {
        (Ok(()), v)
    } else {
        (Err(EmuError::UnmappedAddress(addr)), v)
    }
}

/// What a 16-bit bus read returns: the little-endian composition of the
/// bytes at `addr` and `addr + 1`, the increment wrapping at the 16-bit
/// boundary (not at a page boundary).
pub open spec fn read16_spec(v: MachineView, addr: u16) -> Result<u16, EmuError> {
    match read_spec(v, addr) {
        Err(e) => Err(e),
        Ok(lo) => match read_spec(v, wrap_inc16(addr)) {
            Err(e) => Err(e),
            Ok(hi) => Ok(u16_from(lo, hi)),
        },
    }
}

/// The state after pushing one byte onto the stack page: the byte lands at
/// `STACK_BASE + s` and the stack pointer wraps down by one.
pub open spec fn push_spec(v: MachineView, value: u8) -> MachineView {
    let pushed = ram_write(v, (STACK_BASE + v.cpu.s) as u16, value);
    MachineView { cpu: Cpu { s: wrap_dec8(v.cpu.s), ..v.cpu }, ..pushed }
}

/// The status byte as the interrupt-acknowledge sequence pushes it: the
/// unused bit forced on, the break bit forced off.
pub open spec fn pushed_status(p: u8) -> u8 {
    (p | 0x20) & 0xEF
}

/// The interrupt-acknowledge sequence, performed at an instruction
/// boundary when the pending flag is set: push the program counter high
/// byte then low byte, push the adjusted status byte, set the
/// interrupt-disable flag, load the program counter from the interrupt
/// vector, and drop the pending flag.
pub open spec fn ack_spec(v: MachineView) -> MachineView
    recommends
        wf(v),
{
    let pch = (v.cpu.pc / 256) as u8;
    let pcl = (v.cpu.pc % 256) as u8;
    let v1 = push_spec(v, pch);
    let v2 = push_spec(v1, pcl);
    let v3 = push_spec(v2, pushed_status(v.cpu.p));
    let lo = v3.rom[(NMI_VECTOR - ROM_BASE) as int % (v3.rom.len() as int)];
    let hi = v3.rom[(NMI_VECTOR + 1 - ROM_BASE) as int % (v3.rom.len() as int)];
    MachineView {
        cpu: Cpu { pc: u16_from(lo, hi), p: v3.cpu.p | 0x04, nmi: false, ..v3.cpu },
        ..v3
    }
}

/// Which micro-step sequence an opcode byte decodes into; a byte outside
/// the implemented set decodes into the failing `Illegal` step.
pub open spec fn decode_spec(op: u8) -> CpuStep {
    if op == 0xA9 {
        CpuStep::LdaImm
    } else if op == 0x69 {
        CpuStep::AdcImm
    } else if op == 0xAA {
        CpuStep::Tax
    } else if op == 0x86 {
        CpuStep::StxZp
    } else if op == 0xA5 {
        CpuStep::LdaZp
    } else if op == 0x4C {
        CpuStep::JmpAbs
    } else {
        CpuStep::Illegal { op }
    }
}

/// One clock cycle of the CPU stepper: exactly the bus activity and
/// register mutation of that cycle, ending at the next suspend point. The
/// first component is the outcome (a fault is fatal), the second the state
/// at the suspend point.
pub open spec fn cpu_step_spec(v: MachineView) -> (Result<(), EmuError>, MachineView)
    recommends
        wf(v),
{
    match v.step {
        CpuStep::Fetch => {
            let va = if v.cpu.nmi {
                ack_spec(v)
            } else {
                v
            };
            match read_spec(va, va.cpu.pc) {
                Err(e) => (Err(e), va),
                Ok(op) => (
                    Ok(()),
                    MachineView {
                        cpu: Cpu { pc: wrap_inc16(va.cpu.pc), ..va.cpu },
                        step: decode_spec(op),
                        ..va
                    },
                ),
            }
        },
        CpuStep::LdaImm => {
            match read_spec(v, v.cpu.pc) {
                Err(e) => (Err(e), v),
                Ok(value) => (
                    Ok(()),
                    MachineView {
                        cpu: Cpu { pc: wrap_inc16(v.cpu.pc), a: value, ..v.cpu },
                        step: CpuStep::Fetch,
                        ..v
                    },
                ),
            }
        },
        CpuStep::AdcImm => {
            match read_spec(v, v.cpu.pc) {
                Err(e) => (Err(e), v),
                Ok(value) => (
                    Ok(()),
                    MachineView {
                        cpu: Cpu {
                            pc: wrap_inc16(v.cpu.pc),
                            a: wrap_add8(v.cpu.a, value),
                            ..v.cpu
                        },
                        step: CpuStep::Fetch,
                        ..v
                    },
                ),
            }
        },
        CpuStep::Tax => {
            match read_spec(v, v.cpu.pc) {
                Err(e) => (Err(e), v),
                Ok(_) => (
                    Ok(()),
                    MachineView {
                        cpu: Cpu { x: v.cpu.a, ..v.cpu },
                        step: CpuStep::Fetch,
                        ..v
                    },
                ),
            }
        },
        CpuStep::StxZp => {
            match read_spec(v, v.cpu.pc) {
                Err(e) => (Err(e), v),
                Ok(lo) => (
                    Ok(()),
                    MachineView {
                        cpu: Cpu { pc: wrap_inc16(v.cpu.pc), ..v.cpu },
                        step: CpuStep::StxZpWrite { addr: lo },
                        ..v
                    },
                ),
            }
        },
        CpuStep::StxZpWrite { addr } => (
            Ok(()),
            MachineView { step: CpuStep::Fetch, ..ram_write(v, addr as u16, v.cpu.x) },
        ),
        CpuStep::LdaZp => {
            match read_spec(v, v.cpu.pc) {
                Err(e) => (Err(e), v),
                Ok(lo) => (
                    Ok(()),
                    MachineView {
                        cpu: Cpu { pc: wrap_inc16(v.cpu.pc), ..v.cpu },
                        step: CpuStep::LdaZpRead { addr: lo },
                        ..v
                    },
                ),
            }
        },
        CpuStep::LdaZpRead { addr } => (
            Ok(()),
            MachineView {
                cpu: Cpu { a: v.ram[addr as int % (RAM_SIZE as int)], ..v.cpu },
                step: CpuStep::Fetch,
                ..v
            },
        ),
        CpuStep::JmpAbs => {
            match read_spec(v, v.cpu.pc) {
                Err(e) => (Err(e), v),
                Ok(lo) => (
                    Ok(()),
                    MachineView {
                        cpu: Cpu { pc: wrap_inc16(v.cpu.pc), ..v.cpu },
                        step: CpuStep::JmpAbsHi { lo },
                        ..v
                    },
                ),
            }
        },
        CpuStep::JmpAbsHi { lo } => {
            match read_spec(v, v.cpu.pc) {
                Err(e) => (Err(e), v),
                Ok(hi) => (
                    Ok(()),
                    MachineView {
                        cpu: Cpu { pc: u16_from(lo, hi), ..v.cpu },
                        step: CpuStep::Fetch,
                        ..v
                    },
                ),
            }
        },
        CpuStep::Illegal { op } => (Err(EmuError::UnimplementedOpcode(op)), v),
    }
}

/// One dot of the video clock stepper: raise the pending-interrupt flag on
/// the deliberate hardware quirk dot (frame-local index 1), then advance
/// the nested dot/frame counter.
pub open spec fn ppu_step_spec(v: MachineView) -> MachineView
    recommends
        wf(v),
{
    let cpu = if v.dot == 1 {
        Cpu { nmi: true, ..v.cpu }
    } else {
        v.cpu
    };
    if v.dot + 1 == DOTS_PER_FRAME {
        MachineView { cpu, dot: 0, frame: wrap_inc64(v.frame), ..v }
    } else {
        MachineView { cpu, dot: (v.dot + 1) as u32, ..v }
    }
}

/// One master cycle of the co-scheduler: one CPU cycle fully first, then
/// exactly three video dots, at the fixed 1 : 3 cadence. A CPU fault ends
/// the master cycle at once, before any dot.
pub open spec fn master_step_spec(v: MachineView) -> (Result<(), EmuError>, MachineView)
    recommends
        wf(v),
{
    let (r, v1) = cpu_step_spec(v);
    match r {
        Err(e) => (Err(e), v1),
        Ok(_) => (Ok(()), ppu_step_spec(ppu_step_spec(ppu_step_spec(v1)))),
    }
}

/// The power-up state of a machine holding the given ROM: registers from
/// the fixed initial-state table, the program counter from the reset
/// vector, zeroed RAM, and both steppers at their starting points.
pub open spec fn initial_view(rom: Seq<u8>) -> MachineView
    recommends
        rom.len() == ROM_SIZE,
{
    MachineView {
        cpu: Cpu {
            pc: u16_from(
                rom[(RESET_VECTOR - ROM_BASE) as int % (rom.len() as int)],
                rom[(RESET_VECTOR + 1 - ROM_BASE) as int % (rom.len() as int)],
            ),
            a: 0,
            x: 0,
            y: 0,
            s: 0xFD,
            p: 0x34,
            nmi: false,
        },
        ram: Seq::new(RAM_SIZE as nat, |i: int| 0u8),
        rom: rom,
        step: CpuStep::Fetch,
        dot: 0,
        frame: 0,
    }
}

} // verus!
