use vstd::prelude::*;

verus! {

/// The register file: the CPU's mutable state, plus the pending-interrupt
/// flag that the video clock raises and the CPU stepper consumes. All
/// arithmetic on these fields wraps modulo 2^8 / 2^16.
#[derive(Clone, Copy, Debug, PartialEq, Eq, Structural)]
pub struct Cpu {
    /// Program counter.
    pub pc: u16,
    /// Accumulator.
    pub a: u8,
    /// Index register X.
    pub x: u8,
    /// Index register Y.
    pub y: u8,
    /// Stack pointer (offset into page 0x0100).
    pub s: u8,
    /// Status flags.
    pub p: u8,
    /// Pending-interrupt flag, the single point of interaction between the
    /// video clock stepper and the CPU stepper.
    pub nmi: bool,
}

impl Cpu {
    /// Assert the pending-interrupt flag; the CPU stepper will acknowledge
    /// it at the next instruction boundary.
    pub fn raise_interrupt(&mut self)
        ensures
            *final(self) == (Cpu { nmi: true, ..*old(self) }),
    {
        self.nmi = true;
    }

    /// Drop the pending-interrupt flag.
    pub fn clear_interrupt(&mut self)
        ensures
            *final(self) == (Cpu { nmi: false, ..*old(self) }),
    {
        self.nmi = false;
    }

    /// Whether an interrupt is waiting to be acknowledged.
    pub fn interrupt_pending(&self) -> (r: bool)
        ensures
            r == self.nmi,
    {
        self.nmi
    }
}

/// Where the CPU stepper stands inside the current instruction: the
/// "program counter within the micro-step sequence", together with the
/// locals that must survive from one clock cycle to the next. `Fetch` is
/// the instruction boundary; every other variant is one particular
/// remaining cycle of one opcode's fixed sequence.
#[derive(Clone, Copy, Debug, PartialEq, Eq, Structural)]
pub enum CpuStep {
    /// Instruction boundary: acknowledge a pending interrupt, then fetch
    /// and decode the next opcode (cycle 1 of every instruction).
    Fetch,
    /// Load-immediate (0xA9), cycle 2: read the operand into A.
    LdaImm,
    /// Add-immediate (0x69), cycle 2: add the operand to A modulo 256.
    AdcImm,
    /// Transfer A to X (0xAA), cycle 2: dummy operand read, then copy.
    Tax,
    /// Zero-page store of X (0x86), cycle 2: read the operand address.
    StxZp,
    /// Zero-page store of X, cycle 3: write X to the recorded address.
    StxZpWrite { addr: u8 },
    /// Zero-page load of A (0xA5), cycle 2: read the operand address.
    LdaZp,
    /// Zero-page load of A, cycle 3: read the byte at the recorded address.
    LdaZpRead { addr: u8 },
    /// Absolute jump (0x4C), cycle 2: read the low byte of the target.
    JmpAbs,
    /// Absolute jump, cycle 3: read the high byte and set the program
    /// counter to the full target.
    JmpAbsHi { lo: u8 },
    /// An opcode outside the implemented set was fetched: every further
    /// step fails with `UnimplementedOpcode`.
    Illegal { op: u8 },
}

} // verus!
