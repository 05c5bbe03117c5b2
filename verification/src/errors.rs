use vstd::prelude::*;

verus! {

/// The two fatal faults of the core: both stand for hardware behaviour that
/// this core does not implement, not for recoverable conditions.
#[derive(Clone, Copy, Debug, PartialEq, Eq, Structural)]
pub enum EmuError {
    /// Decode met an opcode byte with no defined micro-step sequence.
    UnimplementedOpcode(u8),
    /// A bus access fell outside every mapped window.
    UnmappedAddress(u16),
}

} // verus!
