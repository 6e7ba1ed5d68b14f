use vstd::prelude::*;

verus! {

/// What can stop the processor. Each variant carries the offending datum.
#[derive(Debug, Clone, Copy, PartialEq, Eq, Structural)]
pub enum CPUError {
    /// The decoder reached an opcode or function combination it does not
    /// implement (this includes ECALL, EBREAK and FENCE).
    InstructionNotImplemented(u32),
    /// No memory answers at this address.
    AddressNotMapped(u64),
    /// The device cannot serve an access of this many bits.
    InvalidAccessSize(u64),
    /// The halt instruction (all ones) was executed.
    Halt,
}

} // verus!
