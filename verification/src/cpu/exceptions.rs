//! Errors that stop the 64-bit CPU.

use crate::cpu::isa::opcode::Opcode;
use vstd::prelude::*;

verus! {

/// Why the CPU stopped.
#[allow(inconsistent_fields)]
#[derive(Debug, Clone, Copy, PartialEq, Eq, Structural)]
pub enum InternalException {
    /// The fetch stage could not make an instruction of the opcode byte.
    FetchError { opcode: u8 },
    /// The decode stage does not know the opcode.
    UndefinedInstruction { opcode: Opcode },
    /// The opcode needs a ModR/M byte that was not fetched.
    ModRmRequired { opcode: Opcode },
    /// A memory access at `addr` failed on the bus.
    BusError { addr: u64 },
    /// A micro-operation reached a stage that cannot execute it.
    InvalidMicroOp,
}

} // verus!
