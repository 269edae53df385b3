//! The opcodes of the first real-mode CPU.

use vstd::prelude::*;

verus! {

/// The opcodes that the CPU knows.
#[derive(Debug, Clone, Copy, PartialEq, Eq, Structural)]
pub enum OpcodeCompat {
    Xor,
    Hlt,
}

/// The opcode whose byte is `b`.
pub open spec fn opcode_compat_spec(b: u8) -> Option<OpcodeCompat> {
    match b {
        0x31 => Some(OpcodeCompat::Xor),
        0xf4 => Some(OpcodeCompat::Hlt),
        _ => None,
    }
}

impl OpcodeCompat {
    /// The opcode whose byte is `b`.
    pub fn from_u8(b: u8) -> (op: Option<OpcodeCompat>)
        ensures
            op == opcode_compat_spec(b),
    {
        match b {
            0x31 => Some(OpcodeCompat::Xor),
            0xf4 => Some(OpcodeCompat::Hlt),
            _ => None,
        }
    }
}

/// Whether the instruction of `opcode` has a ModR/M byte: only `xor` has.
pub fn inst_use_modrm(opcode: OpcodeCompat) -> (b: bool)
    ensures
        b == (opcode == OpcodeCompat::Xor),
{
    opcode == OpcodeCompat::Xor
}

} // verus!
