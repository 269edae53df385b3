//! Operand sizes of the 64-bit instructions.

use vstd::prelude::*;

verus! {

/// The width of a memory operand.
#[derive(Debug, Clone, Copy, PartialEq, Eq, Structural)]
pub enum OperandSize {
    Byte,
    Word,
    DoubleWord,
    QuadWord,
}

} // verus!
