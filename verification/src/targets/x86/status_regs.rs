//! The run state of the real-mode CPU.

use vstd::prelude::*;

verus! {

/// Whether the CPU executes instructions.
#[derive(Debug, Clone, Copy, PartialEq, Eq, Structural)]
pub enum CpuState {
    Halted,
    Running,
}

} // verus!
