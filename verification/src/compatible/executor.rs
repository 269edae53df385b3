//! The execute stage of the first real-mode CPU.

use crate::compatible::decoder::{compat_alu_spec, ExecuteInst, PrivilegedInst};
use crate::compatible::gpr::Reg32;
use crate::compatible::status_regs::CpuState;
use crate::compatible::CompatibleException;
use vstd::prelude::*;

pub use crate::targets::x86::executor::Execute;

verus! {

impl Execute for PrivilegedInst {
    type ResultValue = CpuState;

    fn execute(&self) -> (r: CpuState)
        ensures
            r == CpuState::Halted,
    {
        CpuState::Halted
    }
}

/// What an executed instruction writes back.
#[derive(Debug, Clone, Copy, PartialEq, Eq, Structural)]
pub enum WriteBackType {
    Gpr(GprWriteBack),
    Status(StatusWriteBack),
}

/// Sets a general purpose register.
#[derive(Debug, Clone, Copy, PartialEq, Eq, Structural)]
pub struct GprWriteBack {
    pub index: Reg32,
    pub value: u64,
}

/// Sets the run state.
#[derive(Debug, Clone, Copy, PartialEq, Eq, Structural)]
pub struct StatusWriteBack {
    pub state: CpuState,
}

/// What a decoded instruction writes back: an arithmetic-logic result
/// goes to `eax`; a privileged instruction halts.
pub open spec fn execute_compat_spec(inst: ExecuteInst) -> WriteBackType {
    match inst {
        ExecuteInst::ArithLogic(i) => WriteBackType::Gpr(
            GprWriteBack { index: Reg32::Eax, value: compat_alu_spec(i.expr, 0, 0) },
        ),
        ExecuteInst::Privileged(_) => WriteBackType::Status(StatusWriteBack { state: CpuState::Halted }),
    }
}

/// Executes a decoded instruction; this never fails.
pub fn execute(inst: &ExecuteInst) -> (r: Result<WriteBackType, CompatibleException>)
    ensures
        r == Ok::<WriteBackType, CompatibleException>(execute_compat_spec(*inst)),
{
    match inst {
        ExecuteInst::ArithLogic(inst) => Ok(
            WriteBackType::Gpr(GprWriteBack { index: Reg32::Eax, value: inst.execute() }),
        ),
        ExecuteInst::Privileged(inst) => Ok(WriteBackType::Status(StatusWriteBack { state: inst.execute() })),
    }
}

} // verus!
