//! The execute stage of the real-mode CPU.

use crate::targets::x86::decoder::{alu_spec, ExecuteInst};
use crate::targets::x86::gpr::{Reg32, SegReg};
use crate::targets::x86::isa::eflags::EFlags;
use crate::targets::x86::status_regs::CpuState;
use crate::targets::x86::CompatibleException;
use vstd::prelude::*;

verus! {

/// An execution unit's operation on its decoded operands.
pub trait Execute {
    type ResultValue;

    fn execute(&self) -> Self::ResultValue;
}

/// What an executed instruction writes back.
#[derive(Debug, Clone, Copy, PartialEq, Eq, Structural)]
pub enum WriteBackType {
    Gpr(GprWriteBack),
    Store(StoreWriteBack),
    Segment(SegmentWriteBack),
    EFlags(EFlagsWriteBack),
    Status(StatusWriteBack),
}

/// Sets a general purpose register.
#[derive(Debug, Clone, Copy, PartialEq, Eq, Structural)]
pub struct GprWriteBack {
    pub index: Reg32,
    pub value: u64,
}

/// Stores a quadword on the bus.
#[derive(Debug, Clone, Copy, PartialEq, Eq, Structural)]
pub struct StoreWriteBack {
    pub index: usize,
    pub value: u64,
}

/// Sets a segment register.
#[derive(Debug, Clone, Copy, PartialEq, Eq, Structural)]
pub struct SegmentWriteBack {
    pub index: SegReg,
    pub value: u64,
}

/// Sets or clears flags of EFLAGS.
#[derive(Debug, Clone, Copy, PartialEq, Eq, Structural)]
pub struct EFlagsWriteBack {
    pub target: EFlags,
    pub value: bool,
}

/// Sets the run state.
#[derive(Debug, Clone, Copy, PartialEq, Eq, Structural)]
pub struct StatusWriteBack {
    pub state: CpuState,
}

/// What a decoded instruction writes back.
pub open spec fn execute_spec(inst: ExecuteInst) -> WriteBackType {
    match inst {
        ExecuteInst::ArithLogic(i) => WriteBackType::Gpr(
            GprWriteBack { index: i.target, value: alu_spec(i.expr, i.left, i.right) },
        ),
        ExecuteInst::Store(i) => WriteBackType::Store(StoreWriteBack { index: i.addr, value: i.value }),
        ExecuteInst::Segment(i) => WriteBackType::Segment(
            SegmentWriteBack { index: i.target, value: alu_spec(i.expr, i.left, i.right) },
        ),
        ExecuteInst::StatusOp(i) => WriteBackType::EFlags(EFlagsWriteBack { target: i.target, value: i.value }),
        ExecuteInst::Privileged(_) => WriteBackType::Status(StatusWriteBack { state: CpuState::Halted }),
    }
}

/// Executes a decoded instruction; this never fails.
pub fn execute(inst: &ExecuteInst) -> (r: Result<WriteBackType, CompatibleException>)
    ensures
        r == Ok::<WriteBackType, CompatibleException>(execute_spec(*inst)),
{
    match inst {
        ExecuteInst::ArithLogic(inst) => {
            let (target, value) = inst.execute();
            Ok(WriteBackType::Gpr(GprWriteBack { index: target, value }))
        },
        ExecuteInst::Store(inst) => {
            let (target, value) = inst.execute();
            Ok(WriteBackType::Store(StoreWriteBack { index: target, value }))
        },
        ExecuteInst::Segment(inst) => {
            let (target, value) = inst.execute();
            Ok(WriteBackType::Segment(SegmentWriteBack { index: target, value }))
        },
        ExecuteInst::StatusOp(inst) => {
            let (target, value) = inst.execute();
            Ok(WriteBackType::EFlags(EFlagsWriteBack { target, value }))
        },
        ExecuteInst::Privileged(inst) => Ok(WriteBackType::Status(StatusWriteBack { state: inst.execute() })),
    }
}

} // verus!
