//! The execute stage of the first 64-bit pipeline: one write-back record
//! per micro-operation.

use crate::cpu::decoder::{ExOpcode, ExecuteInst, ExecuteInstType};
use crate::cpu::isa::registers::Reg64Id;
use vstd::prelude::*;

verus! {

/// Where a write-back goes.
#[derive(Debug, Clone, Copy, PartialEq, Eq, Structural)]
pub enum DestType {
    Register,
    Rip,
    CpuState,
    Memory,
    MemToReg,
}

/// A write-back: its destination, the register it sets (`Unknown` when
/// none), the memory address it uses and the value it writes.
#[derive(Debug, Clone, Copy, PartialEq, Eq, Structural)]
pub struct WriteBackInst {
    pub dest_type: DestType,
    pub dest_rf: Reg64Id,
    pub addr: u64,
    pub result: u64,
}

/// The write-back of an operation that the unit does not carry out.
pub open spec fn invalid_wb() -> WriteBackInst {
    WriteBackInst { dest_type: DestType::Register, dest_rf: Reg64Id::Unknown, addr: 0, result: 0 }
}

/// The micro-operation carries the operands that its operation reads, and
/// its arithmetic does not overflow.
pub open spec fn wb_executable(inst: ExecuteInstType) -> bool {
    match inst {
        ExecuteInstType::ArithLogic(i) => match i.opcode {
            ExOpcode::Inc => i.dest is Some && i.op1 is Some && i.op1.unwrap() + 1 <= u64::MAX,
            ExOpcode::Add => i.dest is Some && i.op1 is Some && i.op2 is Some && i.op1.unwrap()
                + i.op2.unwrap() <= u64::MAX,
            ExOpcode::Mov => i.dest is Some && i.op1 is Some,
            _ => true,
        },
        ExecuteInstType::Branch(i) => match i.opcode {
            ExOpcode::Jump => i.rip is Some && i.op1 is Some && i.rip.unwrap() + i.op1.unwrap()
                <= u64::MAX,
            _ => true,
        },
        ExecuteInstType::LoadStore(i) => match i.opcode {
            ExOpcode::Load => i.dest is Some && i.op1 is Some,
            ExOpcode::Store => i.op1 is Some && i.op2 is Some,
            _ => true,
        },
        ExecuteInstType::Privilege(_) => true,
    }
}

/// The write-back of an executable micro-operation: `inc`, `add` and `mov`
/// set their register, a jump sets the instruction pointer to `rip + op1`,
/// a load reads memory at `op1` into its register, a store writes `op2`
/// at `op1`, `hlt` halts; any other operation of a unit gives the invalid
/// write-back.
pub open spec fn wb_execute_spec(inst: ExecuteInstType) -> WriteBackInst {
    match inst {
        ExecuteInstType::ArithLogic(i) => match i.opcode {
            ExOpcode::Inc => WriteBackInst {
                dest_type: DestType::Register,
                dest_rf: i.dest.unwrap(),
                addr: 0,
                result: (i.op1.unwrap() + 1) as u64,
            },
            ExOpcode::Add => WriteBackInst {
                dest_type: DestType::Register,
                dest_rf: i.dest.unwrap(),
                addr: 0,
                result: (i.op1.unwrap() + i.op2.unwrap()) as u64,
            },
            ExOpcode::Mov => WriteBackInst {
                dest_type: DestType::Register,
                dest_rf: i.dest.unwrap(),
                addr: 0,
                result: i.op1.unwrap(),
            },
            _ => invalid_wb(),
        },
        ExecuteInstType::Branch(i) => match i.opcode {
            ExOpcode::Jump => WriteBackInst {
                dest_type: DestType::Rip,
                dest_rf: Reg64Id::Unknown,
                addr: 0,
                result: (i.rip.unwrap() + i.op1.unwrap()) as u64,
            },
            _ => invalid_wb(),
        },
        ExecuteInstType::LoadStore(i) => match i.opcode {
            ExOpcode::Load => WriteBackInst {
                dest_type: DestType::MemToReg,
                dest_rf: i.dest.unwrap(),
                addr: i.op1.unwrap(),
                result: 0,
            },
            ExOpcode::Store => WriteBackInst {
                dest_type: DestType::Memory,
                dest_rf: Reg64Id::Unknown,
                addr: i.op1.unwrap(),
                result: i.op2.unwrap(),
            },
            _ => invalid_wb(),
        },
        ExecuteInstType::Privilege(i) => match i.opcode {
            ExOpcode::Halt => WriteBackInst {
                dest_type: DestType::CpuState,
                dest_rf: Reg64Id::Unknown,
                addr: 0,
                result: 0,
            },
            _ => invalid_wb(),
        },
    }
}

impl WriteBackInst {
    fn new_invalid_inst() -> (w: WriteBackInst)
        ensures
            w == invalid_wb(),
    {
        WriteBackInst { dest_type: DestType::Register, dest_rf: Reg64Id::Unknown, addr: 0, result: 0 }
    }

    fn new_dest_reg(dest: Reg64Id, result: u64) -> (w: WriteBackInst)
        ensures
            w == (WriteBackInst { dest_type: DestType::Register, dest_rf: dest, addr: 0, result }),
    {
        WriteBackInst { dest_type: DestType::Register, dest_rf: dest, addr: 0, result: result }
    }

    fn new_dest_rip(result: u64) -> (w: WriteBackInst)
        ensures
            w == (WriteBackInst { dest_type: DestType::Rip, dest_rf: Reg64Id::Unknown, addr: 0, result }),
    {
        WriteBackInst { dest_type: DestType::Rip, dest_rf: Reg64Id::Unknown, addr: 0, result: result }
    }

    fn new_dest_mem(addr: u64, result: u64) -> (w: WriteBackInst)
        ensures
            w == (WriteBackInst { dest_type: DestType::Memory, dest_rf: Reg64Id::Unknown, addr, result }),
    {
        WriteBackInst { dest_type: DestType::Memory, dest_rf: Reg64Id::Unknown, addr: addr, result: result }
    }

    fn new_dest_mem_to_reg(dest: Reg64Id, addr: u64) -> (w: WriteBackInst)
        ensures
            w == (WriteBackInst { dest_type: DestType::MemToReg, dest_rf: dest, addr, result: 0 }),
    {
        WriteBackInst { dest_type: DestType::MemToReg, dest_rf: dest, addr: addr, result: 0 }
    }

    fn new_dest_halt() -> (w: WriteBackInst)
        ensures
            w == (WriteBackInst {
                dest_type: DestType::CpuState,
                dest_rf: Reg64Id::Unknown,
                addr: 0,
                result: 0,
            }),
    {
        WriteBackInst { dest_type: DestType::CpuState, dest_rf: Reg64Id::Unknown, addr: 0, result: 0 }
    }
}

/// Executes one micro-operation.
pub fn execute(inst: ExecuteInstType) -> (w: WriteBackInst)
    requires
        wb_executable(inst),
    ensures
        w == wb_execute_spec(inst),
{
    match inst {
        ExecuteInstType::ArithLogic(inst) => execute_arith_logic(inst),
        ExecuteInstType::Branch(inst) => execute_branch(inst),
        ExecuteInstType::LoadStore(inst) => execute_load_store(inst),
        ExecuteInstType::Privilege(inst) => execute_privilege(inst),
    }
}

fn execute_arith_logic(inst: ExecuteInst) -> (w: WriteBackInst)
    requires
        wb_executable(ExecuteInstType::ArithLogic(inst)),
    ensures
        w == wb_execute_spec(ExecuteInstType::ArithLogic(inst)),
{
    match inst.get_opcode() {
        ExOpcode::Inc => WriteBackInst::new_dest_reg(inst.get_dest(), inst.get_op1() + 1),
        ExOpcode::Add => WriteBackInst::new_dest_reg(inst.get_dest(), inst.get_op1() + inst.get_op2()),
        ExOpcode::Mov => WriteBackInst::new_dest_reg(inst.get_dest(), inst.get_op1()),
        _ => WriteBackInst::new_invalid_inst(),
    }
}

fn execute_branch(inst: ExecuteInst) -> (w: WriteBackInst)
    requires
        wb_executable(ExecuteInstType::Branch(inst)),
    ensures
        w == wb_execute_spec(ExecuteInstType::Branch(inst)),
{
    match inst.get_opcode() {
        ExOpcode::Jump => WriteBackInst::new_dest_rip(inst.get_rip() + inst.get_op1()),
        _ => WriteBackInst::new_invalid_inst(),
    }
}

fn execute_load_store(inst: ExecuteInst) -> (w: WriteBackInst)
    requires
        wb_executable(ExecuteInstType::LoadStore(inst)),
    ensures
        w == wb_execute_spec(ExecuteInstType::LoadStore(inst)),
{
    match inst.get_opcode() {
        ExOpcode::Load => WriteBackInst::new_dest_mem_to_reg(inst.get_dest(), inst.get_op1()),
        ExOpcode::Store => WriteBackInst::new_dest_mem(inst.get_op1(), inst.get_op2()),
        _ => WriteBackInst::new_invalid_inst(),
    }
}

fn execute_privilege(inst: ExecuteInst) -> (w: WriteBackInst)
    ensures
        w == wb_execute_spec(ExecuteInstType::Privilege(inst)),
{
    match inst.get_opcode() {
        ExOpcode::Halt => WriteBackInst::new_dest_halt(),
        _ => WriteBackInst::new_invalid_inst(),
    }
}

} // verus!
