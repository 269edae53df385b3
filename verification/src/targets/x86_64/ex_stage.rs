//! The execute stage of the 64-bit CPU: computes what each
//! micro-operation writes back.

use crate::cpu::decoder::{wadd, ExOpcode, ExecuteInst, ExecuteInstType};
use crate::cpu::isa::registers::Reg64Id;
use crate::targets::x86_64::isa::opcode::OperandSize;
use crate::targets::x86_64::CpuState;
use vstd::prelude::*;

verus! {

/// The effect of one executed micro-operation.
#[derive(Debug, Clone, Copy, PartialEq, Eq, Structural)]
pub enum WriteBack {
    /// Continue at this address.
    Rip(u64),
    /// Set a register.
    GeneralRegister(Reg64Id, u64),
    /// Set the run state.
    CpuState(CpuState),
    /// Store data at an address.
    Store(u64, WriteBackData),
    /// Load the quadword at an address into a register.
    Load(Reg64Id, u64),
    /// Continue at the address stored at an address.
    Return(u64),
}

/// Data to store, with its width.
#[derive(Debug, Clone, Copy, PartialEq, Eq, Structural)]
pub enum WriteBackData {
    Byte(u8),
    Word(u16),
    DWord(u32),
    QWord(u64),
}

/// The micro-operation carries the operands that its operation uses.
pub open spec fn executable(inst: ExecuteInstType) -> bool {
    match inst {
        ExecuteInstType::ArithLogic(i) => match i.opcode {
            ExOpcode::Inc | ExOpcode::Mov => i.dest is Some && i.op1 is Some,
            ExOpcode::Add => i.dest is Some && i.op1 is Some && i.op2 is Some,
            _ => true,
        },
        ExecuteInstType::Branch(i) => match i.opcode {
            ExOpcode::Jump => i.rip is Some && i.op1 is Some,
            ExOpcode::Return => i.op1 is Some,
            _ => true,
        },
        ExecuteInstType::LoadStore(i) => match i.opcode {
            ExOpcode::Load => i.dest is Some && i.op1 is Some,
            ExOpcode::Store => i.op1 is Some && i.op2 is Some,
            _ => true,
        },
        ExecuteInstType::Privilege(_) => true,
    }
}

/// The low `size` bytes of `data`.
pub open spec fn sized_data(data: u64, size: OperandSize) -> WriteBackData {
    match size {
        OperandSize::Byte => WriteBackData::Byte(data as u8),
        OperandSize::Word => WriteBackData::Word(data as u16),
        OperandSize::DoubleWord => WriteBackData::DWord(data as u32),
        OperandSize::QuadWord => WriteBackData::QWord(data),
    }
}

/// What an executable micro-operation writes back: arithmetic and moves
/// write a register (sums wrap at 2^64), jumps set the instruction pointer
/// to `rip + op1`, returns take it from memory at `op1`, loads and stores
/// go to memory at `op1`, `hlt` halts. An operation that its unit does not
/// carry out is an error.
pub open spec fn execute_spec(inst: ExecuteInstType) -> Result<WriteBack, ()> {
    match inst {
        ExecuteInstType::ArithLogic(i) => match i.opcode {
            ExOpcode::Inc => Ok(WriteBack::GeneralRegister(i.dest.unwrap(), wadd(i.op1.unwrap(), 1))),
            ExOpcode::Add => Ok(
                WriteBack::GeneralRegister(i.dest.unwrap(), wadd(i.op1.unwrap(), i.op2.unwrap())),
            ),
            ExOpcode::Mov => Ok(WriteBack::GeneralRegister(i.dest.unwrap(), i.op1.unwrap())),
            _ => Err(()),
        },
        ExecuteInstType::Branch(i) => match i.opcode {
            ExOpcode::Jump => Ok(WriteBack::Rip(wadd(i.rip.unwrap(), i.op1.unwrap()))),
            ExOpcode::Return => Ok(WriteBack::Return(i.op1.unwrap())),
            _ => Err(()),
        },
        ExecuteInstType::LoadStore(i) => match i.opcode {
            ExOpcode::Load => Ok(WriteBack::Load(i.dest.unwrap(), i.op1.unwrap())),
            ExOpcode::Store => Ok(WriteBack::Store(i.op1.unwrap(), sized_data(i.op2.unwrap(), i.op_size))),
            _ => Err(()),
        },
        ExecuteInstType::Privilege(i) => match i.opcode {
            ExOpcode::Halt => Ok(WriteBack::CpuState(CpuState::Halt)),
            _ => Err(()),
        },
    }
}

/// Whether the micro-operation carries its operands.
pub fn is_executable(inst: &ExecuteInstType) -> (b: bool)
    ensures
        b == executable(*inst),
{
    match inst {
        ExecuteInstType::ArithLogic(i) => match i.opcode {
            ExOpcode::Inc | ExOpcode::Mov => i.dest.is_some() && i.op1.is_some(),
            ExOpcode::Add => i.dest.is_some() && i.op1.is_some() && i.op2.is_some(),
            _ => true,
        },
        ExecuteInstType::Branch(i) => match i.opcode {
            ExOpcode::Jump => i.rip.is_some() && i.op1.is_some(),
            ExOpcode::Return => i.op1.is_some(),
            _ => true,
        },
        ExecuteInstType::LoadStore(i) => match i.opcode {
            ExOpcode::Load => i.dest.is_some() && i.op1.is_some(),
            ExOpcode::Store => i.op1.is_some() && i.op2.is_some(),
            _ => true,
        },
        ExecuteInstType::Privilege(_) => true,
    }
}

/// Executes one micro-operation.
pub fn execute(inst: &ExecuteInstType) -> (r: Result<WriteBack, ()>)
    requires
        executable(*inst),
    ensures
        r == execute_spec(*inst),
{
    match *inst {
        ExecuteInstType::ArithLogic(inst) => execute_arith_logic(inst),
        ExecuteInstType::Branch(inst) => execute_branch(inst),
        ExecuteInstType::LoadStore(inst) => execute_load_store(inst),
        ExecuteInstType::Privilege(inst) => execute_privilege(inst),
    }
}

fn execute_arith_logic(inst: ExecuteInst) -> (r: Result<WriteBack, ()>)
    requires
        executable(ExecuteInstType::ArithLogic(inst)),
    ensures
        r == execute_spec(ExecuteInstType::ArithLogic(inst)),
{
    match inst.get_opcode() {
        ExOpcode::Inc => Ok(execute_inc(inst)),
        ExOpcode::Add => Ok(execute_add(inst)),
        ExOpcode::Mov => Ok(execute_mov(inst)),
        _ => Err(()),
    }
}

fn execute_inc(inst: ExecuteInst) -> (w: WriteBack)
    requires
        inst.dest is Some,
        inst.op1 is Some,
    ensures
        w == WriteBack::GeneralRegister(inst.dest.unwrap(), wadd(inst.op1.unwrap(), 1)),
{
    let result = inst.get_op1().wrapping_add(1);
    let dest = inst.get_dest();
    WriteBack::GeneralRegister(dest, result)
}

fn execute_add(inst: ExecuteInst) -> (w: WriteBack)
    requires
        inst.dest is Some,
        inst.op1 is Some,
        inst.op2 is Some,
    ensures
        w == WriteBack::GeneralRegister(inst.dest.unwrap(), wadd(inst.op1.unwrap(), inst.op2.unwrap())),
{
    let result = inst.get_op1().wrapping_add(inst.get_op2());
    let dest = inst.get_dest();
    WriteBack::GeneralRegister(dest, result)
}

fn execute_mov(inst: ExecuteInst) -> (w: WriteBack)
    requires
        inst.dest is Some,
        inst.op1 is Some,
    ensures
        w == WriteBack::GeneralRegister(inst.dest.unwrap(), inst.op1.unwrap()),
{
    let result = inst.get_op1();
    let dest = inst.get_dest();
    WriteBack::GeneralRegister(dest, result)
}

fn execute_branch(inst: ExecuteInst) -> (r: Result<WriteBack, ()>)
    requires
        executable(ExecuteInstType::Branch(inst)),
    ensures
        r == execute_spec(ExecuteInstType::Branch(inst)),
{
    match inst.get_opcode() {
        ExOpcode::Jump => Ok(execute_jump(inst)),
        ExOpcode::Return => Ok(execute_return(inst)),
        _ => Err(()),
    }
}

fn execute_jump(inst: ExecuteInst) -> (w: WriteBack)
    requires
        inst.rip is Some,
        inst.op1 is Some,
    ensures
        w == WriteBack::Rip(wadd(inst.rip.unwrap(), inst.op1.unwrap())),
{
    let result = inst.get_rip().wrapping_add(inst.get_op1());
    WriteBack::Rip(result)
}

fn execute_return(inst: ExecuteInst) -> (w: WriteBack)
    requires
        inst.op1 is Some,
    ensures
        w == WriteBack::Return(inst.op1.unwrap()),
{
    let sp = inst.get_op1();
    WriteBack::Return(sp)
}

fn execute_load_store(inst: ExecuteInst) -> (r: Result<WriteBack, ()>)
    requires
        executable(ExecuteInstType::LoadStore(inst)),
    ensures
        r == execute_spec(ExecuteInstType::LoadStore(inst)),
{
    match inst.get_opcode() {
        ExOpcode::Load => Ok(execute_load(inst)),
        ExOpcode::Store => Ok(execute_store(inst)),
        _ => Err(()),
    }
}

fn execute_load(inst: ExecuteInst) -> (w: WriteBack)
    requires
        inst.dest is Some,
        inst.op1 is Some,
    ensures
        w == WriteBack::Load(inst.dest.unwrap(), inst.op1.unwrap()),
{
    let addr = inst.get_op1();
    let dest = inst.get_dest();
    WriteBack::Load(dest, addr)
}

fn execute_store(inst: ExecuteInst) -> (w: WriteBack)
    requires
        inst.op1 is Some,
        inst.op2 is Some,
    ensures
        w == WriteBack::Store(inst.op1.unwrap(), sized_data(inst.op2.unwrap(), inst.op_size)),
{
    let addr = inst.get_op1();
    let data = inst.get_op2();
    let data = match inst.get_op_size() {
        OperandSize::Byte => WriteBackData::Byte((#[verifier::truncate] (data as u8))),
        OperandSize::Word => WriteBackData::Word((#[verifier::truncate] (data as u16))),
        OperandSize::DoubleWord => WriteBackData::DWord((#[verifier::truncate] (data as u32))),
        OperandSize::QuadWord => WriteBackData::QWord(data),
    };
    WriteBack::Store(addr, data)
}

fn execute_privilege(inst: ExecuteInst) -> (r: Result<WriteBack, ()>)
    ensures
        r == execute_spec(ExecuteInstType::Privilege(inst)),
{
    match inst.get_opcode() {
        ExOpcode::Halt => Ok(WriteBack::CpuState(CpuState::Halt)),
        _ => Err(()),
    }
}

/// `inc` writes its operand plus one to its destination register, wrapping
/// to 0 after `u64::MAX`; `add` writes the sum of its operands modulo
/// 2^64; `mov` writes its operand unchanged.
pub proof fn lemma_arith_logic_results(i: ExecuteInst)
    requires
        i.dest is Some,
        i.op1 is Some,
    ensures
        i.opcode == ExOpcode::Inc ==> execute_spec(ExecuteInstType::ArithLogic(i)) == Ok::<WriteBack, ()>(
            WriteBack::GeneralRegister(i.dest.unwrap(), ((i.op1.unwrap() + 1) % 0x1_0000_0000_0000_0000) as u64),
        ),
        i.opcode == ExOpcode::Inc && i.op1.unwrap() < u64::MAX ==> execute_spec(ExecuteInstType::ArithLogic(i))
            == Ok::<WriteBack, ()>(WriteBack::GeneralRegister(i.dest.unwrap(), (i.op1.unwrap() + 1) as u64)),
        i.opcode == ExOpcode::Add && i.op2 is Some ==> execute_spec(ExecuteInstType::ArithLogic(i)) == Ok::<
            WriteBack,
            (),
        >(
            WriteBack::GeneralRegister(
                i.dest.unwrap(),
                ((i.op1.unwrap() + i.op2.unwrap()) % 0x1_0000_0000_0000_0000) as u64,
            ),
        ),
        i.opcode == ExOpcode::Mov ==> execute_spec(ExecuteInstType::ArithLogic(i)) == Ok::<WriteBack, ()>(
            WriteBack::GeneralRegister(i.dest.unwrap(), i.op1.unwrap()),
        ),
{
}

/// A jump continues at its instruction pointer plus its displacement,
/// modulo 2^64; a return continues at the address read from `op1`.
pub proof fn lemma_branch_results(i: ExecuteInst)
    requires
        i.op1 is Some,
    ensures
        i.opcode == ExOpcode::Jump && i.rip is Some ==> execute_spec(ExecuteInstType::Branch(i)) == Ok::<
            WriteBack,
            (),
        >(WriteBack::Rip(((i.rip.unwrap() + i.op1.unwrap()) % 0x1_0000_0000_0000_0000) as u64)),
        i.opcode == ExOpcode::Return ==> execute_spec(ExecuteInstType::Branch(i)) == Ok::<WriteBack, ()>(
            WriteBack::Return(i.op1.unwrap()),
        ),
{
}

/// A load reads the address in `op1` into its destination; a store writes
/// the low bytes of `op2` that its operand size names at the address in
/// `op1`; `hlt` halts the CPU.
pub proof fn lemma_load_store_halt_results(i: ExecuteInst)
    ensures
        i.opcode == ExOpcode::Load && i.dest is Some && i.op1 is Some ==> execute_spec(
            ExecuteInstType::LoadStore(i),
        ) == Ok::<WriteBack, ()>(WriteBack::Load(i.dest.unwrap(), i.op1.unwrap())),
        i.opcode == ExOpcode::Store && i.op1 is Some && i.op2 is Some && i.op_size == OperandSize::QuadWord
            ==> execute_spec(ExecuteInstType::LoadStore(i)) == Ok::<WriteBack, ()>(
            WriteBack::Store(i.op1.unwrap(), WriteBackData::QWord(i.op2.unwrap())),
        ),
        i.opcode == ExOpcode::Store && i.op1 is Some && i.op2 is Some && i.op_size == OperandSize::Byte
            ==> execute_spec(ExecuteInstType::LoadStore(i)) == Ok::<WriteBack, ()>(
            WriteBack::Store(i.op1.unwrap(), WriteBackData::Byte((i.op2.unwrap() % 256) as u8)),
        ),
        i.opcode == ExOpcode::Halt ==> execute_spec(ExecuteInstType::Privilege(i)) == Ok::<WriteBack, ()>(
            WriteBack::CpuState(CpuState::Halt),
        ),
{
    let d = i.op2.unwrap_or(0);
    assert((d as u8) as int == d % 256) by (bit_vector);
}

} // verus!
