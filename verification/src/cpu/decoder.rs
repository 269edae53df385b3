//! The decode stage of the first 64-bit pipeline: turns a fetched
//! instruction into micro-operations, reading the registers that they use.
//! Memory operands are addressed by the value of the r/m register alone.

use crate::cpu::exceptions::InternalException;
use crate::cpu::fetcher::FetchedInst;
use crate::cpu::isa::opcode::Opcode;
use crate::cpu::isa::registers::{lemma_reg64_numbers, reg64_spec, Reg64Id};
use crate::cpu::register_file::RegisterFile;
use crate::targets::x86_64::isa::opcode::OperandSize;
use vstd::prelude::*;

verus! {

/// A micro-operation, by the execution unit that takes it.
#[derive(Debug, Clone, Copy, PartialEq, Eq, Structural)]
pub enum ExecuteInstType {
    ArithLogic(ExecuteInst),
    Branch(ExecuteInst),
    LoadStore(ExecuteInst),
    Privilege(ExecuteInst),
}

/// A micro-operation with the operands that the decode stage read.
#[derive(Debug, Clone, Copy, PartialEq, Eq, Structural)]
pub struct ExecuteInst {
    pub opcode: ExOpcode,
    pub dest: Option<Reg64Id>,
    pub rip: Option<u64>,
    pub op1: Option<u64>,
    pub op2: Option<u64>,
    pub op3: Option<u64>,
    pub op4: Option<u64>,
    pub op_size: OperandSize,
}

impl ExecuteInst {
    pub fn get_opcode(&self) -> (op: ExOpcode)
        ensures
            op == self.opcode,
    {
        self.opcode
    }

    /// The destination register; the micro-operation must have one.
    pub fn get_dest(&self) -> (r: Reg64Id)
        requires
            self.dest is Some,
        ensures
            r == self.dest.unwrap(),
    {
        self.dest.unwrap()
    }

    /// The address of the next instruction; the micro-operation must have it.
    pub fn get_rip(&self) -> (r: u64)
        requires
            self.rip is Some,
        ensures
            r == self.rip.unwrap(),
    {
        self.rip.unwrap()
    }

    pub fn get_op1(&self) -> (r: u64)
        requires
            self.op1 is Some,
        ensures
            r == self.op1.unwrap(),
    {
        self.op1.unwrap()
    }

    pub fn get_op2(&self) -> (r: u64)
        requires
            self.op2 is Some,
        ensures
            r == self.op2.unwrap(),
    {
        self.op2.unwrap()
    }

    pub fn get_op3(&self) -> (r: u64)
        requires
            self.op3 is Some,
        ensures
            r == self.op3.unwrap(),
    {
        self.op3.unwrap()
    }

    pub fn get_op4(&self) -> (r: u64)
        requires
            self.op4 is Some,
        ensures
            r == self.op4.unwrap(),
    {
        self.op4.unwrap()
    }

    /// The width of the memory operand.
    pub fn get_op_size(&self) -> (s: OperandSize)
        ensures
            s == self.op_size,
    {
        self.op_size
    }
}

/// The operation of a micro-operation.
#[derive(Debug, Clone, Copy, PartialEq, Eq, Structural)]
pub enum ExOpcode {
    Add,
    Inc,
    Mov,
    Jump,
    Return,
    Load,
    Store,
    Halt,
}

/// The register with number `n` of a fetched instruction (`n < 8`).
pub open spec fn reg_of(n: u8) -> Reg64Id {
    reg64_spec(n).unwrap()
}


/// The value of register `id`.
pub open spec fn reg_value(regs: Seq<u64>, id: Reg64Id) -> u64 {
    regs[id.num()]
}

/// `x + y` modulo 2^64.
pub open spec fn wadd(x: u64, y: u64) -> u64 {
    vstd::wrapping::u64_specs::wrapping_add(x, y)
}

/// `x - y` modulo 2^64.
pub open spec fn wsub(x: u64, y: u64) -> u64 {
    vstd::wrapping::u64_specs::wrapping_sub(x, y)
}

/// A micro-operation with no operands.
pub open spec fn uop(opcode: ExOpcode) -> ExecuteInst {
    ExecuteInst {
        opcode,
        dest: None,
        rip: None,
        op1: None,
        op2: None,
        op3: None,
        op4: None,
        op_size: OperandSize::QuadWord,
    }
}

/// `dest <- value`.
pub open spec fn mov_uop(dest: Reg64Id, value: u64) -> ExecuteInstType {
    ExecuteInstType::ArithLogic(ExecuteInst { dest: Some(dest), op1: Some(value), ..uop(ExOpcode::Mov) })
}

/// Store `value` of width `size` at `addr`.
pub open spec fn store_uop(addr: u64, value: u64, size: OperandSize) -> ExecuteInstType {
    ExecuteInstType::LoadStore(
        ExecuteInst { op1: Some(addr), op2: Some(value), op_size: size, ..uop(ExOpcode::Store) },
    )
}

/// `dest <- memory[addr]`.
pub open spec fn load_uop(dest: Reg64Id, addr: u64) -> ExecuteInstType {
    ExecuteInstType::LoadStore(ExecuteInst { dest: Some(dest), op1: Some(addr), ..uop(ExOpcode::Load) })
}

/// Jump to `rip + disp`.
pub open spec fn jump_uop(rip: u64, disp: u64) -> ExecuteInstType {
    ExecuteInstType::Branch(ExecuteInst { rip: Some(rip), op1: Some(disp), ..uop(ExOpcode::Jump) })
}


pub(crate) fn new_uop(opcode: ExOpcode) -> (u: ExecuteInst)
    ensures
        u == uop(opcode),
{
    ExecuteInst {
        opcode,
        dest: None,
        rip: None,
        op1: None,
        op2: None,
        op3: None,
        op4: None,
        op_size: OperandSize::QuadWord,
    }
}

pub(crate) fn new_mov(dest: Reg64Id, value: u64) -> (u: ExecuteInstType)
    ensures
        u == mov_uop(dest, value),
{
    ExecuteInstType::ArithLogic(ExecuteInst { dest: Some(dest), op1: Some(value), ..new_uop(ExOpcode::Mov) })
}

pub(crate) fn new_store(addr: u64, value: u64, size: OperandSize) -> (u: ExecuteInstType)
    ensures
        u == store_uop(addr, value, size),
{
    ExecuteInstType::LoadStore(
        ExecuteInst { op1: Some(addr), op2: Some(value), op_size: size, ..new_uop(ExOpcode::Store) },
    )
}

pub(crate) fn new_load(dest: Reg64Id, addr: u64) -> (u: ExecuteInstType)
    ensures
        u == load_uop(dest, addr),
{
    ExecuteInstType::LoadStore(ExecuteInst { dest: Some(dest), op1: Some(addr), ..new_uop(ExOpcode::Load) })
}

pub(crate) fn new_jump(rip: u64, disp: u64) -> (u: ExecuteInstType)
    ensures
        u == jump_uop(rip, disp),
{
    ExecuteInstType::Branch(ExecuteInst { rip: Some(rip), op1: Some(disp), ..new_uop(ExOpcode::Jump) })
}

/// The register with number `n < 8`.
pub(crate) fn reg_from(n: u8) -> (r: Reg64Id)
    requires
        n < 8,
    ensures
        r == reg_of(n),
        r != Reg64Id::Unknown,
{
    proof {
        lemma_reg64_numbers(n);
    }
    Reg64Id::from_u8(n).unwrap()
}

/// A fetched instruction that the decode stage can read with the
/// registers `regs`: the registers that it reads are real registers, a
/// register number in the opcode byte names a register (below 8; `pop` and
/// `mov r, imm` also take 0xff, the unknown register, as destination), and
/// the stack pointer moves by eight without wrapping.
pub open spec fn can_decode(regs: Seq<u64>, inst: FetchedInst) -> bool {
    let rsp = reg_value(regs, Reg64Id::Rsp);
    match inst.opcode {
        Opcode::Add | Opcode::MovToRm => inst.mod_rm.rm != Reg64Id::Unknown && inst.mod_rm.reg
            != Reg64Id::Unknown,
        Opcode::Inc | Opcode::MovToReg => inst.mod_rm.rm != Reg64Id::Unknown,
        Opcode::MovImm32 => reg64_spec(inst.r) is Some,
        Opcode::PushR => inst.r < 8 && rsp >= 8,
        Opcode::PopR => reg64_spec(inst.r) is Some && rsp + 8 <= u64::MAX,
        Opcode::CallRel32 => rsp >= 8,
        Opcode::Ret => rsp + 8 <= u64::MAX,
        _ => true,
    }
}

/// The micro-operations of a fetched instruction, with the registers read
/// from `regs`: memory operands are at the value of the r/m register, `mov
/// r/m, imm` moves into the r/m register, stores are quadwords, and the
/// stack grows down by eight bytes per push. Opcodes without a rule here
/// (`mov r/m8, imm8` among them) are undefined instructions.
pub open spec fn decode_spec(regs: Seq<u64>, inst: FetchedInst) -> Result<
    Seq<ExecuteInstType>,
    InternalException,
> {
    let rsp = reg_value(regs, Reg64Id::Rsp);
    let rm = inst.mod_rm.rm;
    let reg = inst.mod_rm.reg;
    match inst.opcode {
        Opcode::Add => Ok(
            seq![ExecuteInstType::ArithLogic(ExecuteInst {
                dest: Some(rm),
                op1: Some(reg_value(regs, rm)),
                op2: Some(reg_value(regs, reg)),
                ..uop(ExOpcode::Add)
            })],
        ),
        Opcode::CallRel32 => Ok(
            seq![
                mov_uop(Reg64Id::Rsp, (rsp - 8) as u64),
                store_uop((rsp - 8) as u64, inst.next_rip, OperandSize::QuadWord),
                jump_uop(inst.next_rip, inst.displacement),
            ],
        ),
        Opcode::Halt => Ok(seq![ExecuteInstType::Privilege(uop(ExOpcode::Halt))]),
        Opcode::Inc => Ok(
            seq![ExecuteInstType::ArithLogic(ExecuteInst {
                dest: Some(rm),
                op1: Some(reg_value(regs, rm)),
                ..uop(ExOpcode::Inc)
            })],
        ),
        Opcode::JmpRel8 => Ok(seq![jump_uop(inst.next_rip, inst.displacement)]),
        Opcode::MovToReg => Ok(seq![load_uop(reg, reg_value(regs, rm))]),
        Opcode::MovToRm => Ok(
            seq![store_uop(reg_value(regs, rm), reg_value(regs, reg), OperandSize::QuadWord)],
        ),
        Opcode::MovImm32 => Ok(seq![mov_uop(reg64_spec(inst.r).unwrap(), inst.immediate)]),
        Opcode::MovRmImm32 => Ok(seq![mov_uop(rm, inst.immediate)]),
        Opcode::PushR => Ok(
            seq![
                mov_uop(Reg64Id::Rsp, (rsp - 8) as u64),
                store_uop((rsp - 8) as u64, reg_value(regs, reg_of(inst.r)), OperandSize::QuadWord),
            ],
        ),
        Opcode::PopR => Ok(
            seq![load_uop(reg64_spec(inst.r).unwrap(), rsp), mov_uop(Reg64Id::Rsp, (rsp + 8) as u64)],
        ),
        Opcode::Ret => Ok(
            seq![
                ExecuteInstType::Branch(ExecuteInst { op1: Some(rsp), ..uop(ExOpcode::Return) }),
                mov_uop(Reg64Id::Rsp, (rsp + 8) as u64),
            ],
        ),
        _ => Err(InternalException::UndefinedInstruction { opcode: inst.opcode }),
    }
}

/// Turns a fetched instruction into its micro-operations.
pub fn decode(rf: &RegisterFile, inst: &FetchedInst) -> (r: Result<Vec<ExecuteInstType>, InternalException>)
    requires
        can_decode(rf@, *inst),
    ensures
        match decode_spec(rf@, *inst) {
            Ok(s) => r matches Ok(v) && v@ == s,
            Err(e) => r == Err::<Vec<ExecuteInstType>, InternalException>(e),
        },
{
    let rm = inst.mod_rm.rm;
    let reg = inst.mod_rm.reg;
    let v = match inst.opcode {
        Opcode::Add => {
            let op1 = rf.read64(rm);
            let op2 = rf.read64(reg);
            vec![ExecuteInstType::ArithLogic(ExecuteInst { dest: Some(rm), op1: Some(op1), op2: Some(op2), ..new_uop(ExOpcode::Add) })]
        },
        Opcode::CallRel32 => {
            let new_sp = rf.read64(Reg64Id::Rsp) - 8;
            vec![
                new_mov(Reg64Id::Rsp, new_sp),
                new_store(new_sp, inst.next_rip, OperandSize::QuadWord),
                new_jump(inst.next_rip, inst.displacement),
            ]
        },
        Opcode::Halt => vec![ExecuteInstType::Privilege(new_uop(ExOpcode::Halt))],
        Opcode::Inc => {
            let op1 = rf.read64(rm);
            vec![ExecuteInstType::ArithLogic(ExecuteInst { dest: Some(rm), op1: Some(op1), ..new_uop(ExOpcode::Inc) })]
        },
        Opcode::JmpRel8 => vec![new_jump(inst.next_rip, inst.displacement)],
        Opcode::MovToReg => vec![new_load(reg, rf.read64(rm))],
        Opcode::MovToRm => {
            let addr = rf.read64(rm);
            let data = rf.read64(reg);
            vec![new_store(addr, data, OperandSize::QuadWord)]
        },
        Opcode::MovImm32 => vec![new_mov(Reg64Id::from_u8(inst.r).unwrap(), inst.immediate)],
        Opcode::MovRmImm32 => vec![new_mov(rm, inst.immediate)],
        Opcode::PushR => {
            let new_sp = rf.read64(Reg64Id::Rsp) - 8;
            let data = rf.read64(reg_from(inst.r));
            vec![new_mov(Reg64Id::Rsp, new_sp), new_store(new_sp, data, OperandSize::QuadWord)]
        },
        Opcode::PopR => {
            let dest = Reg64Id::from_u8(inst.r).unwrap();
            let sp = rf.read64(Reg64Id::Rsp);
            vec![new_load(dest, sp), new_mov(Reg64Id::Rsp, sp + 8)]
        },
        Opcode::Ret => {
            let sp = rf.read64(Reg64Id::Rsp);
            let ret = ExecuteInst { op1: Some(sp), ..new_uop(ExOpcode::Return) };
            vec![ExecuteInstType::Branch(ret), new_mov(Reg64Id::Rsp, sp + 8)]
        },
        _ => {
            return Err(InternalException::UndefinedInstruction { opcode: inst.opcode });
        },
    };
    assert(v@ =~= decode_spec(rf@, *inst)->Ok_0);
    Ok(v)
}

} // verus!
