//! The decode stage of the real-mode CPU: reads the registers that an
//! instruction uses and picks the operation of its execution unit.

use crate::targets::x86::executor::Execute;
use crate::targets::x86::fetcher::FetchedInst;
use crate::targets::x86::gpr::{reg32_spec, Reg32, RegisterFile, SegReg};
use crate::targets::x86::isa::eflags::EFlags;
use crate::targets::x86::isa::modrm::{sreg_rm_spec, ModRm};
use crate::targets::x86::isa::opcode::Opcode;
use crate::targets::x86::status_regs::CpuState;
use crate::targets::x86::CompatibleException;
use vstd::prelude::*;

verus! {

/// The operation that an arithmetic-logic or segment unit applies to its
/// two operands.
#[derive(Debug, Clone, Copy, PartialEq, Eq, Structural)]
pub enum AluExpr {
    /// The right operand.
    Right,
    /// The bitwise exclusive or of the operands.
    Xor,
}

/// The result of `expr` on `left` and `right`.
pub open spec fn alu_spec(expr: AluExpr, left: u64, right: u64) -> u64 {
    match expr {
        AluExpr::Right => right,
        AluExpr::Xor => left ^ right,
    }
}

/// Applies `expr` to `left` and `right`.
pub fn alu(expr: AluExpr, left: u64, right: u64) -> (v: u64)
    ensures
        v == alu_spec(expr, left, right),
{
    match expr {
        AluExpr::Right => right,
        AluExpr::Xor => left ^ right,
    }
}

/// A decoded instruction, by the unit that executes it.
#[derive(Debug, Clone, Copy, PartialEq, Eq, Structural)]
pub enum ExecuteInst {
    ArithLogic(ArithLogicInst),
    Store(StoreInst),
    Segment(SegmentInst),
    StatusOp(StatusOpInst),
    Privileged(PrivilegedInst),
}

/// Sets a general purpose register to `expr(left, right)`.
#[derive(Debug, Clone, Copy, PartialEq, Eq, Structural)]
pub struct ArithLogicInst {
    pub target: Reg32,
    pub left: u64,
    pub right: u64,
    pub expr: AluExpr,
}

impl Execute for ArithLogicInst {
    type ResultValue = (Reg32, u64);

    fn execute(&self) -> (r: (Reg32, u64))
        ensures
            r == (self.target, alu_spec(self.expr, self.left, self.right)),
    {
        (self.target, alu(self.expr, self.left, self.right))
    }
}

/// Stores `value` at `addr`.
#[derive(Debug, Clone, Copy, PartialEq, Eq, Structural)]
pub struct StoreInst {
    pub addr: usize,
    pub value: u64,
}

impl Execute for StoreInst {
    type ResultValue = (usize, u64);

    fn execute(&self) -> (r: (usize, u64))
        ensures
            r == (self.addr, self.value),
    {
        (self.addr, self.value)
    }
}

/// Sets a segment register to `expr(left, right)`.
#[derive(Debug, Clone, Copy, PartialEq, Eq, Structural)]
pub struct SegmentInst {
    pub target: SegReg,
    pub left: u64,
    pub right: u64,
    pub expr: AluExpr,
}

impl Execute for SegmentInst {
    type ResultValue = (SegReg, u64);

    fn execute(&self) -> (r: (SegReg, u64))
        ensures
            r == (self.target, alu_spec(self.expr, self.left, self.right)),
    {
        (self.target, alu(self.expr, self.left, self.right))
    }
}

/// Sets (`value` true) or clears the flags `target` of EFLAGS.
#[derive(Debug, Clone, Copy, PartialEq, Eq, Structural)]
pub struct StatusOpInst {
    pub target: EFlags,
    pub value: bool,
}

impl Execute for StatusOpInst {
    type ResultValue = (EFlags, bool);

    fn execute(&self) -> (r: (EFlags, bool))
        ensures
            r == (self.target, self.value),
    {
        (self.target, self.value)
    }
}

/// Halts the CPU.
#[derive(Debug, Clone, Copy, PartialEq, Eq, Structural)]
pub struct PrivilegedInst {}

impl Execute for PrivilegedInst {
    type ResultValue = CpuState;

    fn execute(&self) -> (r: CpuState)
        ensures
            r == CpuState::Halted,
    {
        CpuState::Halted
    }
}

/// The message of an instruction without the ModR/M byte it needs.
pub open spec fn missing_modrm_text() -> Seq<char> {
    "Mod RM field was not fetched."@
}

/// The message of an addressing mode that the decoder does not handle.
pub open spec fn unsupported_mode_text() -> Seq<char> {
    "Unsupported addressing mode."@
}

/// The message of an opcode that the decoder does not handle.
pub open spec fn unimplemented_text() -> Seq<char> {
    "Unimplemented instruction."@
}

/// The message of a reg field that names no segment register.
pub open spec fn invalid_sreg_text() -> Seq<char> {
    "Invalid segment register."@
}

/// The message of an instruction without the immediate it needs.
pub open spec fn missing_imm_text() -> Seq<char> {
    "Immediate field was not fetched."@
}

/// The register of the reg field and the two operands of a ModR/M
/// instruction: the reg register's value on the left; on the right the r/m
/// register's value (register mode, or memory mode 0 with r/m one of eax,
/// ecx, edx, ebx) or the displacement (memory mode 0 with r/m 0b101).
/// Other modes are not handled.
pub open spec fn modrm_operands_spec(m: ModRm, regs: Seq<u64>, inst: FetchedInst) -> Result<
    (Reg32, u64, u64),
    Seq<char>,
> {
    let left = regs[m.reg.num()];
    if m.mode == 0 {
        match m.rm {
            Reg32::Eax | Reg32::Ebx | Reg32::Ecx | Reg32::Edx => Ok((m.reg, left, regs[m.rm.num()])),
            Reg32::Ebp => match inst.disp {
                Some(d) => Ok((m.reg, left, d)),
                None => Err(unsupported_mode_text()),
            },
            _ => Err(unsupported_mode_text()),
        }
    } else if m.mode == 3 {
        Ok((m.reg, left, regs[m.rm.num()]))
    } else {
        Err(unsupported_mode_text())
    }
}

/// The decoded instruction, or the message of why it cannot be decoded:
/// `cld` clears the direction flag; `lea` loads the right operand into the
/// reg register; `mov r/m, r` stores the reg register at the address in
/// the right operand; `mov sreg, r/m` copies a register into a segment
/// register; `mov r, imm` loads the immediate; `xor` sets the reg register
/// to the exclusive or of both operands; `hlt` halts.
pub open spec fn decode_spec(inst: FetchedInst, regs: Seq<u64>) -> Result<ExecuteInst, Seq<char>> {
    match inst.opcode {
        Opcode::Cld => Ok(
            ExecuteInst::StatusOp(StatusOpInst { target: EFlags::direction_flag(), value: false }),
        ),
        Opcode::Lea | Opcode::Xor | Opcode::MovMr => match inst.modrm {
            None => Err(missing_modrm_text()),
            Some(m) => match modrm_operands_spec(m, regs, inst) {
                Err(e) => Err(e),
                Ok((target, left, right)) => if inst.opcode == Opcode::MovMr {
                    Ok(ExecuteInst::Store(StoreInst { addr: right as usize, value: left }))
                } else {
                    Ok(
                        ExecuteInst::ArithLogic(
                            ArithLogicInst {
                                target,
                                left,
                                right,
                                expr: if inst.opcode == Opcode::Xor {
                                    AluExpr::Xor
                                } else {
                                    AluExpr::Right
                                },
                            },
                        ),
                    )
                },
            },
        },
        Opcode::MovRmSreg => match inst.modrm {
            None => Err(missing_modrm_text()),
            Some(m) => match sreg_rm_spec(m) {
                None => Err(invalid_sreg_text()),
                Some((sreg, rm)) => Ok(
                    ExecuteInst::Segment(
                        SegmentInst { target: sreg, left: 0, right: regs[rm.num()], expr: AluExpr::Right },
                    ),
                ),
            },
        },
        Opcode::MovOi => if inst.rd < 8 && inst.imm is Some {
            let rd = reg32_spec(inst.rd).unwrap();
            Ok(
                ExecuteInst::ArithLogic(
                    ArithLogicInst {
                        target: rd,
                        left: regs[rd.num()],
                        right: inst.imm.unwrap(),
                        expr: AluExpr::Right,
                    },
                ),
            )
        } else {
            Err(missing_imm_text())
        },
        Opcode::Hlt => Ok(ExecuteInst::Privileged(PrivilegedInst {})),
        Opcode::Nop => Err(unimplemented_text()),
    }
}

/// Decodes a fetched instruction with the registers `gpr`.
pub fn decode(inst: &FetchedInst, gpr: &RegisterFile) -> (r: Result<ExecuteInst, CompatibleException>)
    ensures
        match decode_spec(*inst, gpr@) {
            Ok(d) => r == Ok::<ExecuteInst, CompatibleException>(d),
            Err(msg) => r matches Err(e) && e.0@ == msg,
        },
{
    match inst.get_opcode() {
        Opcode::Cld => decode_eflags_operation(EFlags::direction_flag(), false),
        Opcode::Lea => decode_al_modrm(inst, gpr, AluExpr::Right),
        Opcode::MovMr => decode_store(inst, gpr),
        Opcode::MovRmSreg => decode_seg_modrm(inst, gpr, AluExpr::Right),
        Opcode::MovOi => decode_al_rd(inst, gpr, AluExpr::Right),
        Opcode::Xor => decode_al_modrm(inst, gpr, AluExpr::Xor),
        Opcode::Hlt => Ok(ExecuteInst::Privileged(PrivilegedInst {})),
        Opcode::Nop => Err(CompatibleException("Unimplemented instruction.".to_owned())),
    }
}

/// The reg register and the two operands of a ModR/M instruction.
fn decode_modrm(modrm: ModRm, rf: &RegisterFile, inst: &FetchedInst) -> (r: Result<
    (Reg32, u64, u64),
    CompatibleException,
>)
    ensures
        match modrm_operands_spec(modrm, rf@, *inst) {
            Ok(v) => r == Ok::<(Reg32, u64, u64), CompatibleException>(v),
            Err(msg) => r matches Err(e) && e.0@ == msg,
        },
{
    let (reg, rm) = modrm.get_reg_rm();
    let mode = modrm.get_mode();
    if mode == 0 {
        match rm {
            Reg32::Eax | Reg32::Ebx | Reg32::Ecx | Reg32::Edx => Ok((reg, rf.read_u64(reg), rf.read_u64(rm))),
            Reg32::Ebp => match inst.disp {
                Some(d) => Ok((reg, rf.read_u64(reg), d)),
                None => Err(CompatibleException("Unsupported addressing mode.".to_owned())),
            },
            _ => Err(CompatibleException("Unsupported addressing mode.".to_owned())),
        }
    } else if mode == 3 {
        Ok((reg, rf.read_u64(reg), rf.read_u64(rm)))
    } else {
        Err(CompatibleException("Unsupported addressing mode.".to_owned()))
    }
}

fn decode_al_modrm(inst: &FetchedInst, gpr: &RegisterFile, expr: AluExpr) -> (r: Result<
    ExecuteInst,
    CompatibleException,
>)
    requires
        inst.opcode == Opcode::Lea && expr == AluExpr::Right || inst.opcode == Opcode::Xor && expr
            == AluExpr::Xor,
    ensures
        match decode_spec(*inst, gpr@) {
            Ok(d) => r == Ok::<ExecuteInst, CompatibleException>(d),
            Err(msg) => r matches Err(e) && e.0@ == msg,
        },
{
    let modrm = match inst.modrm {
        Some(m) => m,
        None => {
            return Err(CompatibleException("Mod RM field was not fetched.".to_owned()));
        },
    };
    let (target, left, right) = match decode_modrm(modrm, gpr, inst) {
        Ok(v) => v,
        Err(e) => {
            return Err(e);
        },
    };
    Ok(ExecuteInst::ArithLogic(ArithLogicInst { target, left, right, expr }))
}

fn decode_store(inst: &FetchedInst, gpr: &RegisterFile) -> (r: Result<ExecuteInst, CompatibleException>)
    requires
        inst.opcode == Opcode::MovMr,
    ensures
        match decode_spec(*inst, gpr@) {
            Ok(d) => r == Ok::<ExecuteInst, CompatibleException>(d),
            Err(msg) => r matches Err(e) && e.0@ == msg,
        },
{
    let modrm = match inst.modrm {
        Some(m) => m,
        None => {
            return Err(CompatibleException("Mod RM field was not fetched.".to_owned()));
        },
    };
    let (_, reg, rm) = match decode_modrm(modrm, gpr, inst) {
        Ok(v) => v,
        Err(e) => {
            return Err(e);
        },
    };
    Ok(ExecuteInst::Store(StoreInst { addr: (#[verifier::truncate] (rm as usize)), value: reg }))
}

fn decode_seg_modrm(inst: &FetchedInst, gpr: &RegisterFile, expr: AluExpr) -> (r: Result<
    ExecuteInst,
    CompatibleException,
>)
    requires
        inst.opcode == Opcode::MovRmSreg,
        expr == AluExpr::Right,
    ensures
        match decode_spec(*inst, gpr@) {
            Ok(d) => r == Ok::<ExecuteInst, CompatibleException>(d),
            Err(msg) => r matches Err(e) && e.0@ == msg,
        },
{
    let modrm = match inst.modrm {
        Some(m) => m,
        None => {
            return Err(CompatibleException("Mod RM field was not fetched.".to_owned()));
        },
    };
    let (sreg, rm) = match modrm.get_sreg_rm() {
        Some(v) => v,
        None => {
            return Err(CompatibleException("Invalid segment register.".to_owned()));
        },
    };
    Ok(ExecuteInst::Segment(SegmentInst { target: sreg, left: 0, right: gpr.read_u64(rm), expr }))
}

fn decode_al_rd(inst: &FetchedInst, gpr: &RegisterFile, expr: AluExpr) -> (r: Result<
    ExecuteInst,
    CompatibleException,
>)
    requires
        inst.opcode == Opcode::MovOi,
        expr == AluExpr::Right,
    ensures
        match decode_spec(*inst, gpr@) {
            Ok(d) => r == Ok::<ExecuteInst, CompatibleException>(d),
            Err(msg) => r matches Err(e) && e.0@ == msg,
        },
{
    if inst.rd >= 8 || inst.imm.is_none() {
        return Err(CompatibleException("Immediate field was not fetched.".to_owned()));
    }
    let target = inst.get_rd();
    Ok(
        ExecuteInst::ArithLogic(
            ArithLogicInst { target, left: gpr.read_u64(target), right: inst.get_imm(), expr },
        ),
    )
}

fn decode_eflags_operation(target: EFlags, value: bool) -> (r: Result<ExecuteInst, CompatibleException>)
    ensures
        r == Ok::<ExecuteInst, CompatibleException>(
            ExecuteInst::StatusOp(StatusOpInst { target, value }),
        ),
{
    Ok(ExecuteInst::StatusOp(StatusOpInst { target, value }))
}

} // verus!
