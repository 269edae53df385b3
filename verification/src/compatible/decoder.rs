//! The decode stage of the first real-mode CPU.

use crate::compatible::fetcher::FetchedInst;
use crate::compatible::gpr::RegisterFile;
use crate::compatible::isa::opcode::OpcodeCompat;
use crate::compatible::CompatibleException;
use vstd::prelude::*;

verus! {

/// The operation of the arithmetic-logic unit.
#[derive(Debug, Clone, Copy, PartialEq, Eq, Structural)]
pub enum CompatExpr {
    /// Always zero.
    Nop,
    /// Bitwise exclusive or.
    Xor,
}

/// The result of `expr` on `left` and `right`.
pub open spec fn compat_alu_spec(expr: CompatExpr, left: u64, right: u64) -> u64 {
    match expr {
        CompatExpr::Nop => 0,
        CompatExpr::Xor => left ^ right,
    }
}

/// A decoded instruction, by the unit that executes it.
#[derive(Debug, Clone, Copy, PartialEq, Eq, Structural)]
pub enum ExecuteInst {
    ArithLogic(ArithLogicInst),
    Privileged(PrivilegedInst),
}

/// An arithmetic-logic operation with the operands read by the decoder.
#[derive(Debug, Clone, Copy, PartialEq, Eq, Structural)]
pub struct ArithLogicInst {
    pub left: u64,
    pub right: u64,
    pub expr: CompatExpr,
}

/// Applies `expr` to `left` and `right`.
pub fn compat_alu(expr: CompatExpr, left: u64, right: u64) -> (v: u64)
    ensures
        v == compat_alu_spec(expr, left, right),
{
    match expr {
        CompatExpr::Nop => 0,
        CompatExpr::Xor => left ^ right,
    }
}

impl ArithLogicInst {
    /// The result: the operation applied to zero and zero, not to the
    /// operands that the decoder read.
    pub fn execute(&self) -> (v: u64)
        ensures
            v == compat_alu_spec(self.expr, 0, 0),
    {
        compat_alu(self.expr, 0, 0)
    }
}

impl Default for ArithLogicInst {
    fn default() -> (inst: ArithLogicInst)
        ensures
            inst == (ArithLogicInst { left: 0, right: 0, expr: CompatExpr::Nop }),
    {
        ArithLogicInst { left: 0, right: 0, expr: CompatExpr::Nop }
    }
}

/// Halts the CPU.
#[derive(Debug, Clone, Copy, PartialEq, Eq, Structural)]
pub struct PrivilegedInst {}

/// The message of an instruction without the ModR/M byte it needs.
pub open spec fn missing_modrm_text() -> Seq<char> {
    "Mod RM field was not fetched."@
}

/// The decoded instruction: `xor` reads its reg and r/m registers, `hlt`
/// halts.
pub open spec fn decode_compat_spec(inst: FetchedInst, regs: Seq<u64>) -> Result<ExecuteInst, Seq<char>> {
    match inst.opcode {
        OpcodeCompat::Xor => match inst.modrm {
            Some(m) => Ok(
                ExecuteInst::ArithLogic(
                    ArithLogicInst { left: regs[m.reg.num()], right: regs[m.rm.num()], expr: CompatExpr::Xor },
                ),
            ),
            None => Err(missing_modrm_text()),
        },
        OpcodeCompat::Hlt => Ok(ExecuteInst::Privileged(PrivilegedInst {})),
    }
}

/// Decodes a fetched instruction with the registers `gpr`.
pub fn decode(inst: &FetchedInst, gpr: &RegisterFile) -> (r: Result<ExecuteInst, CompatibleException>)
    ensures
        match decode_compat_spec(*inst, gpr@) {
            Ok(d) => r == Ok::<ExecuteInst, CompatibleException>(d),
            Err(msg) => r matches Err(e) && e.0@ == msg,
        },
{
    match inst.get_opcode() {
        OpcodeCompat::Xor => {
            if inst.modrm.is_none() {
                return Err(CompatibleException("Mod RM field was not fetched.".to_owned()));
            }
            Ok(decode_al_modrm(inst, gpr, CompatExpr::Xor))
        },
        OpcodeCompat::Hlt => Ok(ExecuteInst::Privileged(PrivilegedInst {})),
    }
}

fn decode_al_modrm(inst: &FetchedInst, gpr: &RegisterFile, expr: CompatExpr) -> (d: ExecuteInst)
    requires
        inst.modrm is Some,
    ensures
        d == ExecuteInst::ArithLogic(
            ArithLogicInst {
                left: gpr@[inst.modrm.unwrap().reg.num()],
                right: gpr@[inst.modrm.unwrap().rm.num()],
                expr,
            },
        ),
{
    let (reg, rm) = inst.get_modrm().get_reg_rm();
    ExecuteInst::ArithLogic(
        ArithLogicInst { left: gpr.read_u64(reg.index()), right: gpr.read_u64(rm.index()), expr },
    )
}

} // verus!
