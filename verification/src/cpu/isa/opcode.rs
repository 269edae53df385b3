//! The one-byte opcodes of the 64-bit CPU.

use crate::cpu::isa::modrm::{modrm_spec, ModRm};
use vstd::prelude::*;

verus! {

/// First REX prefix byte.
pub const REX: u8 = 0x40;

/// Last REX prefix byte.
pub const REX_WRXB: u8 = 0x4f;

/// The operand-size override prefix.
pub const OVERRIDE_OP_SIZE: u8 = 0x66;

/// The opcodes that the CPU knows.
#[derive(Debug, Clone, Copy, PartialEq, Eq, Structural)]
pub enum Opcode {
    Add,
    CallRel32,
    Halt,
    Inc,
    Invalid,
    JmpRel8,
    MovToRm,
    MovToReg,
    MovImm32,
    MovRm8Imm8,
    MovRmImm32,
    PushR,
    PopR,
    Ret,
}

/// The opcode whose byte is exactly `b`.
pub open spec fn opcode_spec(b: u8) -> Option<Opcode> {
    match b {
        0x01 => Some(Opcode::Add),
        0xe8 => Some(Opcode::CallRel32),
        0xf4 => Some(Opcode::Halt),
        0xff => Some(Opcode::Inc),
        0x06 => Some(Opcode::Invalid),
        0xeb => Some(Opcode::JmpRel8),
        0x89 => Some(Opcode::MovToRm),
        0x8b => Some(Opcode::MovToReg),
        0xb8 => Some(Opcode::MovImm32),
        0xc6 => Some(Opcode::MovRm8Imm8),
        0xc7 => Some(Opcode::MovRmImm32),
        0x50 => Some(Opcode::PushR),
        0x58 => Some(Opcode::PopR),
        0xc3 => Some(Opcode::Ret),
        _ => None,
    }
}

/// The opcode of byte `b`: the exact match first, then the match of `b`
/// with its register bits (0..3) cleared, then `Invalid`.
pub open spec fn decode_opcode_spec(b: u8) -> Opcode {
    match opcode_spec(b) {
        Some(op) => op,
        None => match opcode_spec(b & 0xf8) {
            Some(op) => op,
            None => Opcode::Invalid,
        },
    }
}

impl Opcode {
    /// The opcode whose byte is exactly `b`.
    pub fn from_u8(b: u8) -> (op: Option<Opcode>)
        ensures
            op == opcode_spec(b),
    {
        match b {
            0x01 => Some(Opcode::Add),
            0xe8 => Some(Opcode::CallRel32),
            0xf4 => Some(Opcode::Halt),
            0xff => Some(Opcode::Inc),
            0x06 => Some(Opcode::Invalid),
            0xeb => Some(Opcode::JmpRel8),
            0x89 => Some(Opcode::MovToRm),
            0x8b => Some(Opcode::MovToReg),
            0xb8 => Some(Opcode::MovImm32),
            0xc6 => Some(Opcode::MovRm8Imm8),
            0xc7 => Some(Opcode::MovRmImm32),
            0x50 => Some(Opcode::PushR),
            0x58 => Some(Opcode::PopR),
            0xc3 => Some(Opcode::Ret),
            _ => None,
        }
    }

    /// The instruction has a ModR/M byte after the opcode.
    pub open spec fn uses_modrm(self) -> bool {
        match self {
            Opcode::Add | Opcode::Inc | Opcode::MovToRm | Opcode::MovToReg
            | Opcode::MovRmImm32 | Opcode::MovRm8Imm8 => true,
            _ => false,
        }
    }

    /// Whether the instruction has a ModR/M byte after the opcode.
    pub fn has_modrm(&self) -> (b: bool)
        ensures
            b == self.uses_modrm(),
    {
        match self {
            Opcode::Add | Opcode::Inc | Opcode::MovToRm | Opcode::MovToReg
            | Opcode::MovRmImm32 | Opcode::MovRm8Imm8 => true,
            _ => false,
        }
    }

    /// The decoded ModR/M byte `candidate` when the opcode takes one.
    pub fn modrm_if_required(&self, candidate: u8) -> (m: Option<ModRm>)
        ensures
            m == (if self.uses_modrm() {
                Some(modrm_spec(candidate))
            } else {
                None
            }),
    {
        match self {
            Opcode::Add | Opcode::Inc | Opcode::MovToRm | Opcode::MovToReg
            | Opcode::MovRmImm32 | Opcode::MovRm8Imm8 => Some(ModRm::new(candidate)),
            _ => None,
        }
    }
}

/// The opcode of byte `b`: the exact match first, then the match of `b`
/// with its register bits cleared, then `Invalid`.
pub fn decode_opcode(b: u8) -> (op: Opcode)
    ensures
        op == decode_opcode_spec(b),
{
    match Opcode::from_u8(b) {
        Some(op) => op,
        None => match Opcode::from_u8(b & 0xf8) {
            Some(op) => op,
            None => Opcode::Invalid,
        },
    }
}

} // verus!
