//! The fetch stage of the first real-mode CPU.

use crate::compatible::isa::modrm::{modrm32_spec, ModRm};
use crate::compatible::isa::opcode::{opcode_compat_spec, OpcodeCompat};
use crate::compatible::CompatibleException;
use vstd::prelude::*;

verus! {

/// A fetched instruction.
#[derive(Debug, Clone, Copy, PartialEq, Eq, Structural)]
pub struct FetchedInst {
    pub opcode: OpcodeCompat,
    pub modrm: Option<ModRm>,
    /// The length of the instruction in bytes.
    pub inst_bytes: u64,
}

impl FetchedInst {
    pub fn get_opcode(&self) -> (op: OpcodeCompat)
        ensures
            op == self.opcode,
    {
        self.opcode
    }

    /// The address of the next instruction when this one is at `ip`.
    pub fn increment_ip(&self, ip: u64) -> (next: u64)
        requires
            ip + self.inst_bytes <= u64::MAX,
        ensures
            next == ip + self.inst_bytes,
    {
        ip + self.inst_bytes
    }

    /// The ModR/M byte; the instruction must have one.
    pub fn get_modrm(&self) -> (m: ModRm)
        requires
            self.modrm is Some,
        ensures
            m == self.modrm.unwrap(),
    {
        self.modrm.unwrap()
    }
}

/// The message of an undefined opcode.
pub open spec fn undefined_text() -> Seq<char> {
    "Undefined opcode."@
}

/// The instruction whose bytes start `b`: `hlt` is one byte, `xor` two
/// with its ModR/M byte; `None` for any other opcode.
pub open spec fn fetch_compat_spec(b: Seq<u8>) -> Option<FetchedInst> {
    match opcode_compat_spec(b[0]) {
        Some(OpcodeCompat::Hlt) => Some(FetchedInst { opcode: OpcodeCompat::Hlt, modrm: None, inst_bytes: 1 }),
        Some(OpcodeCompat::Xor) => Some(
            FetchedInst { opcode: OpcodeCompat::Xor, modrm: Some(modrm32_spec(b[1])), inst_bytes: 2 },
        ),
        None => None,
    }
}

/// `b` holds the whole instruction at its start: the opcode byte, and the
/// ModR/M byte after an `xor`.
pub open spec fn compat_fits(b: Seq<u8>) -> bool {
    b.len() >= 1 && (opcode_compat_spec(b[0]) == Some(OpcodeCompat::Xor) ==> b.len() >= 2)
}

/// Whether `program` holds the whole instruction at its start.
pub fn fits(program: &[u8]) -> (b: bool)
    ensures
        b == compat_fits(program@),
{
    if program.len() == 0 {
        return false;
    }
    match OpcodeCompat::from_u8(program[0]) {
        Some(OpcodeCompat::Xor) => program.len() >= 2,
        _ => true,
    }
}

/// Fetches the instruction whose bytes start `program`, which must hold
/// the whole instruction.
pub fn fetch(program: &[u8]) -> (r: Result<FetchedInst, CompatibleException>)
    requires
        compat_fits(program@),
    ensures
        match fetch_compat_spec(program@) {
            Some(inst) => r == Ok::<FetchedInst, CompatibleException>(inst),
            None => r matches Err(e) && e.0@ == undefined_text(),
        },
{
    match OpcodeCompat::from_u8(program[0]) {
        Some(OpcodeCompat::Hlt) => Ok(FetchedInst { opcode: OpcodeCompat::Hlt, modrm: None, inst_bytes: 1 }),
        Some(OpcodeCompat::Xor) => Ok(
            FetchedInst { opcode: OpcodeCompat::Xor, modrm: Some(ModRm::new(program[1])), inst_bytes: 2 },
        ),
        None => Err(CompatibleException("Undefined opcode.".to_owned())),
    }
}

} // verus!
