//! The raw fields of a 64-bit instruction.

use crate::cpu::isa::modrm::ModRm;
use vstd::prelude::*;

verus! {

/// An instruction split into its fields: up to four legacy prefix bytes,
/// up to four opcode bytes, the ModR/M and SIB bytes, the displacement and
/// the immediate.
pub struct InstructionX86_64 {
    pub lecacy_prefix: [u8; 4],
    pub opcode: [u8; 4],
    pub mod_rm: ModRm,
    pub sib: u8,
    pub displacement: u64,
    pub immediate: u64,
}

} // verus!
