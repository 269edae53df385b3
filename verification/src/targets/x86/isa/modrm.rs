//! The ModR/M byte of a real-mode instruction.

use crate::bits::{bits_of, get_bits_u8};
use crate::cpu::isa::modrm::lemma_byte_fields;
use crate::targets::x86::gpr::{lemma_reg32_numbers, reg32_spec, segreg_spec, Reg32, SegReg};
use vstd::prelude::*;

verus! {

/// A decoded ModR/M byte: the addressing mode (0 to 3), the reg field and
/// the r/m field.
#[derive(Debug, Clone, Copy, PartialEq, Eq, Structural)]
pub struct ModRm {
    pub mode: usize,
    pub reg: Reg32,
    pub rm: Reg32,
}

/// The fields of ModR/M byte `b`: mode in bits 6..8, reg in bits 3..6, r/m
/// in bits 0..3.
pub open spec fn modrm32_spec(b: u8) -> ModRm {
    ModRm {
        mode: bits_of(b, 6, 8) as usize,
        reg: reg32_spec(bits_of(b, 3, 6)).unwrap(),
        rm: reg32_spec(bits_of(b, 0, 3)).unwrap(),
    }
}

/// The segment register that the reg field of `m` names, with the r/m
/// register; `None` when the reg field names no segment register (6 or 7).
pub open spec fn sreg_rm_spec(m: ModRm) -> Option<(SegReg, Reg32)> {
    match segreg_spec(m.reg.num() as u8) {
        Some(s) => Some((s, m.rm)),
        None => None,
    }
}

impl ModRm {
    /// Decodes ModR/M byte `byte`.
    pub fn new(byte: u8) -> (m: ModRm)
        ensures
            m == modrm32_spec(byte),
            m.mode < 4,
    {
        proof {
            lemma_byte_fields(byte);
            lemma_reg32_numbers(bits_of(byte, 3, 6));
            lemma_reg32_numbers(bits_of(byte, 0, 3));
        }
        ModRm {
            mode: get_bits_u8(byte, 6, 8) as usize,
            reg: Reg32::from_u8(get_bits_u8(byte, 3, 6)).unwrap(),
            rm: Reg32::from_u8(get_bits_u8(byte, 0, 3)).unwrap(),
        }
    }

    /// The addressing mode.
    pub fn get_mode(&self) -> (mode: usize)
        ensures
            mode == self.mode,
    {
        self.mode
    }

    /// The reg and r/m registers.
    pub fn get_reg_rm(&self) -> (r: (Reg32, Reg32))
        ensures
            r == (self.reg, self.rm),
    {
        (self.reg, self.rm)
    }

    /// The segment register of the reg field and the r/m register.
    pub fn get_sreg_rm(&self) -> (r: Option<(SegReg, Reg32)>)
        ensures
            r == sreg_rm_spec(*self),
    {
        match SegReg::from_u8(self.reg.index() as u8) {
            Some(s) => Some((s, self.rm)),
            None => None,
        }
    }
}

} // verus!
