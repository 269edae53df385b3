//! The ModR/M and SIB bytes of an x86 instruction.

use crate::bits::{bits_of, get_bits_u8};
use crate::cpu::isa::registers::{lemma_reg64_numbers, reg64_spec, Reg64Id};
use vstd::prelude::*;

verus! {

/// The addressing mode in bits 6..8 of a ModR/M byte.
#[derive(Debug, Clone, Copy, PartialEq, Eq, Structural)]
pub enum ModRmModeField {
    Indirect,
    OneByteDisp,
    FourByteDisp,
    Direct,
    Unused,
}

/// The mode with number `n` (`0xff` stands for an absent ModR/M byte).
pub open spec fn mode_spec(n: u8) -> Option<ModRmModeField> {
    match n {
        0 => Some(ModRmModeField::Indirect),
        1 => Some(ModRmModeField::OneByteDisp),
        2 => Some(ModRmModeField::FourByteDisp),
        3 => Some(ModRmModeField::Direct),
        0xff => Some(ModRmModeField::Unused),
        _ => None,
    }
}

impl ModRmModeField {
    /// The mode with number `n` (`0xff` stands for an absent ModR/M byte).
    pub fn from_u8(n: u8) -> (m: Option<ModRmModeField>)
        ensures
            m == mode_spec(n),
    {
        match n {
            0 => Some(ModRmModeField::Indirect),
            1 => Some(ModRmModeField::OneByteDisp),
            2 => Some(ModRmModeField::FourByteDisp),
            3 => Some(ModRmModeField::Direct),
            0xff => Some(ModRmModeField::Unused),
            _ => None,
        }
    }
}

/// A decoded ModR/M byte.
#[derive(Debug, Clone, Copy, PartialEq, Eq, Structural)]
pub struct ModRm {
    pub mode: ModRmModeField,
    pub reg: Reg64Id,
    pub rm: Reg64Id,
}

/// The fields of ModR/M byte `b`: mode in bits 6..8, reg in bits 3..6, r/m
/// in bits 0..3.
pub open spec fn modrm_spec(b: u8) -> ModRm {
    ModRm {
        mode: mode_spec(bits_of(b, 6, 8)).unwrap(),
        reg: reg64_spec(bits_of(b, 3, 6)).unwrap(),
        rm: reg64_spec(bits_of(b, 0, 3)).unwrap(),
    }
}

/// The ModR/M of an instruction that has none.
pub open spec fn invalid_modrm() -> ModRm {
    ModRm { mode: ModRmModeField::Unused, reg: Reg64Id::Unknown, rm: Reg64Id::Unknown }
}

/// The three fields of a ModR/M or SIB byte are in range.
pub proof fn lemma_byte_fields(b: u8)
    ensures
        bits_of(b, 6, 8) < 4,
        bits_of(b, 3, 6) < 8,
        bits_of(b, 0, 3) < 8,
{
    assert(((b >> 6usize) & (0xffu8 >> 6usize)) < 4) by (bit_vector);
    assert(((b >> 3usize) & (0xffu8 >> 5usize)) < 8) by (bit_vector);
    assert(((b >> 0usize) & (0xffu8 >> 5usize)) < 8) by (bit_vector);
}

/// A decoded ModR/M byte never names the `Unknown` register and always has
/// one of the four addressing modes.
pub proof fn lemma_modrm_fields(b: u8)
    ensures
        modrm_spec(b).reg != Reg64Id::Unknown,
        modrm_spec(b).rm != Reg64Id::Unknown,
        modrm_spec(b).mode != ModRmModeField::Unused,
        modrm_spec(b).reg.num() == bits_of(b, 3, 6),
        modrm_spec(b).rm.num() == bits_of(b, 0, 3),
{
    lemma_byte_fields(b);
    lemma_reg64_numbers(bits_of(b, 3, 6));
    lemma_reg64_numbers(bits_of(b, 0, 3));
}

impl ModRm {
    /// Decodes ModR/M byte `modrm`.
    pub fn new(modrm: u8) -> (m: ModRm)
        ensures
            m == modrm_spec(modrm),
    {
        proof {
            lemma_byte_fields(modrm);
            lemma_reg64_numbers(bits_of(modrm, 3, 6));
            lemma_reg64_numbers(bits_of(modrm, 0, 3));
        }
        let mode = get_bits_u8(modrm, 6, 8);
        let reg = get_bits_u8(modrm, 3, 6);
        let rm = get_bits_u8(modrm, 0, 3);
        ModRm {
            mode: ModRmModeField::from_u8(mode).unwrap(),
            reg: Reg64Id::from_u8(reg).unwrap(),
            rm: Reg64Id::from_u8(rm).unwrap(),
        }
    }

    /// The ModR/M of an instruction that has none.
    pub fn new_invalid() -> (m: ModRm)
        ensures
            m == invalid_modrm(),
    {
        ModRm { mode: ModRmModeField::Unused, reg: Reg64Id::Unknown, rm: Reg64Id::Unknown }
    }
}

/// A decoded SIB byte.
#[derive(Debug, Clone, Copy, PartialEq, Eq, Structural)]
pub struct Sib {
    pub scale: u8,
    pub index: Reg64Id,
    pub base: Reg64Id,
}

/// The fields of SIB byte `b`: the scale is `2 ^ s` (bitwise exclusive or)
/// of the two top bits `s`, the index in bits 3..6, the base in bits 0..3.
pub open spec fn sib_spec(b: u8) -> Sib {
    Sib {
        scale: 2u8 ^ bits_of(b, 6, 8),
        index: reg64_spec(bits_of(b, 3, 6)).unwrap(),
        base: reg64_spec(bits_of(b, 0, 3)).unwrap(),
    }
}

impl Sib {
    /// Decodes SIB byte `modrm`.
    pub fn new(modrm: u8) -> (s: Sib)
        ensures
            s == sib_spec(modrm),
    {
        proof {
            lemma_byte_fields(modrm);
            lemma_reg64_numbers(bits_of(modrm, 3, 6));
            lemma_reg64_numbers(bits_of(modrm, 0, 3));
        }
        let scale = get_bits_u8(modrm, 6, 8);
        let index = get_bits_u8(modrm, 3, 6);
        let base = get_bits_u8(modrm, 0, 3);
        Sib {
            scale: 2 ^ scale,
            index: Reg64Id::from_u8(index).unwrap(),
            base: Reg64Id::from_u8(base).unwrap(),
        }
    }
}

} // verus!
