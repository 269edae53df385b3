//! The opcodes of the real-mode CPU and what the fetch stage needs to know
//! of each.

use crate::targets::x86::{undefined_opcode_message, undefined_opcode_text, CompatibleException};
use vstd::prelude::*;

verus! {

/// The operand-size override prefix.
pub const OPERAND_SIZE_OVERRIDE_PREFIX: u8 = 0x66;

/// The address-size override prefix.
pub const ADDRESS_SIZE_OVERRIDE_PREFIX: u8 = 0x67;

/// The opcodes that the CPU knows, in alphabetical order.
#[derive(Debug, Clone, Copy, PartialEq, Eq, Structural)]
pub enum Opcode {
    Cld,
    Lea,
    MovMr,
    MovRmSreg,
    MovOi,
    Nop,
    Xor,
    Hlt,
}

/// The opcode whose byte is `b`.
pub open spec fn opcode32_spec(b: u8) -> Option<Opcode> {
    match b {
        0xfc => Some(Opcode::Cld),
        0x8d => Some(Opcode::Lea),
        0x89 => Some(Opcode::MovMr),
        0x8e => Some(Opcode::MovRmSreg),
        0xb8 => Some(Opcode::MovOi),
        0x90 => Some(Opcode::Nop),
        0x31 => Some(Opcode::Xor),
        0xf4 => Some(Opcode::Hlt),
        _ => None,
    }
}

impl Opcode {
    /// The opcode whose byte is `b`.
    pub fn from_u8(b: u8) -> (op: Option<Opcode>)
        ensures
            op == opcode32_spec(b),
    {
        match b {
            0xfc => Some(Opcode::Cld),
            0x8d => Some(Opcode::Lea),
            0x89 => Some(Opcode::MovMr),
            0x8e => Some(Opcode::MovRmSreg),
            0xb8 => Some(Opcode::MovOi),
            0x90 => Some(Opcode::Nop),
            0x31 => Some(Opcode::Xor),
            0xf4 => Some(Opcode::Hlt),
            _ => None,
        }
    }
}

impl Default for Opcode {
    fn default() -> (op: Opcode)
        ensures
            op == Opcode::Nop,
    {
        Opcode::Nop
    }
}

/// The type of an immediate or a displacement.
#[derive(Debug, Clone, Copy, PartialEq, Eq, Structural)]
pub enum DataType {
    /// An unsigned doubleword: four bytes under the address-size prefix, two
    /// otherwise.
    UDWord,
}

/// What the fetch stage needs to know of an opcode: whether a ModR/M byte
/// follows, whether the opcode byte holds a register number, and the types
/// of its immediate and displacement.
#[derive(Debug, Clone, Copy, PartialEq, Eq, Structural)]
pub struct MetaInst {
    pub opcode: Opcode,
    pub modrm: bool,
    pub r: bool,
    pub imm_type: Option<DataType>,
    pub disp_type: Option<DataType>,
}

impl Default for MetaInst {
    fn default() -> (m: MetaInst)
        ensures
            m == meta(Opcode::Nop),
    {
        MetaInst { opcode: Opcode::default(), modrm: false, r: false, imm_type: None, disp_type: None }
    }
}

/// The description of `opcode` with no ModR/M byte, no register number and
/// no operands.
pub open spec fn meta(opcode: Opcode) -> MetaInst {
    MetaInst { opcode, modrm: false, r: false, imm_type: None, disp_type: None }
}

/// The description of the opcode whose byte is exactly `b`.
pub open spec fn meta_from_u8_spec(b: u8) -> Option<MetaInst> {
    match opcode32_spec(b) {
        Some(Opcode::Cld) => Some(meta(Opcode::Cld)),
        Some(Opcode::Lea) => Some(
            MetaInst { modrm: true, disp_type: Some(DataType::UDWord), ..meta(Opcode::Lea) },
        ),
        Some(Opcode::MovMr) => Some(MetaInst { modrm: true, ..meta(Opcode::MovMr) }),
        Some(Opcode::MovRmSreg) => Some(MetaInst { modrm: true, ..meta(Opcode::MovRmSreg) }),
        Some(Opcode::Xor) => Some(MetaInst { modrm: true, ..meta(Opcode::Xor) }),
        Some(Opcode::Hlt) => Some(meta(Opcode::Hlt)),
        _ => None,
    }
}

/// The description of a "plus r" opcode whose byte with its register bits
/// (0..3) cleared is `b & 0xf8`.
pub open spec fn meta_plus_r_spec(b: u8) -> Option<MetaInst> {
    match opcode32_spec(b & 0xf8) {
        Some(Opcode::MovOi) => Some(
            MetaInst { r: true, imm_type: Some(DataType::UDWord), ..meta(Opcode::MovOi) },
        ),
        _ => None,
    }
}

/// The description of opcode byte `b`: an exact opcode first, then a
/// "plus r" opcode.
pub open spec fn meta_spec(b: u8) -> Option<MetaInst> {
    match meta_from_u8_spec(b) {
        Some(m) => Some(m),
        None => meta_plus_r_spec(b),
    }
}

impl MetaInst {
    /// The description of opcode byte `candidate`; an error that names the
    /// byte when no opcode has it.
    pub fn from(candidate: u8) -> (r: Result<MetaInst, CompatibleException>)
        ensures
            match meta_spec(candidate) {
                Some(m) => r == Ok::<MetaInst, CompatibleException>(m),
                None => r matches Err(e) && e.0@ == undefined_opcode_text(candidate),
            },
    {
        match Self::from_u8(candidate) {
            Some(m) => Ok(m),
            None => match Self::plus_r_from_u8(candidate) {
                Some(m) => Ok(m),
                None => Err(CompatibleException(undefined_opcode_message(candidate))),
            },
        }
    }

    /// The description of the opcode whose byte is exactly `candidate`.
    pub fn from_u8(candidate: u8) -> (r: Option<MetaInst>)
        ensures
            r == meta_from_u8_spec(candidate),
    {
        let opcode = match Opcode::from_u8(candidate) {
            Some(op) => op,
            None => {
                return None;
            },
        };
        let base = MetaInst { opcode, modrm: false, r: false, imm_type: None, disp_type: None };
        match opcode {
            Opcode::Cld => Some(base),
            Opcode::Lea => Some(MetaInst { modrm: true, disp_type: Some(DataType::UDWord), ..base }),
            Opcode::MovMr => Some(MetaInst { modrm: true, ..base }),
            Opcode::MovRmSreg => Some(MetaInst { modrm: true, ..base }),
            Opcode::Xor => Some(MetaInst { modrm: true, ..base }),
            Opcode::Hlt => Some(base),
            _ => None,
        }
    }

    /// The description of the "plus r" opcode of byte `candidate`, whose low
    /// three bits hold a register number.
    pub fn plus_r_from_u8(candidate: u8) -> (r: Option<MetaInst>)
        ensures
            r == meta_plus_r_spec(candidate),
    {
        let opcode = match Opcode::from_u8(candidate & 0xf8) {
            Some(op) => op,
            None => {
                return None;
            },
        };
        match opcode {
            Opcode::MovOi => Some(
                MetaInst {
                    opcode,
                    modrm: false,
                    r: true,
                    imm_type: Some(DataType::UDWord),
                    disp_type: None,
                },
            ),
            _ => None,
        }
    }

    pub fn get_opcode(&self) -> (op: Opcode)
        ensures
            op == self.opcode,
    {
        self.opcode
    }

    /// Whether a ModR/M byte follows the opcode.
    pub fn use_modrm(&self) -> (b: bool)
        ensures
            b == self.modrm,
    {
        self.modrm
    }

    /// Whether the opcode byte holds a register number.
    pub fn use_r(&self) -> (b: bool)
        ensures
            b == self.r,
    {
        self.r
    }

    pub fn get_imm_type(&self) -> (t: Option<DataType>)
        ensures
            t == self.imm_type,
    {
        self.imm_type
    }

    pub fn get_disp_type(&self) -> (t: Option<DataType>)
        ensures
            t == self.disp_type,
    {
        self.disp_type
    }
}

} // verus!
