//! The instructions of the first 64-bit interpreter, decoded straight
//! from their bytes into a register write or a jump.

use crate::bits::{le_u32, read_le_u32};
use crate::register_file::{general_register_spec, GeneralRegisterId, RegisterFile};
use vstd::prelude::*;
use vstd::slice::slice_subrange;

verus! {

/// Where a decoded instruction writes its result.
#[derive(Debug, Clone, Copy, PartialEq, Eq, Structural)]
pub enum DestType {
    Register,
    Rip,
}

/// A decoded instruction: where its result goes, the register it sets
/// (none for a jump) and the result.
#[derive(Debug, Clone, Copy, PartialEq, Eq, Structural)]
pub struct DecodedInst {
    pub dest_type: DestType,
    pub dest_rf: Option<GeneralRegisterId>,
    pub result: u64,
}

impl DecodedInst {
    pub fn new(dest_type: DestType, rf: Option<GeneralRegisterId>, result: u64) -> (inst: DecodedInst)
        ensures
            inst == (DecodedInst { dest_type, dest_rf: rf, result }),
    {
        DecodedInst { dest_type: dest_type, dest_rf: rf, result: result }
    }
}

/// The addressing mode of a ModR/M byte.
#[derive(Debug, Clone, Copy, PartialEq, Eq, Structural)]
enum ModRmModeField {
    Indirect,
    OneByteDisp,
    FourByteDisp,
    Direct,
}

/// The addressing mode with number `n`, for `n < 4`.
spec fn mode_field_spec(n: u8) -> Option<ModRmModeField> {
    match n {
        0 => Some(ModRmModeField::Indirect),
        1 => Some(ModRmModeField::OneByteDisp),
        2 => Some(ModRmModeField::FourByteDisp),
        3 => Some(ModRmModeField::Direct),
        _ => None,
    }
}

impl ModRmModeField {
    fn from_u8(n: u8) -> (m: Option<ModRmModeField>)
        ensures
            m == mode_field_spec(n),
    {
        match n {
            0 => Some(ModRmModeField::Indirect),
            1 => Some(ModRmModeField::OneByteDisp),
            2 => Some(ModRmModeField::FourByteDisp),
            3 => Some(ModRmModeField::Direct),
            _ => None,
        }
    }
}

/// A decoded ModR/M byte whose registers are among the four.
struct ModRm {
    mode: ModRmModeField,
    reg: GeneralRegisterId,
    rm: GeneralRegisterId,
}

/// The reg field (bits 3..6) of ModR/M byte `b`.
pub open spec fn modrm_reg(b: u8) -> u8 {
    (b & 0b00111000) >> 3
}

/// The r/m field (bits 0..3) of ModR/M byte `b`.
pub open spec fn modrm_rm(b: u8) -> u8 {
    b & 0b00000111
}

/// Both registers of ModR/M byte `b` are among the four.
pub open spec fn modrm_in_range(b: u8) -> bool {
    modrm_reg(b) < 4 && modrm_rm(b) < 4
}

fn decode_mod_rm(modrm: u8) -> (m: ModRm)
    requires
        modrm_in_range(modrm),
    ensures
        m.reg == general_register_spec(modrm_reg(modrm)).unwrap(),
        m.rm == general_register_spec(modrm_rm(modrm)).unwrap(),
{
    let mode = (modrm & 0b11000000) >> 6;
    let reg = (modrm & 0b00111000) >> 3;
    let rm = modrm & 0b00000111;
    assert((modrm & 0b11000000u8) >> 6u8 < 4) by (bit_vector);
    ModRm {
        mode: ModRmModeField::from_u8(mode).unwrap(),
        reg: GeneralRegisterId::from_u8(reg).unwrap(),
        rm: GeneralRegisterId::from_u8(rm).unwrap(),
    }
}

/// `mov r32, imm32` with opcode byte `0xb8 + r` for one of the four
/// registers: the register is set to the zero-extended immediate.
pub fn decode_mov_imm64(inst: &[u8]) -> (d: DecodedInst)
    requires
        inst@.len() >= 5,
        0xb8 <= inst@[0] < 0xbc,
    ensures
        d == (DecodedInst {
            dest_type: DestType::Register,
            dest_rf: general_register_spec((inst@[0] - 0xb8) as u8),
            result: le_u32(inst@.subrange(1, 5)) as u64,
        }),
        d.dest_rf is Some,
{
    let mov_op: u8 = 0xb8;
    let dest = GeneralRegisterId::from_u8(inst[0] - mov_op).unwrap();
    let imm: u64 = read_le_u32(slice_subrange(inst, 1, 5)) as u64;
    DecodedInst::new(DestType::Register, Some(dest), imm)
}

/// `inc r/m64` in register form (`0x48 0xff modrm`): the r/m register
/// plus one.
pub fn decode_inc(rf: &RegisterFile, inst: &[u8]) -> (d: DecodedInst)
    requires
        inst@.len() >= 3,
        modrm_in_range(inst@[2]),
        rf@[general_register_spec(modrm_rm(inst@[2])).unwrap().num()] + 1 <= u64::MAX,
    ensures
        d == (DecodedInst {
            dest_type: DestType::Register,
            dest_rf: general_register_spec(modrm_rm(inst@[2])),
            result: (rf@[general_register_spec(modrm_rm(inst@[2])).unwrap().num()] + 1) as u64,
        }),
{
    let mod_rm = decode_mod_rm(inst[2]);
    let dest = mod_rm.rm;
    let incremented_value = rf.read64(dest) + 1;
    DecodedInst::new(DestType::Register, Some(dest), incremented_value)
}

/// `add r/m64, r64` in register form (`0x48 0x01 modrm`): the sum of the
/// r/m and reg registers, into the r/m register.
pub fn decode_add(rf: &RegisterFile, inst: &[u8]) -> (d: DecodedInst)
    requires
        inst@.len() >= 3,
        modrm_in_range(inst@[2]),
        rf@[general_register_spec(modrm_rm(inst@[2])).unwrap().num()] + rf@[general_register_spec(
            modrm_reg(inst@[2]),
        ).unwrap().num()] <= u64::MAX,
    ensures
        d == (DecodedInst {
            dest_type: DestType::Register,
            dest_rf: general_register_spec(modrm_rm(inst@[2])),
            result: (rf@[general_register_spec(modrm_rm(inst@[2])).unwrap().num()]
                + rf@[general_register_spec(modrm_reg(inst@[2])).unwrap().num()]) as u64,
        }),
{
    let mod_rm = decode_mod_rm(inst[2]);
    let dest = mod_rm.rm;
    let src = mod_rm.reg;
    let result_value = rf.read64(dest) + rf.read64(src);
    DecodedInst::new(DestType::Register, Some(dest), result_value)
}

/// `jmp rel8` (`0xeb disp8`): the instruction pointer `rip` plus the
/// unsigned displacement byte.
pub fn decode_jmp(rip: u64, inst: &[u8]) -> (d: DecodedInst)
    requires
        inst@.len() >= 2,
        rip + inst@[1] <= u64::MAX,
    ensures
        d == (DecodedInst { dest_type: DestType::Rip, dest_rf: None, result: (rip + inst@[1]) as u64 }),
{
    let disp = inst[1];
    let rip = rip + disp as u64;
    DecodedInst::new(DestType::Rip, None, rip)
}

/// An undefined instruction does nothing.
pub fn undefined(_rf: &mut RegisterFile, _inst: &[u8])
    ensures
        final(_rf)@ == old(_rf)@,
{
}

/// The fields of a ModR/M byte as numbers: reg is `(b / 8) % 8` and r/m is
/// `b % 8`; a field below four names the register with that number.
pub proof fn lemma_modrm_field_values(b: u8)
    ensures
        modrm_reg(b) == (b / 8) % 8,
        modrm_rm(b) == b % 8,
        modrm_reg(b) < 4 ==> general_register_spec(modrm_reg(b)).unwrap().num() == modrm_reg(b),
        modrm_rm(b) < 4 ==> general_register_spec(modrm_rm(b)).unwrap().num() == modrm_rm(b),
{
    assert((b & 0b00111000u8) >> 3u8 == (b / 8) % 8 && b & 0b00000111u8 == b % 8) by (bit_vector);
}

} // verus!
