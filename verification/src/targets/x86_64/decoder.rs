//! The decode stage of the 64-bit CPU: turns a fetched instruction into
//! micro-operations, reading the registers that they use and computing the
//! address of a memory operand from its ModR/M, SIB and displacement.

use crate::bits::{bits_of, get_bits_u8, lemma_byte_field_values};
use crate::cpu::decoder::{
    jump_uop, load_uop, mov_uop, new_jump, new_load, new_mov, new_store, new_uop, reg_from,
    reg_of, reg_value, store_uop, uop, wadd, wsub, ExOpcode, ExecuteInst, ExecuteInstType,
};
use crate::cpu::exceptions::InternalException;
use crate::cpu::fetcher::{
    builder_start, fetch_spec, has_sib, step_legacy_prefix, step_opcode, step_r, step_rex_prefix,
    FetchedInst, FETCH_WINDOW,
};
use crate::cpu::isa::modrm::{lemma_byte_fields, lemma_modrm_fields, ModRmModeField};
use crate::cpu::isa::opcode::{Opcode, OVERRIDE_OP_SIZE};
use crate::cpu::isa::registers::{lemma_reg64_numbers, Reg64Id};
use crate::cpu::register_file::RegisterFile;
use crate::targets::x86_64::isa::opcode::OperandSize;
use vstd::prelude::*;

verus! {

/// A fetched instruction that the decode stage can read: an opcode that
/// names a register in its low three bits (`mov r, imm`, `push`, `pop`)
/// names one below 8, and an instruction with a ModR/M byte names real
/// registers and a real addressing mode.
pub open spec fn decodable(inst: FetchedInst) -> bool {
    &&& (inst.opcode == Opcode::MovImm32 || inst.opcode == Opcode::PushR || inst.opcode == Opcode::PopR)
        ==> inst.r < 8
    &&& inst.opcode.uses_modrm() ==> {
        &&& inst.mod_rm.reg != Reg64Id::Unknown
        &&& inst.mod_rm.rm != Reg64Id::Unknown
        &&& inst.mod_rm.mode != ModRmModeField::Unused
    }
}


/// The address of the memory operand of an instruction with a ModR/M byte:
/// through a SIB byte the base register (none for base 0b101 in mode 0)
/// plus the index register (none for index 0b100) shifted by the scale;
/// with mode 0 and r/m 0b101 no register; otherwise the r/m register; then
/// the displacement is added. All sums wrap around at 2^64.
pub open spec fn effective_address(regs: Seq<u64>, inst: FetchedInst) -> u64 {
    let base = if has_sib(inst.opcode, inst.mod_rm) {
        let b = if bits_of(inst.sib, 0, 3) == 5 && inst.mod_rm.mode == ModRmModeField::Indirect {
            0u64
        } else {
            reg_value(regs, reg_of(bits_of(inst.sib, 0, 3)))
        };
        let i = if bits_of(inst.sib, 3, 6) == 4 {
            0u64
        } else {
            (reg_value(regs, reg_of(bits_of(inst.sib, 3, 6))) << bits_of(inst.sib, 6, 8)) as u64
        };
        wadd(b, i)
    } else if inst.mod_rm.mode == ModRmModeField::Indirect && inst.mod_rm.rm == Reg64Id::Rbp {
        0u64
    } else {
        reg_value(regs, inst.mod_rm.rm)
    };
    wadd(base, inst.displacement)
}

/// The width of the memory operand of `mov r/m, r` and `mov r/m, imm`:
/// a word under the operand-size prefix, a quadword under REX.W, else a
/// doubleword.
pub open spec fn store_size(inst: FetchedInst) -> OperandSize {
    if inst.lecacy_prefix == OVERRIDE_OP_SIZE as u32 {
        OperandSize::Word
    } else if inst.rex_prefix & 8 != 0 {
        OperandSize::QuadWord
    } else {
        OperandSize::DoubleWord
    }
}


/// The micro-operations of a fetched instruction, with the registers read
/// from `regs`; the stack grows down by eight bytes per push.
pub open spec fn decode_spec(regs: Seq<u64>, inst: FetchedInst) -> Result<
    Seq<ExecuteInstType>,
    InternalException,
> {
    let rsp = reg_value(regs, Reg64Id::Rsp);
    let rm = inst.mod_rm.rm;
    let reg = inst.mod_rm.reg;
    match inst.opcode {
        Opcode::Add => Ok(
            seq![ExecuteInstType::ArithLogic(ExecuteInst {
                dest: Some(rm),
                op1: Some(reg_value(regs, rm)),
                op2: Some(reg_value(regs, reg)),
                ..uop(ExOpcode::Add)
            })],
        ),
        Opcode::CallRel32 => Ok(
            seq![
                mov_uop(Reg64Id::Rsp, wsub(rsp, 8)),
                store_uop(wsub(rsp, 8), inst.next_rip, OperandSize::QuadWord),
                jump_uop(inst.next_rip, inst.displacement),
            ],
        ),
        Opcode::Halt => Ok(seq![ExecuteInstType::Privilege(uop(ExOpcode::Halt))]),
        Opcode::Inc => Ok(
            seq![ExecuteInstType::ArithLogic(ExecuteInst {
                dest: Some(rm),
                op1: Some(reg_value(regs, rm)),
                ..uop(ExOpcode::Inc)
            })],
        ),
        Opcode::JmpRel8 => Ok(seq![jump_uop(inst.next_rip, inst.displacement)]),
        Opcode::MovToReg => Ok(seq![load_uop(reg, effective_address(regs, inst))]),
        Opcode::MovToRm => Ok(
            seq![store_uop(effective_address(regs, inst), reg_value(regs, reg), store_size(inst))],
        ),
        Opcode::MovImm32 => Ok(seq![mov_uop(reg_of(inst.r), inst.immediate)]),
        Opcode::MovRmImm32 => if inst.mod_rm.mode == ModRmModeField::Direct {
            Ok(seq![mov_uop(rm, inst.immediate)])
        } else {
            Ok(seq![store_uop(effective_address(regs, inst), inst.immediate, store_size(inst))])
        },
        Opcode::MovRm8Imm8 => if inst.mod_rm.mode == ModRmModeField::Direct {
            Ok(seq![mov_uop(rm, inst.immediate)])
        } else {
            Ok(seq![store_uop(effective_address(regs, inst), inst.immediate, OperandSize::Byte)])
        },
        Opcode::PushR => Ok(
            seq![
                mov_uop(Reg64Id::Rsp, wsub(rsp, 8)),
                store_uop(wsub(rsp, 8), reg_value(regs, reg_of(inst.r)), OperandSize::QuadWord),
            ],
        ),
        Opcode::PopR => Ok(seq![load_uop(reg_of(inst.r), rsp), mov_uop(Reg64Id::Rsp, wadd(rsp, 8))]),
        Opcode::Ret => Ok(
            seq![
                ExecuteInstType::Branch(ExecuteInst { op1: Some(rsp), ..uop(ExOpcode::Return) }),
                mov_uop(Reg64Id::Rsp, wadd(rsp, 8)),
            ],
        ),
        Opcode::Invalid => Err(InternalException::UndefinedInstruction { opcode: Opcode::Invalid }),
    }
}


fn calc_effective_address(rf: &RegisterFile, inst: &FetchedInst) -> (a: u64)
    requires
        decodable(*inst),
        inst.opcode.uses_modrm(),
    ensures
        a == effective_address(rf@, *inst),
{
    let uses_sib = inst.mod_rm.mode != ModRmModeField::Direct && inst.mod_rm.rm == Reg64Id::Rsp;
    let base = if uses_sib {
        proof {
            lemma_byte_fields(inst.sib);
        }
        let base_bits = get_bits_u8(inst.sib, 0, 3);
        let index_bits = get_bits_u8(inst.sib, 3, 6);
        let scale_bits = get_bits_u8(inst.sib, 6, 8);
        let b = if base_bits == 5 && inst.mod_rm.mode == ModRmModeField::Indirect {
            0u64
        } else {
            rf.read64(reg_from(base_bits))
        };
        let i = if index_bits == 4 {
            0u64
        } else {
            rf.read64(reg_from(index_bits)) << scale_bits
        };
        b.wrapping_add(i)
    } else if inst.mod_rm.mode == ModRmModeField::Indirect && inst.mod_rm.rm == Reg64Id::Rbp {
        0u64
    } else {
        rf.read64(inst.mod_rm.rm)
    };
    base.wrapping_add(inst.displacement)
}

fn calc_store_size(inst: &FetchedInst) -> (s: OperandSize)
    ensures
        s == store_size(*inst),
{
    if inst.lecacy_prefix == OVERRIDE_OP_SIZE as u32 {
        OperandSize::Word
    } else if inst.rex_prefix & 8 != 0 {
        OperandSize::QuadWord
    } else {
        OperandSize::DoubleWord
    }
}

/// Turns a fetched instruction into its micro-operations.
pub fn decode(rf: &RegisterFile, inst: &FetchedInst) -> (r: Result<Vec<ExecuteInstType>, InternalException>)
    requires
        decodable(*inst),
    ensures
        match decode_spec(rf@, *inst) {
            Ok(s) => r matches Ok(v) && v@ == s,
            Err(e) => r == Err::<Vec<ExecuteInstType>, InternalException>(e),
        },
{
    match inst.opcode {
        Opcode::Add => Ok(decode_add(rf, inst)),
        Opcode::CallRel32 => Ok(decode_call(rf, inst)),
        Opcode::Halt => Ok(decode_halt(inst)),
        Opcode::Inc => Ok(decode_inc(rf, inst)),
        Opcode::JmpRel8 => Ok(decode_jmp(inst)),
        Opcode::MovToReg => Ok(decode_load(rf, inst)),
        Opcode::MovToRm => Ok(decode_store(rf, inst)),
        Opcode::MovImm32 => Ok(decode_reg_mov(inst)),
        Opcode::MovRmImm32 => Ok(decode_mov_rm_imm(rf, inst)),
        Opcode::MovRm8Imm8 => Ok(decode_mov_rm8_imm8(rf, inst)),
        Opcode::PushR => Ok(decode_pushr(rf, inst)),
        Opcode::PopR => Ok(decode_popr(rf, inst)),
        Opcode::Ret => Ok(decode_ret(rf, inst)),
        Opcode::Invalid => Err(InternalException::UndefinedInstruction { opcode: inst.opcode }),
    }
}

fn decode_inc(rf: &RegisterFile, inst: &FetchedInst) -> (v: Vec<ExecuteInstType>)
    requires
        decodable(*inst),
        inst.opcode == Opcode::Inc,
    ensures
        decode_spec(rf@, *inst) == Ok::<Seq<ExecuteInstType>, InternalException>(v@),
{
    let dest = inst.mod_rm.rm;
    let op1 = rf.read64(dest);
    let uop1 = ExecuteInst { dest: Some(dest), op1: Some(op1), ..new_uop(ExOpcode::Inc) };
    let v = vec![ExecuteInstType::ArithLogic(uop1)];
    assert(v@ =~= decode_spec(rf@, *inst)->Ok_0);
    v
}

fn decode_add(rf: &RegisterFile, inst: &FetchedInst) -> (v: Vec<ExecuteInstType>)
    requires
        decodable(*inst),
        inst.opcode == Opcode::Add,
    ensures
        decode_spec(rf@, *inst) == Ok::<Seq<ExecuteInstType>, InternalException>(v@),
{
    let dest = inst.mod_rm.rm;
    let src = inst.mod_rm.reg;
    let op1 = rf.read64(dest);
    let op2 = rf.read64(src);
    let uop1 = ExecuteInst { dest: Some(dest), op1: Some(op1), op2: Some(op2), ..new_uop(ExOpcode::Add) };
    let v = vec![ExecuteInstType::ArithLogic(uop1)];
    assert(v@ =~= decode_spec(rf@, *inst)->Ok_0);
    v
}

fn decode_reg_mov(inst: &FetchedInst) -> (v: Vec<ExecuteInstType>)
    requires
        decodable(*inst),
        inst.opcode == Opcode::MovImm32,
    ensures
        forall|regs: Seq<u64>| decode_spec(regs, *inst) == Ok::<Seq<ExecuteInstType>, InternalException>(v@),
{
    let dest = reg_from(inst.r);
    let v = vec![new_mov(dest, inst.immediate)];
    assert(v@ =~= seq![mov_uop(reg_of(inst.r), inst.immediate)]);
    v
}

fn decode_mov_rm_imm(rf: &RegisterFile, inst: &FetchedInst) -> (v: Vec<ExecuteInstType>)
    requires
        decodable(*inst),
        inst.opcode == Opcode::MovRmImm32,
    ensures
        decode_spec(rf@, *inst) == Ok::<Seq<ExecuteInstType>, InternalException>(v@),
{
    let v = if inst.mod_rm.mode == ModRmModeField::Direct {
        vec![new_mov(inst.mod_rm.rm, inst.immediate)]
    } else {
        let addr = calc_effective_address(rf, inst);
        vec![new_store(addr, inst.immediate, calc_store_size(inst))]
    };
    assert(v@ =~= decode_spec(rf@, *inst)->Ok_0);
    v
}

fn decode_mov_rm8_imm8(rf: &RegisterFile, inst: &FetchedInst) -> (v: Vec<ExecuteInstType>)
    requires
        decodable(*inst),
        inst.opcode == Opcode::MovRm8Imm8,
    ensures
        decode_spec(rf@, *inst) == Ok::<Seq<ExecuteInstType>, InternalException>(v@),
{
    let v = if inst.mod_rm.mode == ModRmModeField::Direct {
        vec![new_mov(inst.mod_rm.rm, inst.immediate)]
    } else {
        let addr = calc_effective_address(rf, inst);
        vec![new_store(addr, inst.immediate, OperandSize::Byte)]
    };
    assert(v@ =~= decode_spec(rf@, *inst)->Ok_0);
    v
}

fn decode_load(rf: &RegisterFile, inst: &FetchedInst) -> (v: Vec<ExecuteInstType>)
    requires
        decodable(*inst),
        inst.opcode == Opcode::MovToReg,
    ensures
        decode_spec(rf@, *inst) == Ok::<Seq<ExecuteInstType>, InternalException>(v@),
{
    let addr = calc_effective_address(rf, inst);
    let v = vec![new_load(inst.mod_rm.reg, addr)];
    assert(v@ =~= decode_spec(rf@, *inst)->Ok_0);
    v
}

fn decode_store(rf: &RegisterFile, inst: &FetchedInst) -> (v: Vec<ExecuteInstType>)
    requires
        decodable(*inst),
        inst.opcode == Opcode::MovToRm,
    ensures
        decode_spec(rf@, *inst) == Ok::<Seq<ExecuteInstType>, InternalException>(v@),
{
    let addr = calc_effective_address(rf, inst);
    let result = rf.read64(inst.mod_rm.reg);
    let v = vec![new_store(addr, result, calc_store_size(inst))];
    assert(v@ =~= decode_spec(rf@, *inst)->Ok_0);
    v
}

fn decode_jmp(inst: &FetchedInst) -> (v: Vec<ExecuteInstType>)
    requires
        inst.opcode == Opcode::JmpRel8,
    ensures
        forall|regs: Seq<u64>| decode_spec(regs, *inst) == Ok::<Seq<ExecuteInstType>, InternalException>(v@),
{
    let v = vec![new_jump(inst.next_rip, inst.displacement)];
    assert(v@ =~= seq![jump_uop(inst.next_rip, inst.displacement)]);
    v
}

fn decode_halt(inst: &FetchedInst) -> (v: Vec<ExecuteInstType>)
    requires
        inst.opcode == Opcode::Halt,
    ensures
        forall|regs: Seq<u64>| decode_spec(regs, *inst) == Ok::<Seq<ExecuteInstType>, InternalException>(v@),
{
    let v = vec![ExecuteInstType::Privilege(new_uop(ExOpcode::Halt))];
    assert(v@ =~= seq![ExecuteInstType::Privilege(uop(ExOpcode::Halt))]);
    v
}

fn decode_call(rf: &RegisterFile, inst: &FetchedInst) -> (v: Vec<ExecuteInstType>)
    requires
        inst.opcode == Opcode::CallRel32,
    ensures
        decode_spec(rf@, *inst) == Ok::<Seq<ExecuteInstType>, InternalException>(v@),
{
    let new_sp = rf.read64(Reg64Id::Rsp).wrapping_sub(8);
    let v = vec![
        new_mov(Reg64Id::Rsp, new_sp),
        new_store(new_sp, inst.next_rip, OperandSize::QuadWord),
        new_jump(inst.next_rip, inst.displacement),
    ];
    assert(v@ =~= decode_spec(rf@, *inst)->Ok_0);
    v
}

fn decode_ret(rf: &RegisterFile, inst: &FetchedInst) -> (v: Vec<ExecuteInstType>)
    requires
        inst.opcode == Opcode::Ret,
    ensures
        decode_spec(rf@, *inst) == Ok::<Seq<ExecuteInstType>, InternalException>(v@),
{
    let sp = rf.read64(Reg64Id::Rsp);
    let ret = ExecuteInst { op1: Some(sp), ..new_uop(ExOpcode::Return) };
    let v = vec![ExecuteInstType::Branch(ret), new_mov(Reg64Id::Rsp, sp.wrapping_add(8))];
    assert(v@ =~= decode_spec(rf@, *inst)->Ok_0);
    v
}

fn decode_pushr(rf: &RegisterFile, inst: &FetchedInst) -> (v: Vec<ExecuteInstType>)
    requires
        decodable(*inst),
        inst.opcode == Opcode::PushR,
    ensures
        decode_spec(rf@, *inst) == Ok::<Seq<ExecuteInstType>, InternalException>(v@),
{
    let new_sp = rf.read64(Reg64Id::Rsp).wrapping_sub(8);
    let data = rf.read64(reg_from(inst.r));
    let v = vec![new_mov(Reg64Id::Rsp, new_sp), new_store(new_sp, data, OperandSize::QuadWord)];
    assert(v@ =~= decode_spec(rf@, *inst)->Ok_0);
    v
}

fn decode_popr(rf: &RegisterFile, inst: &FetchedInst) -> (v: Vec<ExecuteInstType>)
    requires
        decodable(*inst),
        inst.opcode == Opcode::PopR,
    ensures
        decode_spec(rf@, *inst) == Ok::<Seq<ExecuteInstType>, InternalException>(v@),
{
    let dest = reg_from(inst.r);
    let sp = rf.read64(Reg64Id::Rsp);
    let v = vec![new_load(dest, sp), new_mov(Reg64Id::Rsp, sp.wrapping_add(8))];
    assert(v@ =~= decode_spec(rf@, *inst)->Ok_0);
    v
}

/// Whether the decode stage can read a fetched instruction.
pub fn is_decodable(inst: &FetchedInst) -> (b: bool)
    ensures
        b == decodable(*inst),
{
    let reg_opcode = match inst.opcode {
        Opcode::MovImm32 | Opcode::PushR | Opcode::PopR => true,
        _ => false,
    };
    (!reg_opcode || inst.r < 8) && (!inst.opcode.has_modrm() || (inst.mod_rm.reg != Reg64Id::Unknown
        && inst.mod_rm.rm != Reg64Id::Unknown && inst.mod_rm.mode != ModRmModeField::Unused))
}

/// Every instruction that the fetch stage produces can be decoded.
pub proof fn lemma_fetched_decodable(b: Seq<u8>, rip: u64)
    requires
        b.len() >= FETCH_WINDOW,
    ensures
        decodable(fetch_spec(b, rip)),
{
    let s0 = step_legacy_prefix(builder_start(), b);
    let s1 = step_rex_prefix(s0, b);
    lemma_byte_fields(b[s1.offset as int]);
    let s3 = step_opcode(step_r(s1, b), b);
    lemma_modrm_fields(b[s3.offset as int]);
}

/// The address of a memory operand: with no SIB byte, the r/m register plus
/// the displacement (the displacement alone in mode 0 with r/m 0b101);
/// through a SIB byte without index (index 0b100), the base register plus
/// the displacement; with index and scale 0, base plus index plus
/// displacement. Sums are taken modulo 2^64.
pub proof fn lemma_effective_address(regs: Seq<u64>, inst: FetchedInst)
    requires
        regs.len() == 8,
        decodable(inst),
        inst.opcode.uses_modrm(),
        inst.mod_rm.mode != ModRmModeField::Direct,
    ensures
        ({
            let m: int = 0x1_0000_0000_0000_0000;
            let rm = inst.mod_rm.rm;
            let base = inst.sib % 8;
            let index = (inst.sib / 8) % 8;
            let base_value: int = if base == 5 && inst.mod_rm.mode == ModRmModeField::Indirect {
                0
            } else {
                regs[base as int] as int
            };
            &&& (rm != Reg64Id::Rsp && !(inst.mod_rm.mode == ModRmModeField::Indirect && rm == Reg64Id::Rbp)
                ==> effective_address(regs, inst) == (regs[rm.num()] + inst.displacement) % m)
            &&& (rm == Reg64Id::Rbp && inst.mod_rm.mode == ModRmModeField::Indirect ==> effective_address(
                regs,
                inst,
            ) == inst.displacement)
            &&& (rm == Reg64Id::Rsp && index == 4 ==> effective_address(regs, inst) == (base_value
                + inst.displacement) % m)
            &&& (rm == Reg64Id::Rsp && index != 4 && inst.sib < 64 ==> effective_address(regs, inst) == (
            base_value + regs[index as int] + inst.displacement) % m)
        }),
{
    let sib = inst.sib;
    lemma_byte_field_values(sib);
    lemma_reg64_numbers(sib % 8);
    lemma_reg64_numbers((sib / 8) % 8);
    let x = reg_value(regs, reg_of(bits_of(sib, 3, 6)));
    assert(x << 0u8 == x) by (bit_vector);
}

/// The width of a store: two bytes under the operand-size prefix 0x66,
/// else eight under a REX prefix with its W bit (bit 3) set, else four.
pub proof fn lemma_store_width(inst: FetchedInst)
    ensures
        inst.lecacy_prefix == 0x66 ==> store_size(inst) == OperandSize::Word,
        inst.lecacy_prefix != 0x66 && (inst.rex_prefix / 8) % 2 == 1 ==> store_size(inst) == OperandSize::QuadWord,
        inst.lecacy_prefix != 0x66 && (inst.rex_prefix / 8) % 2 == 0 ==> store_size(inst)
            == OperandSize::DoubleWord,
{
    let r = inst.rex_prefix;
    assert((r & 8 != 0) == ((r / 8) % 2 == 1)) by (bit_vector);
}

} // verus!
