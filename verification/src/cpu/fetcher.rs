//! The fetch stage: splits the bytes at the instruction pointer into the
//! fields of one instruction.

use crate::bits::{
    bits_of, get_bits_u8, le_u16, le_u32, lemma_byte_field_values, lemma_clear_low_bits, lemma_le_u16_value,
    lemma_le_u32_value, read_le_u16, read_le_u32,
};
use crate::cpu::exceptions::InternalException;
use crate::cpu::isa::modrm::{invalid_modrm, lemma_modrm_fields, modrm_spec, ModRm, ModRmModeField};
use crate::cpu::isa::opcode::{decode_opcode, decode_opcode_spec, Opcode, OVERRIDE_OP_SIZE, REX, REX_WRXB};
use crate::cpu::isa::registers::Reg64Id;
use vstd::prelude::*;
use vstd::slice::slice_subrange;

verus! {

/// The length of the longest x86 instruction: a window of this many bytes
/// holds any instruction.
pub const FETCH_WINDOW: usize = 15;

/// The instruction pointer of the CPU.
#[derive(Debug)]
pub struct FetchUnit {
    rip: u64,
}

impl FetchUnit {
    /// A fetch unit at address 0.
    pub fn new() -> (f: FetchUnit)
        ensures
            f.rip() == 0,
    {
        FetchUnit { rip: 0 }
    }

    /// The address of the next instruction.
    pub closed spec fn rip(&self) -> u64 {
        self.rip
    }

    /// Fetches the instruction at the start of `program`, the bytes at the
    /// instruction pointer, and moves the instruction pointer past it.
    pub fn fetch(&mut self, program: &[u8]) -> (r: Result<FetchedInst, InternalException>)
        requires
            fetch_fits(program@),
            old(self).rip() + FETCH_WINDOW <= u64::MAX,
        ensures
            r == Ok::<FetchedInst, InternalException>(fetch_spec(program@, old(self).rip())),
            final(self).rip() == fetch_spec(program@, old(self).rip()).next_rip,
    {
        let inst = fetch_inst(program, self.rip);
        self.rip = inst.next_rip;
        Ok(inst)
    }

    /// The address of the next instruction.
    pub fn get_rip(&self) -> (rip: u64)
        ensures
            rip == self.rip(),
    {
        self.rip
    }

    /// Moves the instruction pointer to `next_rip`.
    pub fn set_rip(&mut self, next_rip: u64)
        ensures
            final(self).rip() == next_rip,
    {
        self.rip = next_rip;
    }
}

/// The fields of one fetched instruction.
#[derive(Debug, Clone, Copy, PartialEq, Eq, Structural)]
pub struct FetchedInst {
    /// The legacy prefix byte, 0 when there is none.
    pub lecacy_prefix: u32,
    /// The REX prefix byte, 0 when there is none.
    pub rex_prefix: u8,
    pub opcode: Opcode,
    /// The register number in the low three bits of the opcode byte.
    pub r: u8,
    pub mod_rm: ModRm,
    /// The SIB byte, 0 when there is none.
    pub sib: u8,
    pub displacement: u64,
    pub immediate: u64,
    /// The address just past the instruction.
    pub next_rip: u64,
}

impl FetchedInst {
    /// An instruction with the given fields, not yet placed at an address.
    pub fn new(
        prefix: u32,
        rex_prefix: u8,
        opcode: Opcode,
        r: u8,
        mod_rm: ModRm,
        sib: u8,
        disp: u64,
        imm: u64,
    ) -> (inst: FetchedInst)
        ensures
            inst == (FetchedInst {
                lecacy_prefix: prefix,
                rex_prefix,
                opcode,
                r,
                mod_rm,
                sib,
                displacement: disp,
                immediate: imm,
                next_rip: 0,
            }),
    {
        FetchedInst {
            lecacy_prefix: prefix,
            rex_prefix: rex_prefix,
            opcode: opcode,
            r: r,
            mod_rm: mod_rm,
            sib: sib,
            displacement: disp,
            immediate: imm,
            next_rip: 0,
        }
    }
}

/// The fetch state between two parsing steps: the fields parsed so far and
/// the offset of the next byte.
pub struct FetchedInstBuilder {
    pub lecacy_prefix: u32,
    pub rex_prefix: u8,
    pub opcode: Opcode,
    pub r: u8,
    pub mod_rm: ModRm,
    pub sib: u8,
    pub displacement: u64,
    pub immediate: u64,
    pub offset: usize,
}

/// The state before the first byte is parsed.
pub open spec fn builder_start() -> FetchedInstBuilder {
    FetchedInstBuilder {
        lecacy_prefix: 0,
        rex_prefix: 0,
        opcode: Opcode::Invalid,
        r: 0,
        mod_rm: invalid_modrm(),
        sib: 0,
        displacement: 0,
        immediate: 0,
        offset: 0,
    }
}

/// An operand-size override prefix is taken.
pub open spec fn step_legacy_prefix(s: FetchedInstBuilder, b: Seq<u8>) -> FetchedInstBuilder {
    if b[s.offset as int] == OVERRIDE_OP_SIZE {
        FetchedInstBuilder { lecacy_prefix: OVERRIDE_OP_SIZE as u32, offset: (s.offset + 1) as usize, ..s }
    } else {
        s
    }
}

/// A REX prefix (0x40..=0x4f) is taken.
pub open spec fn step_rex_prefix(s: FetchedInstBuilder, b: Seq<u8>) -> FetchedInstBuilder {
    if REX <= b[s.offset as int] && b[s.offset as int] <= REX_WRXB {
        FetchedInstBuilder { rex_prefix: b[s.offset as int], offset: (s.offset + 1) as usize, ..s }
    } else {
        s
    }
}

/// The low three bits of the opcode byte are kept as a register number.
pub open spec fn step_r(s: FetchedInstBuilder, b: Seq<u8>) -> FetchedInstBuilder {
    FetchedInstBuilder { r: bits_of(b[s.offset as int], 0, 3), ..s }
}

/// The opcode byte is decoded and taken.
pub open spec fn step_opcode(s: FetchedInstBuilder, b: Seq<u8>) -> FetchedInstBuilder {
    FetchedInstBuilder {
        opcode: decode_opcode_spec(b[s.offset as int]),
        offset: (s.offset + 1) as usize,
        ..s
    }
}

/// A ModR/M byte is taken when the opcode has one.
pub open spec fn step_modrm(s: FetchedInstBuilder, b: Seq<u8>) -> FetchedInstBuilder {
    if s.opcode.uses_modrm() {
        FetchedInstBuilder { mod_rm: modrm_spec(b[s.offset as int]), offset: (s.offset + 1) as usize, ..s }
    } else {
        s
    }
}

/// The instruction addresses memory through a SIB byte: a ModR/M operand
/// in memory with r/m 0b100.
pub open spec fn has_sib(opcode: Opcode, mod_rm: ModRm) -> bool {
    opcode.uses_modrm() && mod_rm.mode != ModRmModeField::Direct && mod_rm.rm == Reg64Id::Rsp
}

/// A SIB byte is taken when the ModR/M byte calls for one.
pub open spec fn step_sib(s: FetchedInstBuilder, b: Seq<u8>) -> FetchedInstBuilder {
    if has_sib(s.opcode, s.mod_rm) {
        FetchedInstBuilder { sib: b[s.offset as int], offset: (s.offset + 1) as usize, ..s }
    } else {
        s
    }
}

/// The number of displacement bytes: one for a short jump, four for a
/// call; after a ModR/M byte one or four by its mode, four for an absolute
/// address (mode 0 with r/m 0b101, or with a SIB base of 0b101), else none.
pub open spec fn disp_len(opcode: Opcode, mod_rm: ModRm, sib: u8) -> usize {
    match opcode {
        Opcode::JmpRel8 => 1,
        Opcode::CallRel32 => 4,
        _ => if opcode.uses_modrm() {
            match mod_rm.mode {
                ModRmModeField::OneByteDisp => 1,
                ModRmModeField::FourByteDisp => 4,
                ModRmModeField::Indirect => if (has_sib(opcode, mod_rm) && bits_of(sib, 0, 3) == 5)
                    || (!has_sib(opcode, mod_rm) && mod_rm.rm == Reg64Id::Rbp) {
                    4
                } else {
                    0
                },
                _ => 0,
            }
        } else {
            0
        },
    }
}

/// The number of immediate bytes: four for `mov r32, imm32`; two or four
/// (two under the operand-size prefix) for `mov r/m, imm`; one for
/// `mov r/m8, imm8`.
pub open spec fn imm_len(opcode: Opcode, prefix: u32) -> usize {
    match opcode {
        Opcode::MovImm32 => 4,
        Opcode::MovRmImm32 => if prefix == OVERRIDE_OP_SIZE as u32 {
            2
        } else {
            4
        },
        Opcode::MovRm8Imm8 => 1,
        _ => 0,
    }
}

/// The unsigned little-endian value of the `n` bytes of `b` at `off`
/// (`n` is 0, 1, 2 or 4).
pub open spec fn le_value(b: Seq<u8>, off: int, n: usize) -> u64 {
    if n == 1 {
        b[off] as u64
    } else if n == 2 {
        le_u16(b.subrange(off, off + 2)) as u64
    } else if n == 4 {
        le_u32(b.subrange(off, off + 4)) as u64
    } else {
        0
    }
}

/// The displacement bytes are taken.
pub open spec fn step_disp(s: FetchedInstBuilder, b: Seq<u8>) -> FetchedInstBuilder {
    let n = disp_len(s.opcode, s.mod_rm, s.sib);
    FetchedInstBuilder {
        displacement: le_value(b, s.offset as int, n),
        offset: (s.offset + n) as usize,
        ..s
    }
}

/// The immediate bytes are taken.
pub open spec fn step_imm(s: FetchedInstBuilder, b: Seq<u8>) -> FetchedInstBuilder {
    let n = imm_len(s.opcode, s.lecacy_prefix);
    FetchedInstBuilder { immediate: le_value(b, s.offset as int, n), offset: (s.offset + n) as usize, ..s }
}

/// The fetched instruction at address `rip` whose bytes start `b`: the
/// fields are parsed in order (operand-size prefix, REX prefix, opcode,
/// ModR/M, SIB, displacement, immediate).
pub open spec fn fetch_spec(b: Seq<u8>, rip: u64) -> FetchedInst {
    let s = step_imm(
        step_disp(
            step_sib(
                step_modrm(
                    step_opcode(
                        step_r(step_rex_prefix(step_legacy_prefix(builder_start(), b), b), b),
                        b,
                    ),
                    b,
                ),
                b,
            ),
            b,
        ),
        b,
    );
    FetchedInst {
        lecacy_prefix: s.lecacy_prefix,
        rex_prefix: s.rex_prefix,
        opcode: s.opcode,
        r: s.r,
        mod_rm: s.mod_rm,
        sib: s.sib,
        displacement: s.displacement,
        immediate: s.immediate,
        next_rip: (rip + s.offset) as u64,
    }
}

/// `b` holds the whole instruction at its start: every byte that the
/// fetch stage reads, each prefix, the opcode and what follows it, lies in
/// `b`.
pub open spec fn fetch_fits(b: Seq<u8>) -> bool {
    let s1 = step_legacy_prefix(builder_start(), b);
    let s2 = step_rex_prefix(s1, b);
    let s7 = step_imm(
        step_disp(step_sib(step_modrm(step_opcode(step_r(s2, b), b), b), b), b),
        b,
    );
    0 < b.len() && s1.offset < b.len() && s2.offset < b.len() && s7.offset <= b.len()
}

/// A window of the longest instruction's length holds any instruction.
pub proof fn lemma_window_fits(b: Seq<u8>)
    requires
        b.len() >= FETCH_WINDOW,
    ensures
        fetch_fits(b),
{
}

impl FetchedInstBuilder {
    fn new() -> (s: FetchedInstBuilder)
        ensures
            s == builder_start(),
    {
        FetchedInstBuilder {
            lecacy_prefix: 0,
            rex_prefix: 0,
            opcode: Opcode::Invalid,
            r: 0,
            mod_rm: ModRm::new_invalid(),
            sib: 0,
            displacement: 0,
            immediate: 0,
            offset: 0,
        }
    }

    fn parse_legacy_prefix(&mut self, program: &[u8])
        requires
            old(self).offset < program@.len(),
        ensures
            *final(self) == step_legacy_prefix(*old(self), program@),
    {
        if program[self.offset] == OVERRIDE_OP_SIZE {
            self.lecacy_prefix = OVERRIDE_OP_SIZE as u32;
            self.offset = self.offset + 1;
        }
    }

    fn parse_rex_prefix(&mut self, program: &[u8])
        requires
            old(self).offset < program@.len(),
        ensures
            *final(self) == step_rex_prefix(*old(self), program@),
    {
        let candidate = program[self.offset];
        if REX <= candidate && candidate <= REX_WRXB {
            self.rex_prefix = candidate;
            self.offset = self.offset + 1;
        }
    }

    fn parse_r(&mut self, program: &[u8])
        requires
            old(self).offset < program@.len(),
        ensures
            *final(self) == step_r(*old(self), program@),
    {
        self.r = get_bits_u8(program[self.offset], 0, 3);
    }

    fn parse_opcode(&mut self, program: &[u8])
        requires
            old(self).offset < program@.len(),
        ensures
            *final(self) == step_opcode(*old(self), program@),
    {
        self.opcode = decode_opcode(program[self.offset]);
        self.offset = self.offset + 1;
    }

    fn parse_modrm(&mut self, program: &[u8])
        requires
            old(self).opcode.uses_modrm() ==> old(self).offset < program@.len(),
        ensures
            *final(self) == step_modrm(*old(self), program@),
    {
        if self.opcode.has_modrm() {
            if let Some(modrm) = self.opcode.modrm_if_required(program[self.offset]) {
                self.mod_rm = modrm;
                self.offset = self.offset + 1;
            }
        }
    }

    fn parse_sib(&mut self, program: &[u8])
        requires
            has_sib(old(self).opcode, old(self).mod_rm) ==> old(self).offset < program@.len(),
        ensures
            *final(self) == step_sib(*old(self), program@),
    {
        if self.opcode.has_modrm() && self.mod_rm.mode != ModRmModeField::Direct && self.mod_rm.rm == Reg64Id::Rsp {
            self.sib = program[self.offset];
            self.offset = self.offset + 1;
        }
    }

    fn parse_disp(&mut self, program: &[u8])
        requires
            old(self).offset + disp_len(old(self).opcode, old(self).mod_rm, old(self).sib) <= program@.len(),
        ensures
            *final(self) == step_disp(*old(self), program@),
    {
        let _len = program.len();
        let n = disp_length(self.opcode, self.mod_rm, self.sib);
        self.displacement = read_le_value(program, self.offset, n);
        self.offset = self.offset + n;
    }

    fn parse_imm(&mut self, program: &[u8])
        requires
            old(self).offset + imm_len(old(self).opcode, old(self).lecacy_prefix) <= program@.len(),
        ensures
            *final(self) == step_imm(*old(self), program@),
    {
        let _len = program.len();
        let n = match self.opcode {
            Opcode::MovImm32 => 4,
            Opcode::MovRmImm32 => if self.lecacy_prefix == OVERRIDE_OP_SIZE as u32 {
                2
            } else {
                4
            },
            Opcode::MovRm8Imm8 => 1,
            _ => 0,
        };
        self.immediate = read_le_value(program, self.offset, n);
        self.offset = self.offset + n;
    }

    fn build(&self, rip: u64) -> (inst: FetchedInst)
        requires
            rip + self.offset <= u64::MAX,
        ensures
            inst == (FetchedInst {
                lecacy_prefix: self.lecacy_prefix,
                rex_prefix: self.rex_prefix,
                opcode: self.opcode,
                r: self.r,
                mod_rm: self.mod_rm,
                sib: self.sib,
                displacement: self.displacement,
                immediate: self.immediate,
                next_rip: (rip + self.offset) as u64,
            }),
    {
        FetchedInst {
            lecacy_prefix: self.lecacy_prefix,
            rex_prefix: self.rex_prefix,
            opcode: self.opcode,
            r: self.r,
            mod_rm: self.mod_rm,
            sib: self.sib,
            displacement: self.displacement,
            immediate: self.immediate,
            next_rip: rip + self.offset as u64,
        }
    }
}

fn disp_length(opcode: Opcode, mod_rm: ModRm, sib: u8) -> (n: usize)
    ensures
        n == disp_len(opcode, mod_rm, sib),
        n <= 4,
{
    let uses = opcode.has_modrm();
    let sib_used = uses && mod_rm.mode != ModRmModeField::Direct && mod_rm.rm == Reg64Id::Rsp;
    match opcode {
        Opcode::JmpRel8 => 1,
        Opcode::CallRel32 => 4,
        _ => if uses {
            match mod_rm.mode {
                ModRmModeField::OneByteDisp => 1,
                ModRmModeField::FourByteDisp => 4,
                ModRmModeField::Indirect => if (sib_used && get_bits_u8(sib, 0, 3) == 5) || (!sib_used
                    && mod_rm.rm == Reg64Id::Rbp) {
                    4
                } else {
                    0
                },
                _ => 0,
            }
        } else {
            0
        },
    }
}

fn read_le_value(program: &[u8], off: usize, n: usize) -> (v: u64)
    requires
        off + n <= program@.len(),
        n == 0 || n == 1 || n == 2 || n == 4,
    ensures
        v == le_value(program@, off as int, n),
{
    let _len = program.len();
    if n == 1 {
        program[off] as u64
    } else if n == 2 {
        read_le_u16(slice_subrange(program, off, off + 2)) as u64
    } else if n == 4 {
        read_le_u32(slice_subrange(program, off, off + 4)) as u64
    } else {
        0
    }
}

/// Fetches the instruction at address `rip` whose bytes start `program`.
pub fn fetch_inst(program: &[u8], rip: u64) -> (inst: FetchedInst)
    requires
        fetch_fits(program@),
        rip + FETCH_WINDOW <= u64::MAX,
    ensures
        inst == fetch_spec(program@, rip),
        inst.next_rip <= rip + 13,
{
    let mut b = FetchedInstBuilder::new();
    b.parse_legacy_prefix(program);
    b.parse_rex_prefix(program);
    b.parse_r(program);
    b.parse_opcode(program);
    b.parse_modrm(program);
    b.parse_sib(program);
    b.parse_disp(program);
    b.parse_imm(program);
    b.build(rip)
}

/// The fetch stage reads nothing past the instruction: two byte windows
/// that agree on the bytes of the instruction fetched from the first give
/// the same instruction.
pub proof fn lemma_fetch_reads_only_the_instruction(b1: Seq<u8>, b2: Seq<u8>, rip: u64)
    requires
        b1.len() >= FETCH_WINDOW,
        b2.len() >= FETCH_WINDOW,
        rip + FETCH_WINDOW <= u64::MAX,
        b1.subrange(0, fetch_spec(b1, rip).next_rip - rip) == b2.subrange(
            0,
            fetch_spec(b1, rip).next_rip - rip,
        ),
    ensures
        fetch_spec(b2, rip) == fetch_spec(b1, rip),
{
    let len = fetch_spec(b1, rip).next_rip - rip;
    assert forall|k: int| 0 <= k < len implies b1[k] == b2[k] by {
        assert(b1.subrange(0, len)[k] == b2.subrange(0, len)[k]);
    }
    let s0 = step_legacy_prefix(builder_start(), b1);
    let s1 = step_rex_prefix(s0, b1);
    let s2 = step_opcode(step_r(s1, b1), b1);
    let s3 = step_modrm(s2, b1);
    let s4 = step_sib(s3, b1);
    let s5 = step_disp(s4, b1);
    let s6 = step_imm(s5, b1);
    assert(s0 == step_legacy_prefix(builder_start(), b2));
    assert(s1 == step_rex_prefix(s0, b2));
    assert(s2 == step_opcode(step_r(s1, b2), b2));
    assert(s3 == step_modrm(s2, b2));
    assert(s4 == step_sib(s3, b2));
    let n4 = disp_len(s4.opcode, s4.mod_rm, s4.sib);
    assert(b1.subrange(s4.offset as int, s4.offset + n4) =~= b2.subrange(s4.offset as int, s4.offset + n4));
    assert(s5 == step_disp(s4, b2));
    let n5 = imm_len(s5.opcode, s5.lecacy_prefix);
    assert(b1.subrange(s5.offset as int, s5.offset + n5) =~= b2.subrange(s5.offset as int, s5.offset + n5));
    assert(s6 == step_imm(s5, b2));
}

/// The offset of the opcode byte in `b`: after an optional operand-size
/// prefix (0x66), then an optional REX prefix (0x40 to 0x4f).
pub open spec fn opcode_offset(b: Seq<u8>) -> int {
    let a: int = if b[0] == 0x66 { 1 } else { 0 };
    if 0x40 <= b[a] && b[a] <= 0x4f {
        a + 1
    } else {
        a
    }
}

/// A ModR/M operand in memory with a displacement: mode 0b10 carries four
/// displacement bytes (little-endian), mode 0b01 one. They follow the
/// ModR/M byte, and the SIB byte when r/m is 0b100; the immediate follows
/// them, and the next instruction follows the immediate.
pub proof fn lemma_displacement_bytes(b: Seq<u8>, rip: u64)
    requires
        b.len() >= FETCH_WINDOW,
        rip + FETCH_WINDOW <= u64::MAX,
        decode_opcode_spec(b[opcode_offset(b)]).uses_modrm(),
        0x40 <= b[opcode_offset(b) + 1] < 0xc0,
    ensures
        ({
            let p = opcode_offset(b);
            let m = b[p + 1];
            let d = if m % 8 == 4 { p + 3 } else { p + 2 };
            let inst = fetch_spec(b, rip);
            &&& inst.opcode == decode_opcode_spec(b[p])
            &&& inst.mod_rm == modrm_spec(m)
            &&& (m % 8 == 4 ==> inst.sib == b[p + 2])
            &&& (m >= 0x80 ==> inst.displacement == b[d] + 0x100 * b[d + 1] + 0x1_0000 * b[d + 2] + 0x100_0000
                * b[d + 3] && inst.next_rip == rip + d + 4 + imm_len(inst.opcode, inst.lecacy_prefix))
            &&& (m < 0x80 ==> inst.displacement == b[d] && inst.next_rip == rip + d + 1 + imm_len(
                inst.opcode,
                inst.lecacy_prefix,
            ))
        }),
{
    let p = opcode_offset(b);
    let m = b[p + 1];
    lemma_byte_field_values(m);
    let d = if m % 8 == 4 { p + 3 } else { p + 2 };
    lemma_le_u32_value(b.subrange(d, d + 4));
}

/// The little-endian value of the four bytes of `b` at `off`.
pub open spec fn le32_at(b: Seq<u8>, off: int) -> int {
    b[off] + 0x100 * b[off + 1] + 0x1_0000 * b[off + 2] + 0x100_0000 * b[off + 3]
}

/// The layout of an instruction: an operand-size prefix 0x66 and a REX
/// prefix are recorded; `push r` (0x50 + r), `pop r` (0x58 + r), `ret` and
/// `hlt` are one byte; `mov r32, imm32` (0xb8 + r) takes a four-byte
/// immediate; `jmp rel8` a one-byte and `call rel32` a four-byte
/// displacement; the next instruction follows the last byte taken.
pub proof fn lemma_instruction_layout(b: Seq<u8>, rip: u64)
    requires
        b.len() >= FETCH_WINDOW,
        rip + FETCH_WINDOW <= u64::MAX,
    ensures
        ({
            let a: int = if b[0] == 0x66 { 1 } else { 0 };
            let p = opcode_offset(b);
            let o = b[p];
            let inst = fetch_spec(b, rip);
            &&& inst.lecacy_prefix == (if b[0] == 0x66 { 0x66u32 } else { 0 })
            &&& inst.rex_prefix == (if 0x40 <= b[a] <= 0x4f { b[a] } else { 0 })
            &&& (0x50 <= o <= 0x57 ==> inst.opcode == Opcode::PushR && inst.r == o - 0x50 && inst.next_rip
                == rip + p + 1)
            &&& (0x58 <= o <= 0x5f ==> inst.opcode == Opcode::PopR && inst.r == o - 0x58 && inst.next_rip
                == rip + p + 1)
            &&& (0xb8 <= o <= 0xbf ==> inst.opcode == Opcode::MovImm32 && inst.r == o - 0xb8
                && inst.immediate == le32_at(b, p + 1) && inst.next_rip == rip + p + 5)
            &&& (o == 0xf4 ==> inst.opcode == Opcode::Halt && inst.next_rip == rip + p + 1)
            &&& (o == 0xc3 ==> inst.opcode == Opcode::Ret && inst.next_rip == rip + p + 1)
            &&& (o == 0xeb ==> inst.opcode == Opcode::JmpRel8 && inst.displacement == b[p + 1]
                && inst.next_rip == rip + p + 2)
            &&& (o == 0xe8 ==> inst.opcode == Opcode::CallRel32 && inst.displacement == le32_at(b, p + 1)
                && inst.next_rip == rip + p + 5)
        }),
{
    let p = opcode_offset(b);
    let o = b[p];
    lemma_clear_low_bits(o);
    lemma_byte_field_values(o);
    lemma_le_u32_value(b.subrange(p + 1, p + 5));
}

/// A ModR/M operand in register mode (mode 0b11): the reg and r/m fields
/// are bits 3..6 and 0..3 of the byte, no displacement is taken, and the
/// immediate follows the ModR/M byte: one byte for `mov r/m8, imm8`, two
/// (under 0x66) or four for `mov r/m, imm32`, none otherwise.
pub proof fn lemma_register_operand(b: Seq<u8>, rip: u64)
    requires
        b.len() >= FETCH_WINDOW,
        rip + FETCH_WINDOW <= u64::MAX,
        decode_opcode_spec(b[opcode_offset(b)]).uses_modrm(),
        b[opcode_offset(b) + 1] >= 0xc0,
    ensures
        ({
            let p = opcode_offset(b);
            let o = b[p];
            let m = b[p + 1];
            let inst = fetch_spec(b, rip);
            &&& inst.mod_rm.mode == ModRmModeField::Direct
            &&& inst.mod_rm.reg.num() == (m / 8) % 8
            &&& inst.mod_rm.rm.num() == m % 8
            &&& inst.displacement == 0
            &&& (o == 0xc7 && b[0] == 0x66 ==> inst.immediate == b[p + 2] + 0x100 * b[p + 3] && inst.next_rip
                == rip + p + 4)
            &&& (o == 0xc7 && b[0] != 0x66 ==> inst.immediate == le32_at(b, p + 2) && inst.next_rip == rip + p
                + 6)
            &&& (o == 0xc6 ==> inst.immediate == b[p + 2] && inst.next_rip == rip + p + 3)
            &&& (o == 0x01 || o == 0xff || o == 0x89 || o == 0x8b ==> inst.immediate == 0 && inst.next_rip
                == rip + p + 2)
        }),
{
    let p = opcode_offset(b);
    let m = b[p + 1];
    lemma_byte_field_values(m);
    lemma_modrm_fields(m);
    lemma_le_u32_value(b.subrange(p + 2, p + 6));
    lemma_le_u16_value(b.subrange(p + 2, p + 4));
}

} // verus!
