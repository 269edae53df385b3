//! The fetch stage of the real-mode CPU.

use crate::bits::{bits_of, get_bits_u8, le_u16, le_u32, read_le_u16, read_le_u32};
use crate::targets::x86::gpr::{lemma_reg32_numbers, reg32_spec, Reg32};
use crate::targets::x86::isa::modrm::{modrm32_spec, ModRm};
use crate::targets::x86::isa::opcode::{meta_spec, MetaInst, Opcode, ADDRESS_SIZE_OVERRIDE_PREFIX};
use crate::targets::x86::{undefined_opcode_text, CompatibleException};
use crate::cpu::isa::modrm::lemma_byte_fields;
use vstd::prelude::*;
use vstd::slice::slice_subrange;

verus! {

/// The bytes that the run loop reads at the instruction pointer: the longest x86
/// instruction.
pub const FETCH_WINDOW: usize = 15;

/// The fields of one fetched instruction.
#[derive(Debug, Clone, Copy, PartialEq, Eq, Structural)]
pub struct FetchedInst {
    pub opcode: Opcode,
    pub modrm: Option<ModRm>,
    /// The register number in the low three bits of a "plus r" opcode.
    pub rd: u8,
    pub imm: Option<u64>,
    pub disp: Option<u64>,
    /// The length of the instruction in bytes.
    pub inst_bytes: u64,
}

impl FetchedInst {
    pub fn get_opcode(&self) -> (op: Opcode)
        ensures
            op == self.opcode,
    {
        self.opcode
    }

    /// The address of the next instruction when this one is at `ip`.
    pub fn increment_ip(&self, ip: u64) -> (next: u64)
        requires
            ip + self.inst_bytes <= u64::MAX,
        ensures
            next == ip + self.inst_bytes,
    {
        ip + self.inst_bytes
    }

    /// The ModR/M byte; the instruction must have one.
    pub fn get_modrm(&self) -> (m: ModRm)
        requires
            self.modrm is Some,
        ensures
            m == self.modrm.unwrap(),
    {
        self.modrm.unwrap()
    }

    /// The register of the opcode byte.
    pub fn get_rd(&self) -> (r: Reg32)
        requires
            self.rd < 8,
        ensures
            r == reg32_spec(self.rd).unwrap(),
    {
        proof {
            lemma_reg32_numbers(self.rd);
        }
        Reg32::from_u8(self.rd).unwrap()
    }

    /// The immediate; the instruction must have one.
    pub fn get_imm(&self) -> (v: u64)
        requires
            self.imm is Some,
        ensures
            v == self.imm.unwrap(),
    {
        self.imm.unwrap()
    }

    /// The displacement; the instruction must have one.
    pub fn get_disp(&self) -> (v: u64)
        requires
            self.disp is Some,
        ensures
            v == self.disp.unwrap(),
    {
        self.disp.unwrap()
    }
}

/// The value of an operand of type `t` at offset `off` of `b`: four
/// little-endian bytes under the address-size prefix, two otherwise; and
/// its length.
pub open spec fn operand_spec(b: Seq<u8>, off: int, addr32: bool) -> (u64, int) {
    if addr32 {
        (le_u32(b.subrange(off, off + 4)) as u64, 4)
    } else {
        (le_u16(b.subrange(off, off + 2)) as u64, 2)
    }
}

/// The instruction whose bytes start `b`, fields in order: the
/// address-size prefix, the opcode (with the register number of a "plus r"
/// opcode), the ModR/M byte, the immediate, the displacement. `None` when
/// the opcode byte is undefined.
pub open spec fn fetch32_spec(b: Seq<u8>) -> Option<FetchedInst> {
    let addr32 = b[0] == ADDRESS_SIZE_OVERRIDE_PREFIX;
    let off0: int = if addr32 { 1 } else { 0 };
    match meta_spec(b[off0]) {
        None => None,
        Some(m) => {
            let rd: u8 = if m.r { bits_of(b[off0], 0, 3) } else { 0 };
            let off1 = off0 + 1;
            let modrm = if m.modrm { Some(modrm32_spec(b[off1])) } else { None };
            let off2 = if m.modrm { off1 + 1 } else { off1 };
            let imm = if m.imm_type is Some { Some(operand_spec(b, off2, addr32).0) } else { None };
            let off3 = if m.imm_type is Some { off2 + operand_spec(b, off2, addr32).1 } else { off2 };
            let disp = if m.disp_type is Some { Some(operand_spec(b, off3, addr32).0) } else { None };
            let off4 = if m.disp_type is Some { off3 + operand_spec(b, off3, addr32).1 } else { off3 };
            Some(FetchedInst { opcode: m.opcode, modrm, rd, imm, disp, inst_bytes: off4 as u64 })
        },
    }
}

/// The number of bytes of the instruction whose bytes start `b` and whose
/// opcode byte `b[off0]` is described by `m`: prefix, opcode, ModR/M byte,
/// immediate and displacement (four bytes each under the address-size
/// prefix, two otherwise).
pub open spec fn inst32_len(b: Seq<u8>, off0: int, m: MetaInst) -> int {
    let n: int = if b[0] == ADDRESS_SIZE_OVERRIDE_PREFIX { 4 } else { 2 };
    off0 + 1 + (if m.modrm { 1int } else { 0 }) + (if m.imm_type is Some { n } else { 0 }) + (
    if m.disp_type is Some {
        n
    } else {
        0
    })
}

/// `b` holds the whole instruction at its start: the prefix and opcode
/// bytes, and, for a defined opcode, every byte that its description asks
/// for.
pub open spec fn fetch32_fits(b: Seq<u8>) -> bool {
    &&& b.len() >= 1
    &&& {
        let off0: int = if b[0] == ADDRESS_SIZE_OVERRIDE_PREFIX { 1 } else { 0 };
        &&& b.len() > off0
        &&& match meta_spec(b[off0]) {
            None => true,
            Some(m) => inst32_len(b, off0, m) <= b.len(),
        }
    }
}

/// The opcode byte of the instruction whose bytes start `b`.
pub open spec fn opcode_byte(b: Seq<u8>) -> u8 {
    if b[0] == ADDRESS_SIZE_OVERRIDE_PREFIX {
        b[1]
    } else {
        b[0]
    }
}

/// The fetch state between two parsing steps.
struct FetchedInstBuilder {
    addr_size_override: bool,
    opcode: Opcode,
    modrm: Option<ModRm>,
    rd: u8,
    imm: Option<u64>,
    disp: Option<u64>,
    current_offset: usize,
    meta_inst: MetaInst,
}

/// Reads an operand of four bytes under the address-size prefix, else two.
fn read_operand(program: &[u8], off: usize, addr32: bool) -> (r: (u64, usize))
    requires
        off + (if addr32 { 4int } else { 2 }) <= program@.len(),
    ensures
        r.0 == operand_spec(program@, off as int, addr32).0,
        r.1 == operand_spec(program@, off as int, addr32).1,
{
    let _len = program.len();
    if addr32 {
        (read_le_u32(slice_subrange(program, off, off + 4)) as u64, 4)
    } else {
        (read_le_u16(slice_subrange(program, off, off + 2)) as u64, 2)
    }
}

/// Whether `program` holds the whole instruction at its start.
pub fn fits(program: &[u8]) -> (b: bool)
    ensures
        b == fetch32_fits(program@),
{
    let len = program.len();
    if len == 0 {
        return false;
    }
    let addr32 = program[0] == ADDRESS_SIZE_OVERRIDE_PREFIX;
    let off0: usize = if addr32 { 1 } else { 0 };
    if len <= off0 {
        return false;
    }
    let m = match MetaInst::from_u8(program[off0]) {
        Some(m) => m,
        None => match MetaInst::plus_r_from_u8(program[off0]) {
            Some(m) => m,
            None => {
                return true;
            },
        },
    };
    let n: usize = if addr32 { 4 } else { 2 };
    let need = off0 + 1 + (if m.use_modrm() { 1 } else { 0 }) + (if m.get_imm_type().is_some() {
        n
    } else {
        0
    }) + (if m.get_disp_type().is_some() {
        n
    } else {
        0
    });
    need <= len
}

/// Fetches the instruction whose bytes start `program`, which must hold
/// the whole instruction; an error that names the opcode byte when it is
/// undefined.
pub fn fetch(program: &[u8]) -> (r: Result<FetchedInst, CompatibleException>)
    requires
        fetch32_fits(program@),
    ensures
        match fetch32_spec(program@) {
            Some(inst) => r == Ok::<FetchedInst, CompatibleException>(inst),
            None => r matches Err(e) && e.0@ == undefined_opcode_text(opcode_byte(program@)),
        },
        r matches Ok(inst) ==> inst.inst_bytes <= 11 && inst.rd < 8,
{
    let mut b = FetchedInstBuilder {
        addr_size_override: false,
        opcode: Opcode::Hlt,
        modrm: None,
        rd: 0,
        imm: None,
        disp: None,
        current_offset: 0,
        meta_inst: MetaInst::default(),
    };
    // legacy prefix
    if program[0] == ADDRESS_SIZE_OVERRIDE_PREFIX {
        b.addr_size_override = true;
        b.current_offset = 1;
    }
    // opcode
    let candidate = program[b.current_offset];
    b.meta_inst = match MetaInst::from(candidate) {
        Ok(m) => m,
        Err(e) => {
            return Err(e);
        },
    };
    b.opcode = b.meta_inst.get_opcode();
    if b.meta_inst.use_r() {
        proof {
            lemma_byte_fields(candidate);
        }
        b.rd = get_bits_u8(candidate, 0, 3);
    }
    b.current_offset = b.current_offset + 1;
    // ModR/M
    if b.meta_inst.use_modrm() {
        b.modrm = Some(ModRm::new(program[b.current_offset]));
        b.current_offset = b.current_offset + 1;
    }
    // immediate
    if b.meta_inst.get_imm_type().is_some() {
        let (v, n) = read_operand(program, b.current_offset, b.addr_size_override);
        b.imm = Some(v);
        b.current_offset = b.current_offset + n;
    }
    // displacement
    if b.meta_inst.get_disp_type().is_some() {
        let (v, n) = read_operand(program, b.current_offset, b.addr_size_override);
        b.disp = Some(v);
        b.current_offset = b.current_offset + n;
    }
    Ok(
        FetchedInst {
            opcode: b.opcode,
            modrm: b.modrm,
            rd: b.rd,
            imm: b.imm,
            disp: b.disp,
            inst_bytes: b.current_offset as u64,
        },
    )
}

} // verus!
