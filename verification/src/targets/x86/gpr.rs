//! The general purpose and segment registers of the real-mode CPU.

use vstd::prelude::*;

verus! {

/// Number of general purpose registers.
pub const REGISTER_NUM: usize = 8;

/// Number of segment registers.
pub const NUM_SEGMENT_REGSITERS: usize = 6;

/// A general purpose register, numbered as in the ModR/M byte.
#[derive(Debug, Clone, Copy, PartialEq, Eq, Structural)]
pub enum Reg32 {
    Eax,
    Ecx,
    Edx,
    Ebx,
    Esp,
    Ebp,
    Esi,
    Edi,
}

/// The register with number `n`.
pub open spec fn reg32_spec(n: u8) -> Option<Reg32> {
    match n {
        0 => Some(Reg32::Eax),
        1 => Some(Reg32::Ecx),
        2 => Some(Reg32::Edx),
        3 => Some(Reg32::Ebx),
        4 => Some(Reg32::Esp),
        5 => Some(Reg32::Ebp),
        6 => Some(Reg32::Esi),
        7 => Some(Reg32::Edi),
        _ => None,
    }
}

impl Reg32 {
    /// The number of the register.
    pub open spec fn num(self) -> int {
        match self {
            Reg32::Eax => 0,
            Reg32::Ecx => 1,
            Reg32::Edx => 2,
            Reg32::Ebx => 3,
            Reg32::Esp => 4,
            Reg32::Ebp => 5,
            Reg32::Esi => 6,
            Reg32::Edi => 7,
        }
    }

    /// The register with number `n`.
    pub fn from_u8(n: u8) -> (r: Option<Reg32>)
        ensures
            r == reg32_spec(n),
    {
        match n {
            0 => Some(Reg32::Eax),
            1 => Some(Reg32::Ecx),
            2 => Some(Reg32::Edx),
            3 => Some(Reg32::Ebx),
            4 => Some(Reg32::Esp),
            5 => Some(Reg32::Ebp),
            6 => Some(Reg32::Esi),
            7 => Some(Reg32::Edi),
            _ => None,
        }
    }

    /// The index of the register in the register file.
    pub fn index(self) -> (i: usize)
        ensures
            i == self.num(),
            i < REGISTER_NUM,
    {
        match self {
            Reg32::Eax => 0,
            Reg32::Ecx => 1,
            Reg32::Edx => 2,
            Reg32::Ebx => 3,
            Reg32::Esp => 4,
            Reg32::Ebp => 5,
            Reg32::Esi => 6,
            Reg32::Edi => 7,
        }
    }
}

/// Every number below 8 names a register, and the register has that number.
pub proof fn lemma_reg32_numbers(n: u8)
    requires
        n < 8,
    ensures
        reg32_spec(n) is Some,
        reg32_spec(n).unwrap().num() == n,
{
}

/// The eight general purpose registers.
pub struct RegisterFile {
    rams: [u64; 8],
}

impl View for RegisterFile {
    type V = Seq<u64>;

    /// The register values, by register number.
    closed spec fn view(&self) -> Seq<u64> {
        self.rams@
    }
}

impl RegisterFile {
    /// All registers hold all ones, as after power-on.
    pub fn new() -> (rf: RegisterFile)
        ensures
            rf@ == Seq::new(REGISTER_NUM as nat, |i: int| 0xffff_ffff_ffff_ffffu64),
    {
        let rf = RegisterFile { rams: [0xffff_ffff_ffff_ffffu64; 8] };
        assert(rf@ =~= Seq::new(REGISTER_NUM as nat, |i: int| 0xffff_ffff_ffff_ffffu64));
        rf
    }

    /// The value of register `index`.
    pub fn read_u64(&self, index: Reg32) -> (v: u64)
        ensures
            v == self@[index.num()],
    {
        self.rams[index.index()]
    }

    /// Sets register `index` to `value`.
    pub fn write_u64(&mut self, index: Reg32, value: u64)
        ensures
            final(self)@ == old(self)@.update(index.num(), value),
    {
        let i = index.index();
        self.rams[i] = value;
    }
}

/// A register file always holds eight registers.
pub proof fn lemma_register_count(rf: &RegisterFile)
    ensures
        rf@.len() == REGISTER_NUM,
{
}

/// A segment register, numbered as in the reg field of the ModR/M byte.
#[derive(Debug, Clone, Copy, PartialEq, Eq, Structural)]
pub enum SegReg {
    Es,
    Cs,
    Ss,
    Ds,
    Fs,
    Gs,
}

/// The segment register with number `n`.
pub open spec fn segreg_spec(n: u8) -> Option<SegReg> {
    match n {
        0 => Some(SegReg::Es),
        1 => Some(SegReg::Cs),
        2 => Some(SegReg::Ss),
        3 => Some(SegReg::Ds),
        4 => Some(SegReg::Fs),
        5 => Some(SegReg::Gs),
        _ => None,
    }
}

impl SegReg {
    /// The number of the segment register.
    pub open spec fn num(self) -> int {
        match self {
            SegReg::Es => 0,
            SegReg::Cs => 1,
            SegReg::Ss => 2,
            SegReg::Ds => 3,
            SegReg::Fs => 4,
            SegReg::Gs => 5,
        }
    }

    /// The segment register with number `n`.
    pub fn from_u8(n: u8) -> (r: Option<SegReg>)
        ensures
            r == segreg_spec(n),
    {
        match n {
            0 => Some(SegReg::Es),
            1 => Some(SegReg::Cs),
            2 => Some(SegReg::Ss),
            3 => Some(SegReg::Ds),
            4 => Some(SegReg::Fs),
            5 => Some(SegReg::Gs),
            _ => None,
        }
    }

    /// The index of the segment register in its file.
    pub fn index(self) -> (i: usize)
        ensures
            i == self.num(),
            i < NUM_SEGMENT_REGSITERS,
    {
        match self {
            SegReg::Es => 0,
            SegReg::Cs => 1,
            SegReg::Ss => 2,
            SegReg::Ds => 3,
            SegReg::Fs => 4,
            SegReg::Gs => 5,
        }
    }
}

/// The six segment registers.
pub struct SegmentRegister {
    rams: [u64; 6],
}

impl View for SegmentRegister {
    type V = Seq<u64>;

    /// The register values, by register number.
    closed spec fn view(&self) -> Seq<u64> {
        self.rams@
    }
}

impl SegmentRegister {
    /// All segment registers hold all ones, as after power-on.
    pub fn new() -> (sr: SegmentRegister)
        ensures
            sr@ == Seq::new(NUM_SEGMENT_REGSITERS as nat, |i: int| 0xffff_ffff_ffff_ffffu64),
    {
        let sr = SegmentRegister { rams: [0xffff_ffff_ffff_ffffu64; 6] };
        assert(sr@ =~= Seq::new(NUM_SEGMENT_REGSITERS as nat, |i: int| 0xffff_ffff_ffff_ffffu64));
        sr
    }

    /// The value of segment register `index`.
    pub fn read_u64(&self, index: SegReg) -> (v: u64)
        ensures
            v == self@[index.num()],
    {
        self.rams[index.index()]
    }

    /// Sets segment register `index` to `value`.
    pub fn write_u64(&mut self, index: SegReg, value: u64)
        ensures
            final(self)@ == old(self)@.update(index.num(), value),
    {
        let i = index.index();
        self.rams[i] = value;
    }
}

/// A segment register file always holds six registers.
pub proof fn lemma_segment_count(sr: &SegmentRegister)
    ensures
        sr@.len() == NUM_SEGMENT_REGSITERS,
{
}

/// A register reads back the last value written to it, or all ones after
/// `new`; a write leaves the other registers alone. The same holds of the
/// segment registers.
pub proof fn lemma_read_after_write(regs: Seq<u64>, dest: Reg32, value: u64, other: Reg32, segs: Seq<u64>, sdest: SegReg, sother: SegReg)
    requires
        regs.len() == REGISTER_NUM,
        segs.len() == NUM_SEGMENT_REGSITERS,
        other != dest,
        sother != sdest,
    ensures
        regs.update(dest.num(), value)[dest.num()] == value,
        regs.update(dest.num(), value)[other.num()] == regs[other.num()],
        Seq::new(REGISTER_NUM as nat, |i: int| 0xffff_ffff_ffff_ffffu64)[dest.num()] == 0xffff_ffff_ffff_ffff,
        segs.update(sdest.num(), value)[sdest.num()] == value,
        segs.update(sdest.num(), value)[sother.num()] == segs[sother.num()],
        Seq::new(NUM_SEGMENT_REGSITERS as nat, |i: int| 0xffff_ffff_ffff_ffffu64)[sdest.num()]
            == 0xffff_ffff_ffff_ffff,
{
}

} // verus!
