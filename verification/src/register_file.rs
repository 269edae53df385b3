//! The register file of the first 64-bit interpreter: four registers.

use vstd::prelude::*;

verus! {

/// One of the four registers.
#[derive(Debug, Clone, Copy, PartialEq, Eq, Structural)]
pub enum GeneralRegisterId {
    RegRax,
    RegRcx,
    RegRdx,
    RegRbx,
}

/// The register with number `n`, for `n < 4`.
pub open spec fn general_register_spec(n: u8) -> Option<GeneralRegisterId> {
    match n {
        0 => Some(GeneralRegisterId::RegRax),
        1 => Some(GeneralRegisterId::RegRcx),
        2 => Some(GeneralRegisterId::RegRdx),
        3 => Some(GeneralRegisterId::RegRbx),
        _ => None,
    }
}

impl GeneralRegisterId {
    /// The number of the register.
    pub open spec fn num(self) -> int {
        match self {
            GeneralRegisterId::RegRax => 0,
            GeneralRegisterId::RegRcx => 1,
            GeneralRegisterId::RegRdx => 2,
            GeneralRegisterId::RegRbx => 3,
        }
    }

    /// The register with number `n`.
    pub fn from_u8(n: u8) -> (r: Option<GeneralRegisterId>)
        ensures
            r == general_register_spec(n),
    {
        match n {
            0 => Some(GeneralRegisterId::RegRax),
            1 => Some(GeneralRegisterId::RegRcx),
            2 => Some(GeneralRegisterId::RegRdx),
            3 => Some(GeneralRegisterId::RegRbx),
            _ => None,
        }
    }
}

/// Four 64-bit registers.
#[derive(Debug)]
pub struct RegisterFile {
    rax: u64,
    rcx: u64,
    rdx: u64,
    rbx: u64,
}

impl View for RegisterFile {
    type V = Seq<u64>;

    /// The register values, by register number.
    closed spec fn view(&self) -> Seq<u64> {
        seq![self.rax, self.rcx, self.rdx, self.rbx]
    }
}

impl RegisterFile {
    /// Every register holds 0xFFFFFFFF.
    pub fn new() -> (rf: RegisterFile)
        ensures
            rf@ == seq![0xFFFFFFFFu64, 0xFFFFFFFFu64, 0xFFFFFFFFu64, 0xFFFFFFFFu64],
    {
        RegisterFile { rax: 0xFFFFFFFF, rcx: 0xFFFFFFFF, rdx: 0xFFFFFFFF, rbx: 0xFFFFFFFF }
    }

    /// Sets register `dest` to `value`.
    pub fn write64(&mut self, dest: GeneralRegisterId, value: u64)
        ensures
            final(self)@ == old(self)@.update(dest.num(), value),
    {
        match dest {
            GeneralRegisterId::RegRax => self.rax = value,
            GeneralRegisterId::RegRcx => self.rcx = value,
            GeneralRegisterId::RegRdx => self.rdx = value,
            GeneralRegisterId::RegRbx => self.rbx = value,
        }
        assert(self@ =~= old(self)@.update(dest.num(), value));
    }

    /// The value of register `src`.
    pub fn read64(&self, src: GeneralRegisterId) -> (v: u64)
        ensures
            v == self@[src.num()],
    {
        match src {
            GeneralRegisterId::RegRax => self.rax,
            GeneralRegisterId::RegRcx => self.rcx,
            GeneralRegisterId::RegRdx => self.rdx,
            GeneralRegisterId::RegRbx => self.rbx,
        }
    }
}

/// A register file always holds four registers.
pub proof fn lemma_register_count(rf: &RegisterFile)
    ensures
        rf@.len() == 4,
{
}

/// A register reads back the last value written to it, or 0xFFFFFFFF after
/// `new`; a write leaves the other registers alone.
pub proof fn lemma_read_after_write(regs: Seq<u64>, dest: GeneralRegisterId, value: u64, other: GeneralRegisterId)
    requires
        regs.len() == 4,
        other != dest,
    ensures
        regs.update(dest.num(), value)[dest.num()] == value,
        regs.update(dest.num(), value)[other.num()] == regs[other.num()],
        seq![0xFFFFFFFFu64, 0xFFFFFFFFu64, 0xFFFFFFFFu64, 0xFFFFFFFFu64][dest.num()] == 0xFFFFFFFF,
{
}

} // verus!
