//! The general purpose registers of the first real-mode CPU, indexed by
//! number.

pub use crate::targets::x86::gpr::Reg32;
use vstd::prelude::*;

verus! {

/// Number of general purpose registers.
pub const REGISTER_NUM: usize = 8;

/// Eight 64-bit registers.
pub struct RegisterFile {
    rams: [u64; 8],
}

impl View for RegisterFile {
    type V = Seq<u64>;

    /// The register values, by number.
    closed spec fn view(&self) -> Seq<u64> {
        self.rams@
    }
}

impl RegisterFile {
    /// All registers hold all ones, as after power-on.
    pub fn new() -> (rf: RegisterFile)
        ensures
            rf@ == Seq::new(REGISTER_NUM as nat, |i: int| 0xffff_ffff_ffff_ffffu64),
    {
        let rf = RegisterFile { rams: [0xffff_ffff_ffff_ffffu64; 8] };
        assert(rf@ =~= Seq::new(REGISTER_NUM as nat, |i: int| 0xffff_ffff_ffff_ffffu64));
        rf
    }

    /// The value of register number `index`.
    pub fn read_u64(&self, index: usize) -> (v: u64)
        requires
            index < REGISTER_NUM,
        ensures
            v == self@[index as int],
    {
        self.rams[index]
    }

    /// Sets register number `index` to `value`.
    pub fn write_u64(&mut self, index: usize, value: u64)
        requires
            index < REGISTER_NUM,
        ensures
            final(self)@ == old(self)@.update(index as int, value),
    {
        self.rams[index] = value;
    }
}

/// A register file always holds eight registers.
pub proof fn lemma_register_count(rf: &RegisterFile)
    ensures
        rf@.len() == REGISTER_NUM,
{
}

/// A register reads back the last value written at its index, or all ones
/// after `new`; a write leaves the other registers alone.
pub proof fn lemma_read_after_write(regs: Seq<u64>, index: int, value: u64, other: int)
    requires
        regs.len() == REGISTER_NUM,
        0 <= index < REGISTER_NUM,
        0 <= other < REGISTER_NUM,
        other != index,
    ensures
        regs.update(index, value)[index] == value,
        regs.update(index, value)[other] == regs[other],
        Seq::new(REGISTER_NUM as nat, |i: int| 0xffff_ffff_ffff_ffffu64)[index] == 0xffff_ffff_ffff_ffff,
{
}

} // verus!
