//! The 64-bit general purpose registers.

use vstd::prelude::*;

verus! {

/// A general purpose register, numbered as in the ModR/M byte.
#[derive(Debug, Clone, Copy, PartialEq, Eq, Structural)]
pub enum Reg64Id {
    Rax,
    Rcx,
    Rdx,
    Rbx,
    Rsp,
    Rbp,
    Rsi,
    Rdi,
    Unknown,
}

/// The register with number `n`, for `n < 8`.
pub open spec fn reg64_spec(n: u8) -> Option<Reg64Id> {
    match n {
        0 => Some(Reg64Id::Rax),
        1 => Some(Reg64Id::Rcx),
        2 => Some(Reg64Id::Rdx),
        3 => Some(Reg64Id::Rbx),
        4 => Some(Reg64Id::Rsp),
        5 => Some(Reg64Id::Rbp),
        6 => Some(Reg64Id::Rsi),
        7 => Some(Reg64Id::Rdi),
        0xff => Some(Reg64Id::Unknown),
        _ => None,
    }
}

impl Reg64Id {
    /// The number of the register (`0xff` for `Unknown`).
    pub open spec fn num(self) -> int {
        match self {
            Reg64Id::Rax => 0,
            Reg64Id::Rcx => 1,
            Reg64Id::Rdx => 2,
            Reg64Id::Rbx => 3,
            Reg64Id::Rsp => 4,
            Reg64Id::Rbp => 5,
            Reg64Id::Rsi => 6,
            Reg64Id::Rdi => 7,
            Reg64Id::Unknown => 0xff,
        }
    }

    /// The register with number `n` (`0xff` is `Unknown`).
    pub fn from_u8(n: u8) -> (r: Option<Reg64Id>)
        ensures
            r == reg64_spec(n),
    {
        match n {
            0 => Some(Reg64Id::Rax),
            1 => Some(Reg64Id::Rcx),
            2 => Some(Reg64Id::Rdx),
            3 => Some(Reg64Id::Rbx),
            4 => Some(Reg64Id::Rsp),
            5 => Some(Reg64Id::Rbp),
            6 => Some(Reg64Id::Rsi),
            7 => Some(Reg64Id::Rdi),
            0xff => Some(Reg64Id::Unknown),
            _ => None,
        }
    }

    /// The index of the register in the register file.
    pub fn index(self) -> (i: usize)
        requires
            self != Reg64Id::Unknown,
        ensures
            i == self.num(),
            i < 8,
    {
        match self {
            Reg64Id::Rax => 0,
            Reg64Id::Rcx => 1,
            Reg64Id::Rdx => 2,
            Reg64Id::Rbx => 3,
            Reg64Id::Rsp => 4,
            Reg64Id::Rbp => 5,
            Reg64Id::Rsi => 6,
            Reg64Id::Rdi => 7,
            Reg64Id::Unknown => 0xff,
        }
    }
}

/// Every number below 8 names a register other than `Unknown`.
pub proof fn lemma_reg64_numbers(n: u8)
    requires
        n < 8,
    ensures
        reg64_spec(n) is Some,
        reg64_spec(n).unwrap() != Reg64Id::Unknown,
        reg64_spec(n).unwrap().num() == n,
{
}

} // verus!
