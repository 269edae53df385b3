//! The register file of the 64-bit CPU.

use crate::cpu::isa::registers::Reg64Id;
use crate::numtext::{digits_text, push_padded_digits, zero_padded};
use vstd::prelude::*;

verus! {

/// Number of general purpose registers.
pub const NUM_REGISTERS: usize = 8;

/// Eight 64-bit general purpose registers.
pub struct RegisterFile {
    ram: [u64; 8],
}

impl View for RegisterFile {
    type V = Seq<u64>;

    /// The register values, indexed by register number.
    closed spec fn view(&self) -> Seq<u64> {
        self.ram@
    }
}

impl RegisterFile {
    /// All registers zero.
    pub fn new() -> (rf: RegisterFile)
        ensures
            rf@ == Seq::new(NUM_REGISTERS as nat, |i: int| 0u64),
    {
        let rf = RegisterFile { ram: [0u64; 8] };
        assert(rf.ram@ =~= Seq::new(NUM_REGISTERS as nat, |i: int| 0u64));
        rf
    }

    /// Sets register `dest` to `value`.
    pub fn write64(&mut self, dest: Reg64Id, value: u64)
        requires
            dest != Reg64Id::Unknown,
        ensures
            final(self)@ == old(self)@.update(dest.num(), value),
    {
        let i = dest.index();
        self.ram[i] = value;
    }

    /// The value of register `src`.
    pub fn read64(&self, src: Reg64Id) -> (v: u64)
        requires
            src != Reg64Id::Unknown,
        ensures
            v == self@[src.num()],
    {
        self.ram[src.index()]
    }
}

/// The name of register number `i`.
pub open spec fn register_name(i: int) -> Seq<char> {
    if i == 0 {
        "rax"@
    } else if i == 1 {
        "rcx"@
    } else if i == 2 {
        "rdx"@
    } else if i == 3 {
        "rbx"@
    } else if i == 4 {
        "rsp"@
    } else if i == 5 {
        "rbp"@
    } else if i == 6 {
        "rsi"@
    } else {
        "rdi"@
    }
}

/// `v` in upper-case hexadecimal, padded with zeros to eight digits.
pub open spec fn hex8_text(v: u64) -> Seq<char> {
    zero_padded(digits_text(v as nat, 16), 8)
}

/// The line of the status dump for register number `i`.
pub open spec fn register_line(regs: Seq<u64>, i: int) -> Seq<char> {
    "  "@ + register_name(i) + ": 0x"@ + hex8_text(regs[i])
}

/// The lines of the first `n` registers, one per line.
pub open spec fn registers_text(regs: Seq<u64>, n: nat) -> Seq<char>
    decreases n,
{
    if n == 0 {
        Seq::empty()
    } else if n == 1 {
        register_line(regs, 0)
    } else {
        registers_text(regs, (n - 1) as nat) + "\n"@ + register_line(regs, n - 1)
    }
}

/// The name of register number `i < 8`, as text.
fn register_name_str(i: usize) -> (s: &'static str)
    requires
        i < 8,
    ensures
        s@ == register_name(i as int),
{
    match i {
        0 => {
            proof {
                reveal_strlit("rax");
            }
            "rax"
        },
        1 => {
            proof {
                reveal_strlit("rcx");
            }
            "rcx"
        },
        2 => {
            proof {
                reveal_strlit("rdx");
            }
            "rdx"
        },
        3 => {
            proof {
                reveal_strlit("rbx");
            }
            "rbx"
        },
        4 => {
            proof {
                reveal_strlit("rsp");
            }
            "rsp"
        },
        5 => {
            proof {
                reveal_strlit("rbp");
            }
            "rbp"
        },
        6 => {
            proof {
                reveal_strlit("rsi");
            }
            "rsi"
        },
        _ => {
            proof {
                reveal_strlit("rdi");
            }
            "rdi"
        },
    }
}

impl RegisterFile {
    /// The registers as text: one line per register, its name and its value
    /// in hexadecimal.
    pub fn to_string(&self) -> (s: String)
        ensures
            s@ == registers_text(self@, 8),
    {
        proof {
            reveal_strlit("\n");
            reveal_strlit("  ");
            reveal_strlit(": 0x");
        }
        let mut s = String::new();
        let mut i: usize = 0;
        while i < 8
            invariant
                i <= 8,
                self@.len() == 8,
                s@ == registers_text(self@, i as nat),
            decreases 8 - i,
        {
            let ghost before = s@;
            if i > 0 {
                s.append("\n");
            }
            s.append("  ");
            s.append(register_name_str(i));
            s.append(": 0x");
            push_padded_digits(&mut s, self.ram[i], 16, 8);
            i = i + 1;
            if i == 1 {
                assert(s@ =~= registers_text(self@, 1));
            } else {
                assert(s@ =~= registers_text(self@, i as nat));
            }
        }
        s
    }
}

/// A register file always holds eight registers.
pub proof fn lemma_register_count(rf: RegisterFile)
    ensures
        rf@.len() == NUM_REGISTERS,
{
}

/// A register reads back the last value written to it; a write leaves the
/// other registers alone.
pub proof fn lemma_read_after_write(regs: Seq<u64>, dest: Reg64Id, value: u64, other: Reg64Id)
    requires
        regs.len() == NUM_REGISTERS,
        dest != Reg64Id::Unknown,
        other != Reg64Id::Unknown,
        other != dest,
    ensures
        regs.update(dest.num(), value)[dest.num()] == value,
        regs.update(dest.num(), value)[other.num()] == regs[other.num()],
{
}

/// A fresh register file reads zero in every register.
pub proof fn lemma_new_reads_zero(id: Reg64Id)
    requires
        id != Reg64Id::Unknown,
    ensures
        Seq::new(NUM_REGISTERS as nat, |i: int| 0u64)[id.num()] == 0,
{
}

} // verus!
