//! Processor state stored in the EFLAGS register.

use vstd::prelude::*;

verus! {

/// A set of EFLAGS bits.
#[derive(Debug, Clone, Copy, PartialEq, Eq, Structural)]
pub struct EFlags {
    bits: u32,
}

impl EFlags {
    /// The direction flag (bit 10), which determines the order in which
    /// strings are processed.
    pub closed spec fn direction_flag_spec() -> EFlags {
        EFlags { bits: 1024 }
    }

    /// The direction flag is bit 10.
    pub proof fn lemma_direction_flag()
        ensures
            Self::direction_flag_spec().value() == 1024,
    {
    }

    /// The direction flag (bit 10), which determines the order in which
    /// strings are processed.
    #[verifier::when_used_as_spec(direction_flag_spec)]
    pub fn direction_flag() -> (f: EFlags)
        ensures
            f == Self::direction_flag_spec(),
            f.value() == 1024,
    {
        EFlags { bits: 1024 }
    }

    /// The bits of the set.
    pub closed spec fn value(self) -> u32 {
        self.bits
    }

    /// No flag set.
    pub fn empty() -> (f: EFlags)
        ensures
            f.value() == 0,
    {
        EFlags { bits: 0 }
    }

    /// The bits of the set.
    pub fn bits(&self) -> (b: u32)
        ensures
            b == self.value(),
    {
        self.bits
    }

    /// Whether no flag is set.
    pub fn is_empty(&self) -> (b: bool)
        ensures
            b == (self.value() == 0),
    {
        self.bits == 0
    }

    /// Whether every flag of `other` is set.
    pub fn contains(&self, other: EFlags) -> (b: bool)
        ensures
            b == (self.value() & other.value() == other.value()),
    {
        self.bits & other.bits == other.bits
    }

    /// The flags set in both.
    pub fn intersection(&self, other: EFlags) -> (f: EFlags)
        ensures
            f.value() == self.value() & other.value(),
    {
        EFlags { bits: self.bits & other.bits }
    }

    /// Sets the flags of `other` when `value` holds, clears them otherwise.
    pub fn set(&mut self, other: EFlags, value: bool)
        ensures
            final(self).value() == (if value {
                old(self).value() | other.value()
            } else {
                old(self).value() & !other.value()
            }),
    {
        if value {
            self.bits = self.bits | other.bits;
        } else {
            self.bits = self.bits & !other.bits;
        }
    }
}

/// Setting flags makes them present; clearing them makes them absent;
/// both keep the other bits.
pub proof fn lemma_set_then_contains(bits: u32, flag: u32)
    ensures
        (bits | flag) & flag == flag,
        (bits & !flag) & flag == 0,
        (bits | flag) & !flag == bits & !flag,
        (bits & !flag) | (bits & flag) == bits,
{
    assert((bits | flag) & flag == flag) by (bit_vector);
    assert((bits & !flag) & flag == 0) by (bit_vector);
    assert((bits | flag) & !flag == bits & !flag) by (bit_vector);
    assert((bits & !flag) | (bits & flag) == bits) by (bit_vector);
}

} // verus!
