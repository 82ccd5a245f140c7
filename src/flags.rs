use vstd::prelude::*;

verus! {

/// Invalid operation: no usefully definable result.
pub const INVALID: u8 = 1;
/// Division of a finite nonzero value by zero.
pub const DIVIDE_BY_ZERO: u8 = 2;
/// Rounded result exceeds the largest finite magnitude.
pub const OVERFLOW: u8 = 4;
/// Tiny nonzero result.
pub const UNDERFLOW: u8 = 8;
/// Rounded result differs from the exact one.
pub const INEXACT: u8 = 16;
/// All five flags.
pub const ALL: u8 = 31;

/// A caller-owned sticky accumulator of the five IEEE-754 exception flags.
#[derive(Clone, Copy, Debug, PartialEq, Eq, Structural)]
pub struct ExceptionFlags {
    bits: u8,
}

impl ExceptionFlags {
    /// The raised flags, as a mask over the five flag bits.
    pub closed spec fn view(&self) -> u8 {
        self.bits
    }

    /// Only the five flag bits can be set.
    pub closed spec fn wf(&self) -> bool {
        self.bits & !ALL == 0
    }

    /// Whether `flag` is raised in `mask`.
    pub open spec fn raised(mask: u8, flag: u8) -> bool {
        mask & flag != 0
    }

    /// An accumulator with no flag raised.
    pub fn new() -> (r: ExceptionFlags)
        ensures
            r@ == 0,
            r.wf(),
    {
        let r = ExceptionFlags { bits: 0 };
        assert(0u8 & !ALL == 0) by (bit_vector);
        r
    }

    /// An accumulator holding the flags of `mask` that are among the five.
    pub fn from_bits(mask: u8) -> (r: ExceptionFlags)
        ensures
            r@ == mask & ALL,
            r.wf(),
    {
        let r = ExceptionFlags { bits: mask & ALL };
        assert((mask & 31u8) & !31u8 == 0) by (bit_vector);
        r
    }

    /// The raised flags as a mask.
    pub fn to_bits(&self) -> (r: u8)
        ensures
            r == self@,
    {
        self.bits
    }

    /// Clears all five flags.
    pub fn reset(&mut self)
        ensures
            final(self)@ == 0,
            final(self).wf(),
    {
        self.bits = 0;
        assert(0u8 & !ALL == 0) by (bit_vector);
    }

    /// Merges the flags raised by one operation: flags only accumulate.
    pub fn raise(&mut self, mask: u8)
        ensures
            final(self)@ == old(self)@ | (mask & ALL),
            old(self).wf() ==> final(self).wf(),
    {
        let old_bits = self.bits;
        self.bits = self.bits | (mask & ALL);
        assert(old_bits & !31u8 == 0 ==> (old_bits | (mask & 31u8)) & !31u8 == 0) by (bit_vector);
    }

    /// Merges every flag raised in `other` into `self`.
    pub fn capture(&mut self, other: &ExceptionFlags)
        requires
            other.wf(),
        ensures
            final(self)@ == old(self)@ | other@,
            old(self).wf() ==> final(self).wf(),
    {
        let b = other.bits;
        self.raise(b);
        assert(b & !31u8 == 0 ==> b & 31u8 == b) by (bit_vector);
    }

    /// The invalid-operation flag is raised.
    pub fn is_invalid(&self) -> (r: bool)
        ensures
            r == Self::raised(self@, INVALID),
    {
        self.bits & INVALID != 0
    }

    /// The divide-by-zero flag is raised.
    pub fn is_divide_by_zero(&self) -> (r: bool)
        ensures
            r == Self::raised(self@, DIVIDE_BY_ZERO),
    {
        self.bits & DIVIDE_BY_ZERO != 0
    }

    /// The overflow flag is raised.
    pub fn is_overflow(&self) -> (r: bool)
        ensures
            r == Self::raised(self@, OVERFLOW),
    {
        self.bits & OVERFLOW != 0
    }

    /// The underflow flag is raised.
    pub fn is_underflow(&self) -> (r: bool)
        ensures
            r == Self::raised(self@, UNDERFLOW),
    {
        self.bits & UNDERFLOW != 0
    }

    /// The inexact flag is raised.
    pub fn is_inexact(&self) -> (r: bool)
        ensures
            r == Self::raised(self@, INEXACT),
    {
        self.bits & INEXACT != 0
    }
}

impl Default for ExceptionFlags {
    fn default() -> (r: ExceptionFlags)
        ensures
            r@ == 0,
            r.wf(),
    {
        ExceptionFlags::new()
    }
}

/// A flag once raised stays raised through any later merge.
pub proof fn lemma_flags_sticky(before: u8, mask: u8, flag: u8)
    requires
        before & flag != 0,
    ensures
        (before | (mask & ALL)) & flag != 0,
{
    assert(before & flag != 0 ==> (before | (mask & 31u8)) & flag != 0) by (bit_vector);
}

} // verus!
