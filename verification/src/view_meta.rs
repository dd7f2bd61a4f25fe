//! The flags of a module view, packed into one byte.
use vstd::prelude::*;

verus! {

/// The module is part of the output.
pub const INCLUDED: u8 = 1;

/// The module calls on `eval`.
pub const EVAL: u8 = 2;

/// The module has an export that is computed only when it is asked for.
pub const HAS_LAZY_EXPORT: u8 = 4;

/// The module has an `export * from`.
pub const HAS_STAR_EXPORT: u8 = 8;

/// Whether `mask` is one of the four flags.
pub open spec fn is_flag(mask: u8) -> bool {
    mask == INCLUDED || mask == EVAL || mask == HAS_LAZY_EXPORT || mask == HAS_STAR_EXPORT
}

/// `bits` with the bits of `mask` set or cleared.
pub open spec fn with_flag(bits: u8, mask: u8, value: bool) -> u8 {
    if value {
        bits | mask
    } else {
        bits & !mask
    }
}

/// The byte of a module that is not yet part of the output, with its three
/// other flags as given and no other bit set.
pub open spec fn fresh_bits(eval: bool, lazy_export: bool, star_export: bool) -> u8 {
    with_flag(
        with_flag(with_flag(with_flag(0, INCLUDED, false), EVAL, eval), HAS_LAZY_EXPORT, lazy_export),
        HAS_STAR_EXPORT,
        star_export,
    )
}

/// The flags of a module view.
#[derive(Clone, Copy, Debug, PartialEq, Eq)]
pub struct EcmaViewMeta {
    bits: u8,
}

impl EcmaViewMeta {
    /// The byte that holds the flags. Two metas with the same byte are the
    /// same.
    pub closed spec fn bits(self) -> u8 {
        self.bits
    }

    /// Whether a bit of `mask` is set.
    pub open spec fn has(self, mask: u8) -> bool {
        self.bits() & mask != 0
    }

    /// The byte says all there is to say of a meta.
    pub proof fn lemma_bits_decide(self, other: EcmaViewMeta)
        requires
            self.bits() == other.bits(),
        ensures
            self == other,
    {
    }

    /// No flag is set.
    pub fn empty() -> (r: EcmaViewMeta)
        ensures
            r.bits() == 0,
            forall|mask: u8| !(#[trigger] r.has(mask)),
    {
        assert forall|mask: u8| 0u8 & mask == 0 by {
            assert(0u8 & mask == 0) by (bit_vector);
        }
        EcmaViewMeta { bits: 0 }
    }

    fn get(self, mask: u8) -> (r: bool)
        ensures
            r == self.has(mask),
    {
        self.bits & mask != 0
    }

    /// Sets or clears one flag and leaves every other bit as it is.
    fn set(&mut self, mask: u8, value: bool)
        requires
            is_flag(mask),
        ensures
            final(self).bits() == with_flag(old(self).bits(), mask, value),
            final(self).has(mask) == value,
            forall|other: u8| other & mask == 0 ==> (#[trigger] final(self).has(other)) == old(self).has(other),
            forall|other: u8|
                is_flag(other) && other != mask ==> (#[trigger] final(self).has(other)) == old(self).has(other),
    {
        assert forall|other: u8| is_flag(other) && other != mask implies other & mask == 0 by {
            assert(other & mask == 0) by (bit_vector)
                requires
                    mask == 1 || mask == 2 || mask == 4 || mask == 8,
                    other == 1 || other == 2 || other == 4 || other == 8,
                    other != mask,
            ;
        }
        let bits: u8 = self.bits;
        if value {
            assert((bits | mask) & mask != 0) by (bit_vector)
                requires
                    mask == 1 || mask == 2 || mask == 4 || mask == 8,
            ;
            assert forall|other: u8| other & mask == 0 implies ((bits | mask) & other != 0) == (bits & other
                != 0) by {
                assert(((bits | mask) & other != 0) == (bits & other != 0)) by (bit_vector)
                    requires
                        other & mask == 0,
                ;
            }
            self.bits = bits | mask;
        } else {
            assert((bits & !mask) & mask == 0) by (bit_vector);
            assert forall|other: u8| other & mask == 0 implies ((bits & !mask) & other != 0) == (bits & other
                != 0) by {
                assert(((bits & !mask) & other != 0) == (bits & other != 0)) by (bit_vector)
                    requires
                        other & mask == 0,
                ;
            }
            self.bits = bits & !mask;
        }
    }

    pub fn is_included(self) -> (r: bool)
        ensures
            r == self.has(INCLUDED),
    {
        self.get(INCLUDED)
    }

    pub fn set_included(&mut self, value: bool)
        ensures
            final(self).bits() == with_flag(old(self).bits(), INCLUDED, value),
            final(self).has(INCLUDED) == value,
            forall|other: u8| other & INCLUDED == 0 ==> (#[trigger] final(self).has(other)) == old(self).has(other),
            forall|other: u8|
                is_flag(other) && other != INCLUDED ==> (#[trigger] final(self).has(other)) == old(self).has(other),
    {
        self.set(INCLUDED, value)
    }

    pub fn has_eval(self) -> (r: bool)
        ensures
            r == self.has(EVAL),
    {
        self.get(EVAL)
    }

    pub fn set_eval(&mut self, value: bool)
        ensures
            final(self).bits() == with_flag(old(self).bits(), EVAL, value),
            final(self).has(EVAL) == value,
            forall|other: u8| other & EVAL == 0 ==> (#[trigger] final(self).has(other)) == old(self).has(other),
            forall|other: u8|
                is_flag(other) && other != EVAL ==> (#[trigger] final(self).has(other)) == old(self).has(other),
    {
        self.set(EVAL, value)
    }

    pub fn has_lazy_export(self) -> (r: bool)
        ensures
            r == self.has(HAS_LAZY_EXPORT),
    {
        self.get(HAS_LAZY_EXPORT)
    }

    pub fn set_has_lazy_export(&mut self, value: bool)
        ensures
            final(self).bits() == with_flag(old(self).bits(), HAS_LAZY_EXPORT, value),
            final(self).has(HAS_LAZY_EXPORT) == value,
            forall|other: u8|
                other & HAS_LAZY_EXPORT == 0 ==> (#[trigger] final(self).has(other)) == old(self).has(other),
            forall|other: u8|
                is_flag(other) && other != HAS_LAZY_EXPORT ==> (#[trigger] final(self).has(other)) == old(self).has(other),
    {
        self.set(HAS_LAZY_EXPORT, value)
    }

    pub fn has_star_exports(self) -> (r: bool)
        ensures
            r == self.has(HAS_STAR_EXPORT),
    {
        self.get(HAS_STAR_EXPORT)
    }

    pub fn set_has_star_exports(&mut self, value: bool)
        ensures
            final(self).bits() == with_flag(old(self).bits(), HAS_STAR_EXPORT, value),
            final(self).has(HAS_STAR_EXPORT) == value,
            forall|other: u8|
                other & HAS_STAR_EXPORT == 0 ==> (#[trigger] final(self).has(other)) == old(self).has(other),
            forall|other: u8|
                is_flag(other) && other != HAS_STAR_EXPORT ==> (#[trigger] final(self).has(other)) == old(self).has(other),
    {
        self.set(HAS_STAR_EXPORT, value)
    }
}

impl Default for EcmaViewMeta {
    fn default() -> (r: EcmaViewMeta)
        ensures
            r.bits() == 0,
            forall|mask: u8| !(#[trigger] r.has(mask)),
    {
        EcmaViewMeta::empty()
    }
}

} // verus!
