//! Movement flags of an actor, and how an input axis sets them.

use vstd::prelude::*;

verus! {

/// Bit of the forward movement flag.
pub const MOVEMENT_FORWARD: u8 = 0b0000_0001;
/// Bit of the backwards movement flag.
pub const MOVEMENT_BACKWARDS: u8 = 0b0000_0010;
/// Bit of the left movement flag.
pub const MOVEMENT_LEFT: u8 = 0b0000_0100;
/// Bit of the right movement flag.
pub const MOVEMENT_RIGHT: u8 = 0b0000_1000;

/// A set of movement flags, held as the bits of a byte.
#[derive(Clone, Copy, Debug, PartialEq, Eq, Structural)]
pub struct ActorActions {
    bits: u8,
}

impl View for ActorActions {
    type V = u8;

    closed spec fn view(&self) -> u8 {
        self.bits
    }
}

/// Whether every bit of `flags` is set in `bits`.
pub open spec fn has_all(bits: u8, flags: u8) -> bool {
    bits & flags == flags
}

impl ActorActions {
    /// The empty set of flags.
    pub fn empty() -> (r: Self)
        ensures
            r@ == 0,
    {
        ActorActions { bits: 0 }
    }

    /// The set holding exactly the given bits.
    pub fn from_bits_retain(bits: u8) -> (r: Self)
        ensures
            r@ == bits,
    {
        ActorActions { bits }
    }

    /// The raw bits of the set.
    pub fn bits(&self) -> (r: u8)
        ensures
            r == self@,
    {
        self.bits
    }

    /// Whether every flag of `other` is in the set.
    pub fn contains(&self, other: ActorActions) -> (r: bool)
        ensures
            r == has_all(self@, other@),
    {
        self.bits & other.bits == other.bits
    }

    /// Adds the flags of `other` (the `|=` of the set).
    pub fn insert(&mut self, other: ActorActions)
        ensures
            final(self)@ == old(self)@ | other@,
    {
        self.bits = self.bits | other.bits;
    }

    /// Takes the flags of `other` out (the `-=` of the set).
    pub fn remove(&mut self, other: ActorActions)
        ensures
            final(self)@ == old(self)@ & !other@,
    {
        self.bits = self.bits & !other.bits;
    }
}

} // verus!

verus! {

/// Adding flags to a set makes the set contain them, and taking flags out
/// leaves none of them in the set.
pub proof fn lemma_insert_then_contains(bits: u8, flags: u8)
    ensures
        has_all(bits | flags, flags),
        (bits & !flags) & flags == 0,
{
    assert((bits | flags) & flags == flags) by (bit_vector);
    assert((bits & !flags) & flags == 0) by (bit_vector);
}

/// Adding or taking out flags leaves every other flag as it was.
pub proof fn lemma_other_flags_kept(bits: u8, flags: u8, other: u8)
    requires
        flags & other == 0,
    ensures
        (bits | flags) & other == bits & other,
        (bits & !flags) & other == bits & other,
{
    assert((bits | flags) & other == bits & other) by (bit_vector)
        requires
            flags & other == 0,
    ;
    assert((bits & !flags) & other == bits & other) by (bit_vector)
        requires
            flags & other == 0,
    ;
}

} // verus!
