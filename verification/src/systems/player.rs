//! The player system: how the state of the movement axes sets the movement
//! flags of the actors that players control.

use vstd::prelude::*;
use crate::components::actor::ActorActions;
use crate::components::actor::MOVEMENT_FORWARD;
use crate::components::actor::MOVEMENT_BACKWARDS;
use crate::components::actor::MOVEMENT_LEFT;
use crate::components::actor::MOVEMENT_RIGHT;

verus! {

/// The sign of an input axis value.
#[derive(Clone, Copy, Debug, PartialEq, Eq, Structural)]
pub enum AxisDirection {
    /// The axis value is above zero.
    Positive,
    /// The axis value is below zero.
    Negative,
    /// The axis value is neither above nor below zero.
    Neutral,
}

/// The bits after an axis in direction `direction` drove the pair of flags
/// `a` (for the positive side) and `b` (for the negative side).
pub open spec fn axis_applied(bits: u8, a: u8, b: u8, direction: AxisDirection) -> u8 {
    match direction {
        AxisDirection::Positive => (bits | a) & !b,
        AxisDirection::Negative => (bits & !a) | b,
        AxisDirection::Neutral => (bits & !a) & !b,
    }
}

/// Sets flag `a` and clears `b` for a positive axis, clears `a` and sets `b`
/// for a negative one, and clears both for a neutral one.
pub fn apply_axis(
    actions: &mut ActorActions,
    a: ActorActions,
    b: ActorActions,
    direction: AxisDirection,
)
    ensures
        final(actions)@ == axis_applied(old(actions)@, a@, b@, direction),
{
    match direction {
        AxisDirection::Positive => {
            actions.insert(a);
            actions.remove(b);
        },
        AxisDirection::Negative => {
            actions.remove(a);
            actions.insert(b);
        },
        AxisDirection::Neutral => {
            actions.remove(a);
            actions.remove(b);
        },
    }
}

/// The movement bits after steering with the forward axis and the aside axis.
pub open spec fn steered(bits: u8, forward: AxisDirection, aside: AxisDirection) -> u8 {
    axis_applied(
        axis_applied(bits, MOVEMENT_FORWARD, MOVEMENT_BACKWARDS, forward),
        MOVEMENT_LEFT,
        MOVEMENT_RIGHT,
        aside,
    )
}

/// The system that turns the input of the local player into the movement
/// flags of the actors that players control.
#[derive(Clone, Copy, Debug)]
pub struct PlayerSystem;

impl PlayerSystem {
    /// Drives forward/backwards from the forward axis, then left/right from
    /// the aside axis.
    pub fn steer(&self, actions: &mut ActorActions, forward: AxisDirection, aside: AxisDirection)
        ensures
            final(actions)@ == steered(old(actions)@, forward, aside),
    {
        apply_axis(
            actions,
            ActorActions::from_bits_retain(MOVEMENT_FORWARD),
            ActorActions::from_bits_retain(MOVEMENT_BACKWARDS),
            forward,
        );
        apply_axis(
            actions,
            ActorActions::from_bits_retain(MOVEMENT_LEFT),
            ActorActions::from_bits_retain(MOVEMENT_RIGHT),
            aside,
        );
    }
}

} // verus!

verus! {

/// For two disjoint flags, a positive axis leaves only `a` set, a negative one
/// only `b`, a neutral one neither; the flags outside `a` and `b` are kept.
pub proof fn lemma_axis_sets_one_side(bits: u8, a: u8, b: u8, direction: AxisDirection)
    requires
        a & b == 0,
    ensures
        axis_applied(bits, a, b, direction) & a == (if direction == AxisDirection::Positive { a } else { 0 }),
        axis_applied(bits, a, b, direction) & b == (if direction == AxisDirection::Negative { b } else { 0 }),
        axis_applied(bits, a, b, direction) & !(a | b) == bits & !(a | b),
{
    match direction {
        AxisDirection::Positive => {
            assert(((bits | a) & !b) & a == a && ((bits | a) & !b) & b == 0
                && ((bits | a) & !b) & !(a | b) == bits & !(a | b)) by (bit_vector)
                requires
                    a & b == 0,
            ;
        },
        AxisDirection::Negative => {
            assert(((bits & !a) | b) & a == 0 && ((bits & !a) | b) & b == b
                && ((bits & !a) | b) & !(a | b) == bits & !(a | b)) by (bit_vector)
                requires
                    a & b == 0,
            ;
        },
        AxisDirection::Neutral => {
            assert(((bits & !a) & !b) & a == 0 && ((bits & !a) & !b) & b == 0
                && ((bits & !a) & !b) & !(a | b) == bits & !(a | b)) by (bit_vector);
        },
    }
}

/// Driving the same pair of flags with the same axis twice is the same as
/// doing it once.
pub proof fn lemma_axis_idempotent(bits: u8, a: u8, b: u8, direction: AxisDirection)
    ensures
        axis_applied(axis_applied(bits, a, b, direction), a, b, direction)
            == axis_applied(bits, a, b, direction),
{
    match direction {
        AxisDirection::Positive => {
            assert((((bits | a) & !b) | a) & !b == (bits | a) & !b) by (bit_vector);
        },
        AxisDirection::Negative => {
            assert((((bits & !a) | b) & !a) | b == (bits & !a) | b) by (bit_vector);
        },
        AxisDirection::Neutral => {
            assert((((bits & !a) & !b) & !a) & !b == (bits & !a) & !b) by (bit_vector);
        },
    }
}

/// The flag that an axis in direction `direction` leaves set of `a` and `b`.
pub open spec fn axis_value(a: u8, b: u8, direction: AxisDirection) -> u8 {
    match direction {
        AxisDirection::Positive => a,
        AxisDirection::Negative => b,
        AxisDirection::Neutral => 0,
    }
}

proof fn lemma_axis_closed_form(bits: u8, a: u8, b: u8, direction: AxisDirection)
    requires
        a & b == 0,
    ensures
        axis_applied(bits, a, b, direction) == (bits & !(a | b)) | axis_value(a, b, direction),
{
    match direction {
        AxisDirection::Positive => {
            assert((bits | a) & !b == (bits & !(a | b)) | a) by (bit_vector)
                requires
                    a & b == 0,
            ;
        },
        AxisDirection::Negative => {
            assert((bits & !a) | b == (bits & !(a | b)) | b) by (bit_vector);
        },
        AxisDirection::Neutral => {
            assert((bits & !a) & !b == (bits & !(a | b)) | 0) by (bit_vector);
        },
    }
}

/// After steering, the four movement flags depend on the two axes alone, and
/// every other bit is as it was.
pub proof fn lemma_steer_depends_on_axes_only(bits: u8, forward: AxisDirection, aside: AxisDirection)
    ensures
        steered(bits, forward, aside) & 0x0f == steered(0, forward, aside),
        steered(bits, forward, aside) & 0xf0 == bits & 0xf0,
        steered(bits, forward, aside) & MOVEMENT_FORWARD
            == (if forward == AxisDirection::Positive { MOVEMENT_FORWARD } else { 0 }),
        steered(bits, forward, aside) & MOVEMENT_BACKWARDS
            == (if forward == AxisDirection::Negative { MOVEMENT_BACKWARDS } else { 0 }),
        steered(bits, forward, aside) & MOVEMENT_LEFT
            == (if aside == AxisDirection::Positive { MOVEMENT_LEFT } else { 0 }),
        steered(bits, forward, aside) & MOVEMENT_RIGHT
            == (if aside == AxisDirection::Negative { MOVEMENT_RIGHT } else { 0 }),
{
    assert(1u8 & 2u8 == 0 && 4u8 & 8u8 == 0) by (bit_vector);
    let v1 = axis_value(1, 2, forward);
    let v2 = axis_value(4, 8, aside);
    lemma_axis_closed_form(bits, 1, 2, forward);
    lemma_axis_closed_form(0, 1, 2, forward);
    let m1 = axis_applied(bits, 1, 2, forward);
    let z1 = axis_applied(0, 1, 2, forward);
    lemma_axis_closed_form(m1, 4, 8, aside);
    lemma_axis_closed_form(z1, 4, 8, aside);
    let r = steered(bits, forward, aside);
    let z = steered(0, forward, aside);
    assert(r == (((bits & !(1u8 | 2u8)) | v1) & !(4u8 | 8u8)) | v2);
    assert(z == (((0u8 & !(1u8 | 2u8)) | v1) & !(4u8 | 8u8)) | v2);
    assert(v1 == 1 || v1 == 2 || v1 == 0);
    assert(v2 == 4 || v2 == 8 || v2 == 0);
    assert(r & 0x0f == z && r & 0xf0 == bits & 0xf0
        && r & 1 == (if v1 == 1 { 1u8 } else { 0u8 })
        && r & 2 == (if v1 == 2 { 2u8 } else { 0u8 })
        && r & 4 == (if v2 == 4 { 4u8 } else { 0u8 })
        && r & 8 == (if v2 == 8 { 8u8 } else { 0u8 })) by (bit_vector)
        requires
            r == (((bits & !(1u8 | 2u8)) | v1) & !(4u8 | 8u8)) | v2,
            z == (((0u8 & !(1u8 | 2u8)) | v1) & !(4u8 | 8u8)) | v2,
            v1 == 1 || v1 == 2 || v1 == 0,
            v2 == 4 || v2 == 8 || v2 == 0,
    ;
}

} // verus!
