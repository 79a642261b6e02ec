use arena::components::actor::ActorActions;
use arena::components::actor::MOVEMENT_BACKWARDS;
use arena::components::actor::MOVEMENT_FORWARD;
use arena::components::actor::MOVEMENT_LEFT;
use arena::components::actor::MOVEMENT_RIGHT;
use arena::systems::player::apply_axis;
use arena::systems::player::AxisDirection;
use arena::systems::player::PlayerSystem;

#[test]
fn empty_actions_hold_no_flag() {
    let a = ActorActions::empty();
    assert_eq!(a.bits(), 0);
    assert!(!a.contains(ActorActions::from_bits_retain(MOVEMENT_FORWARD)));
    assert!(a.contains(ActorActions::empty()));
}

#[test]
fn insert_then_contains_and_remove_then_not() {
    let mut a = ActorActions::from_bits_retain(MOVEMENT_LEFT);
    a.insert(ActorActions::from_bits_retain(MOVEMENT_FORWARD));
    assert_eq!(a.bits(), 0b0101);
    assert!(a.contains(ActorActions::from_bits_retain(MOVEMENT_FORWARD)));
    a.remove(ActorActions::from_bits_retain(MOVEMENT_LEFT));
    assert_eq!(a.bits(), 0b0001);
    assert!(!a.contains(ActorActions::from_bits_retain(MOVEMENT_LEFT)));
    a.remove(ActorActions::from_bits_retain(MOVEMENT_RIGHT));
    assert_eq!(a.bits(), 0b0001);
}

#[test]
fn positive_axis_sets_first_flag_and_clears_second() {
    let mut a = ActorActions::from_bits_retain(MOVEMENT_BACKWARDS | 0b1000_0000);
    apply_axis(
        &mut a,
        ActorActions::from_bits_retain(MOVEMENT_FORWARD),
        ActorActions::from_bits_retain(MOVEMENT_BACKWARDS),
        AxisDirection::Positive,
    );
    assert_eq!(a.bits(), MOVEMENT_FORWARD | 0b1000_0000);
}

#[test]
fn negative_axis_sets_second_flag_and_clears_first() {
    let mut a = ActorActions::from_bits_retain(MOVEMENT_FORWARD);
    apply_axis(
        &mut a,
        ActorActions::from_bits_retain(MOVEMENT_FORWARD),
        ActorActions::from_bits_retain(MOVEMENT_BACKWARDS),
        AxisDirection::Negative,
    );
    assert_eq!(a.bits(), MOVEMENT_BACKWARDS);
}

#[test]
fn neutral_axis_clears_both_flags() {
    let mut a = ActorActions::from_bits_retain(MOVEMENT_FORWARD | MOVEMENT_BACKWARDS | MOVEMENT_LEFT);
    apply_axis(
        &mut a,
        ActorActions::from_bits_retain(MOVEMENT_FORWARD),
        ActorActions::from_bits_retain(MOVEMENT_BACKWARDS),
        AxisDirection::Neutral,
    );
    assert_eq!(a.bits(), MOVEMENT_LEFT);
}

#[test]
fn applying_an_axis_twice_is_applying_it_once() {
    for direction in [AxisDirection::Positive, AxisDirection::Negative, AxisDirection::Neutral] {
        let mut once = ActorActions::from_bits_retain(0b0110_0110);
        let f = ActorActions::from_bits_retain(MOVEMENT_LEFT);
        let b = ActorActions::from_bits_retain(MOVEMENT_RIGHT);
        apply_axis(&mut once, f, b, direction);
        let mut twice = once;
        apply_axis(&mut twice, f, b, direction);
        assert_eq!(once, twice);
    }
}

#[test]
fn steering_depends_on_the_axes_only() {
    let system = PlayerSystem;
    let mut a = ActorActions::from_bits_retain(0b1010_1111);
    system.steer(&mut a, AxisDirection::Positive, AxisDirection::Negative);
    assert_eq!(a.bits(), 0b1010_0000 | MOVEMENT_FORWARD | MOVEMENT_RIGHT);
    let mut b = ActorActions::empty();
    system.steer(&mut b, AxisDirection::Positive, AxisDirection::Negative);
    assert_eq!(b.bits(), MOVEMENT_FORWARD | MOVEMENT_RIGHT);
    let mut c = ActorActions::from_bits_retain(MOVEMENT_FORWARD | MOVEMENT_LEFT);
    system.steer(&mut c, AxisDirection::Neutral, AxisDirection::Neutral);
    assert_eq!(c.bits(), 0);
    let mut d = ActorActions::empty();
    system.steer(&mut d, AxisDirection::Negative, AxisDirection::Positive);
    assert_eq!(d.bits(), MOVEMENT_BACKWARDS | MOVEMENT_LEFT);
}
