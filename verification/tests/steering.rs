use creature::creature::Creature;
use creature::geometry::{Point, Vector};
use creature::objective::ObjectiveIntensity;

fn at(x: i32, y: i32) -> Point {
    Point::new(x, y)
}

#[test]
fn newborn_steers_along_the_x_axis() {
    let c = Creature::new(&at(0, 0));
    assert_eq!(c.get_heading(), Vector { x: 1000, y: 0 });
    assert_eq!(c.get_direction(), Vector { x: 1000, y: 0 });
    let far = Creature::new(&at(-7_000, 123_456));
    assert_eq!(far.get_direction(), Vector { x: 1000, y: 0 });
}

#[test]
fn craving_draws_and_weaker_aversion_is_ignored() {
    let mut c = Creature::new(&at(0, 0));
    c.add_objective(at(10_000, 0), ObjectiveIntensity::ModerateCraving);
    assert_eq!(c.get_direction(), Vector { x: 1000, y: 0 });
    c.add_objective(at(0, -10_000), ObjectiveIntensity::MinorAversion);
    assert_eq!(c.target, Some((at(10_000, 0), ObjectiveIntensity::ModerateCraving)));
    assert_eq!(c.get_direction(), Vector { x: 1000, y: 0 });
}

#[test]
fn standing_still_twice_falls_back_to_the_x_axis() {
    let mut c = Creature::new(&at(0, 0));
    c.move_to(at(1_000, 0));
    c.move_to(at(1_000, 0));
    assert_eq!(c.get_last_position(), Some(at(1_000, 0)));
    assert_eq!(c.get_heading(), Vector { x: 1000, y: 0 });
    assert_eq!(c.get_direction(), Vector { x: 1000, y: 0 });
}

#[test]
fn standing_still_after_a_move_up_falls_back_to_the_x_axis() {
    let mut c = Creature::new(&at(0, 0));
    c.move_to(at(0, 5_000));
    assert_eq!(c.get_direction(), Vector { x: 0, y: 1000 });
    c.move_to(at(0, 5_000));
    assert_eq!(c.get_direction(), Vector { x: 1000, y: 0 });
}

#[test]
fn aversion_repels() {
    let mut c = Creature::new(&at(0, 0));
    c.add_objective(at(0, -10_000), ObjectiveIntensity::MinorAversion);
    assert_eq!(c.get_heading(), Vector { x: 0, y: 10_000 });
    assert_eq!(c.get_direction(), Vector { x: 0, y: 1000 });
    let mut d = Creature::new(&at(2_000, 2_000));
    d.add_objective(at(5_000, 6_000), ObjectiveIntensity::VitalAversion);
    assert_eq!(d.get_heading(), Vector { x: -3_000, y: -4_000 });
    assert_eq!(d.get_direction(), Vector { x: -600, y: -800 });
}

#[test]
fn every_aversion_repels_and_every_craving_draws() {
    let all = [
        (ObjectiveIntensity::MinorCraving, false),
        (ObjectiveIntensity::MinorAversion, true),
        (ObjectiveIntensity::ModerateCraving, false),
        (ObjectiveIntensity::ModerateAversion, true),
        (ObjectiveIntensity::MajorCraving, false),
        (ObjectiveIntensity::MajorAversion, true),
        (ObjectiveIntensity::VitalCraving, false),
        (ObjectiveIntensity::VitalAversion, true),
    ];
    for (intensity, repels) in all {
        let mut c = Creature::new(&at(1_000, 1_000));
        c.add_objective(at(4_000, 5_000), intensity);
        let expected = if repels {
            Vector { x: -600, y: -800 }
        } else {
            Vector { x: 600, y: 800 }
        };
        assert_eq!(c.get_direction(), expected);
        assert_eq!(intensity.is_aversion(), repels);
    }
}

#[test]
fn aversion_at_own_position_falls_back_to_the_last_movement() {
    let mut c = Creature::new(&at(0, 0));
    c.move_to(at(0, 3_000));
    c.add_objective(at(0, 3_000), ObjectiveIntensity::VitalAversion);
    assert_eq!(c.get_heading(), Vector { x: 0, y: 3_000 });
    assert_eq!(c.get_direction(), Vector { x: 0, y: 1000 });
}

#[test]
fn craving_at_own_position_falls_back_to_the_last_movement() {
    let mut c = Creature::new(&at(0, 0));
    c.move_to(at(-3_000, -4_000));
    c.add_objective(at(-3_000, -4_000), ObjectiveIntensity::MajorCraving);
    assert_eq!(c.get_direction(), Vector { x: -600, y: -800 });
}

#[test]
fn objective_at_own_position_of_a_newborn_falls_back_to_the_x_axis() {
    let mut c = Creature::new(&at(9_000, 9_000));
    c.add_objective(at(9_000, 9_000), ObjectiveIntensity::MinorAversion);
    assert_eq!(c.get_direction(), Vector { x: 1000, y: 0 });
}

#[test]
fn objective_outweighs_the_last_movement() {
    let mut c = Creature::new(&at(0, 0));
    c.move_to(at(0, 1_000));
    c.add_objective(at(-5_000, 1_000), ObjectiveIntensity::MinorCraving);
    assert_eq!(c.get_direction(), Vector { x: -1000, y: 0 });
    c.reset_objective();
    assert_eq!(c.target, None);
    assert_eq!(c.get_direction(), Vector { x: 0, y: 1000 });
}

#[test]
fn last_movement_is_taken_from_the_position_before() {
    let mut c = Creature::new(&at(0, 0));
    assert_eq!(c.get_last_position(), None);
    c.move_to(at(1_000, 0));
    assert_eq!(c.get_last_position(), Some(at(0, 0)));
    c.move_to(at(1_000, 7_000));
    assert_eq!(c.get_last_position(), Some(at(1_000, 0)));
    assert_eq!(c.get_heading(), Vector { x: 0, y: 7_000 });
}

#[test]
fn stronger_objective_replaces_the_weaker() {
    let mut c = Creature::new(&at(0, 0));
    c.add_objective(at(1, 1), ObjectiveIntensity::MinorCraving);
    c.add_objective(at(2, 2), ObjectiveIntensity::MajorAversion);
    assert_eq!(c.target, Some((at(2, 2), ObjectiveIntensity::MajorAversion)));
    c.add_objective(at(3, 3), ObjectiveIntensity::MajorCraving);
    assert_eq!(c.target, Some((at(2, 2), ObjectiveIntensity::MajorAversion)));
    c.add_objective(at(4, 4), ObjectiveIntensity::VitalCraving);
    assert_eq!(c.target, Some((at(4, 4), ObjectiveIntensity::VitalCraving)));
}

#[test]
fn equal_objective_keeps_the_earlier() {
    let mut c = Creature::new(&at(0, 0));
    c.add_objective(at(1, 1), ObjectiveIntensity::ModerateAversion);
    c.add_objective(at(2, 2), ObjectiveIntensity::ModerateAversion);
    assert_eq!(c.target, Some((at(1, 1), ObjectiveIntensity::ModerateAversion)));
}

#[test]
fn kept_intensity_does_not_depend_on_the_order() {
    let offers = [
        (at(1, 0), ObjectiveIntensity::MinorAversion),
        (at(2, 0), ObjectiveIntensity::VitalCraving),
        (at(3, 0), ObjectiveIntensity::ModerateCraving),
    ];
    let orders = [[0, 1, 2], [0, 2, 1], [1, 0, 2], [1, 2, 0], [2, 0, 1], [2, 1, 0]];
    for order in orders {
        let mut c = Creature::new(&at(0, 0));
        for i in order {
            c.add_objective(offers[i].0, offers[i].1);
        }
        assert_eq!(c.target, Some((at(2, 0), ObjectiveIntensity::VitalCraving)));
    }
}

#[test]
fn reset_makes_room_for_a_weaker_objective() {
    let mut c = Creature::new(&at(0, 0));
    c.add_objective(at(1, 1), ObjectiveIntensity::VitalAversion);
    c.reset_objective();
    c.add_objective(at(2, 2), ObjectiveIntensity::MinorCraving);
    assert_eq!(c.target, Some((at(2, 2), ObjectiveIntensity::MinorCraving)));
}

#[test]
fn steering_spans_the_whole_plane() {
    let mut c = Creature::new(&at(i32::MIN, i32::MIN));
    c.add_objective(at(i32::MAX, i32::MAX), ObjectiveIntensity::MinorCraving);
    assert_eq!(c.get_heading(), Vector { x: 0xFFFF_FFFF, y: 0xFFFF_FFFF });
    assert_eq!(c.get_direction(), Vector { x: 707, y: 707 });
    c.reset_objective();
    c.add_objective(at(i32::MAX, i32::MAX), ObjectiveIntensity::MinorAversion);
    assert_eq!(c.get_direction(), Vector { x: -707, y: -707 });
}
