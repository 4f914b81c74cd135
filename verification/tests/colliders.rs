use locomotion::collision::{
    handle_collisions, is_position_blocked, overlaps_collider, shift, PLAYER_RADIUS,
    UNSTICK_OFFSET, WALL_SIZE,
};
use locomotion::state::{LocomotionState, Vec3};

const REACH: i64 = 3_500_000;

fn standing_at(x: i64, z: i64) -> LocomotionState {
    LocomotionState { position: Vec3::new(x, 2_000_000, z), vertical_velocity: -77, grounded: true }
}

#[test]
fn collision_constants_have_their_values() {
    assert_eq!(PLAYER_RADIUS, 500_000);
    assert_eq!(WALL_SIZE, 3_000_000);
    assert_eq!(UNSTICK_OFFSET, 100_000);
    assert_eq!(PLAYER_RADIUS + WALL_SIZE, REACH);
}

#[test]
fn probe_just_inside_the_reach_overlaps() {
    let origin = Vec3::new(0, 0, 0);
    for y in [0, 2_000_000, -5_000_000, i64::MAX] {
        assert!(overlaps_collider(Vec3::new(REACH - 10_000, y, 0), origin));
        assert!(overlaps_collider(Vec3::new(-(REACH - 10_000), y, 0), origin));
        assert!(overlaps_collider(Vec3::new(0, y, REACH - 10_000), origin));
        assert!(overlaps_collider(Vec3::new(0, y, -(REACH - 10_000)), origin));
    }
}

#[test]
fn probe_just_outside_the_reach_is_clear() {
    let origin = Vec3::new(0, 0, 0);
    for y in [0, 2_000_000, -5_000_000, i64::MIN] {
        assert!(!overlaps_collider(Vec3::new(REACH + 10_000, y, 0), origin));
        assert!(!overlaps_collider(Vec3::new(-(REACH + 10_000), y, 0), origin));
        assert!(!overlaps_collider(Vec3::new(0, y, REACH + 10_000), origin));
        assert!(!overlaps_collider(Vec3::new(0, y, -(REACH + 10_000)), origin));
    }
}

#[test]
fn probe_exactly_at_the_reach_is_clear() {
    let origin = Vec3::new(0, 0, 0);
    assert!(!overlaps_collider(Vec3::new(REACH, 0, 0), origin));
    assert!(!overlaps_collider(Vec3::new(-REACH, 0, 0), origin));
    assert!(!overlaps_collider(Vec3::new(0, 0, REACH), origin));
    assert!(overlaps_collider(Vec3::new(REACH - 1, 0, REACH - 1), origin));
    assert!(overlaps_collider(Vec3::new(-(REACH - 1), 0, 0), origin));
}

#[test]
fn overlap_is_measured_from_the_centre_of_the_collider() {
    let c = Vec3::new(10_000_000, 0, -20_000_000);
    assert!(overlaps_collider(Vec3::new(13_490_000, 0, -20_000_000), c));
    assert!(!overlaps_collider(Vec3::new(13_510_000, 0, -20_000_000), c));
    assert!(overlaps_collider(Vec3::new(6_510_000, 0, -16_510_000), c));
    assert!(!overlaps_collider(Vec3::new(6_490_000, 0, -16_510_000), c));
}

#[test]
fn overlap_needs_both_axes() {
    let origin = Vec3::new(0, 0, 0);
    assert!(!overlaps_collider(Vec3::new(0, 0, 4_000_000), origin));
    assert!(!overlaps_collider(Vec3::new(4_000_000, 0, 0), origin));
    assert!(!overlaps_collider(Vec3::new(4_000_000, 0, 4_000_000), origin));
}

#[test]
fn corner_of_the_square_overlaps_though_it_is_far_in_a_straight_line() {
    // 3.4 on both axes is 4.8 from the centre, and still inside the square.
    let origin = Vec3::new(0, 0, 0);
    assert!(overlaps_collider(Vec3::new(3_400_000, 0, 3_400_000), origin));
    assert!(overlaps_collider(Vec3::new(-3_400_000, 0, 3_400_000), origin));
}

#[test]
fn overlap_at_the_ends_of_the_range() {
    assert!(!overlaps_collider(Vec3::new(i64::MAX, 0, 0), Vec3::new(i64::MIN, 0, 0)));
    assert!(!overlaps_collider(Vec3::new(i64::MIN, 0, 0), Vec3::new(i64::MAX, 0, 0)));
    assert!(overlaps_collider(Vec3::new(i64::MAX, 0, i64::MIN), Vec3::new(i64::MAX - 5, 0, i64::MIN + 5)));
}

#[test]
fn nothing_blocks_in_an_empty_world() {
    assert!(!is_position_blocked(Vec3::new(0, 0, 0), &[]));
}

#[test]
fn any_collider_blocks() {
    let colliders = [
        Vec3::new(100_000_000, 0, 0),
        Vec3::new(0, 0, 100_000_000),
        Vec3::new(-6_000_000, 0, 6_000_000),
    ];
    assert!(is_position_blocked(Vec3::new(-4_000_000, 0, 4_000_000), &colliders));
    assert!(is_position_blocked(Vec3::new(98_000_000, 0, 1_000_000), &colliders));
    assert!(is_position_blocked(Vec3::new(0, 0, 103_000_000), &colliders));
    assert!(!is_position_blocked(Vec3::new(0, 0, 0), &colliders));
    assert!(!is_position_blocked(Vec3::new(-6_000_000, 0, 0), &colliders));
}

#[test]
fn shift_moves_along_the_ground_only() {
    assert_eq!(shift(Vec3::new(1, 2, 3), 10, -10), Vec3::new(11, 2, -7));
    assert_eq!(shift(Vec3::new(1, 2, 3), 0, 0), Vec3::new(1, 2, 3));
}

#[test]
fn shift_stops_at_the_ends_of_the_range() {
    assert_eq!(shift(Vec3::new(i64::MAX - 1, 0, i64::MIN + 1), 5, -5), Vec3::new(i64::MAX, 0, i64::MIN));
    assert_eq!(shift(Vec3::new(i64::MIN, 0, i64::MAX), i64::MIN, i64::MAX), Vec3::new(i64::MIN, 0, i64::MAX));
    assert_eq!(shift(Vec3::new(i64::MIN, 0, i64::MAX), i64::MAX, i64::MIN), Vec3::new(-1, 0, -1));
}

#[test]
fn corrector_leaves_a_free_entity_alone() {
    let colliders = [Vec3::new(0, 0, 0)];
    let mut s = standing_at(3_500_000, 0);
    let before = s;
    handle_collisions(&mut s, &colliders);
    assert_eq!(s, before);

    let mut t = standing_at(0, 0);
    handle_collisions(&mut t, &[]);
    assert_eq!(t, standing_at(0, 0));
}

#[test]
fn corrector_tries_positive_x_first() {
    // Inside by half an offset on both the x and the z side: both ways out
    // are free, and x comes first.
    let colliders = [Vec3::new(0, 0, 0)];
    let mut s = standing_at(3_450_000, 3_450_000);
    handle_collisions(&mut s, &colliders);
    assert_eq!(s, standing_at(3_550_000, 3_450_000));
}

#[test]
fn corrector_tries_negative_x_second() {
    let colliders = [Vec3::new(0, 0, 0)];
    let mut s = standing_at(-3_450_000, -3_450_000);
    handle_collisions(&mut s, &colliders);
    assert_eq!(s, standing_at(-3_550_000, -3_450_000));
}

#[test]
fn corrector_tries_positive_z_third() {
    let colliders = [Vec3::new(0, 0, 0)];
    let mut s = standing_at(0, 3_450_000);
    handle_collisions(&mut s, &colliders);
    assert_eq!(s, standing_at(0, 3_550_000));
}

#[test]
fn corrector_tries_negative_z_last() {
    let colliders = [Vec3::new(0, 0, 0)];
    let mut s = standing_at(0, -3_450_000);
    handle_collisions(&mut s, &colliders);
    assert_eq!(s, standing_at(0, -3_550_000));
}

#[test]
fn corrector_gives_up_deep_inside() {
    let colliders = [Vec3::new(0, 0, 0)];
    let mut s = standing_at(0, 0);
    handle_collisions(&mut s, &colliders);
    assert_eq!(s, standing_at(0, 0));

    let mut t = standing_at(3_350_000, -3_350_000);
    handle_collisions(&mut t, &colliders);
    assert_eq!(t, standing_at(3_350_000, -3_350_000));
}

#[test]
fn corrector_does_not_step_into_a_neighbour() {
    // The way out toward positive x ends inside the second collider.
    let colliders = [Vec3::new(0, 0, 0), Vec3::new(7_000_000, 0, 0)];
    let mut s = standing_at(3_450_000, 3_450_000);
    handle_collisions(&mut s, &colliders);
    assert_eq!(s, standing_at(3_450_000, 3_550_000));
}

#[test]
fn corrector_keeps_height_velocity_and_flag() {
    let colliders = [Vec3::new(0, 0, 0)];
    let mut s = LocomotionState {
        position: Vec3::new(3_450_000, 9_000_000, 0),
        vertical_velocity: 123,
        grounded: false,
    };
    handle_collisions(&mut s, &colliders);
    assert_eq!(
        s,
        LocomotionState {
            position: Vec3::new(3_550_000, 9_000_000, 0),
            vertical_velocity: 123,
            grounded: false,
        }
    );
}
