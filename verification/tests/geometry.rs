use dissonance::geometry::{
    boxes_overlap, clamped, is_within, squared_distance, HalfExtent, Position, UNIT,
};

#[test]
fn squared_distance_of_a_3_4_triangle() {
    let a = Position { x: 0, y: 0 };
    let b = Position { x: 3, y: -4 };
    assert_eq!(squared_distance(a, b), 25);
    assert!(is_within(a, b, 5));
    assert!(!is_within(a, b, 4));
}

#[test]
fn squared_distance_across_the_whole_plane_does_not_overflow() {
    let a = Position { x: i32::MIN, y: i32::MIN };
    let b = Position { x: i32::MAX, y: i32::MAX };
    let side: u128 = (1u128 << 32) - 1;
    assert_eq!(squared_distance(a, b), 2 * side * side);
    assert!(!is_within(a, b, u32::MAX));
}

#[test]
fn the_rim_of_the_radius_is_inside() {
    let a = Position { x: 0, y: 0 };
    assert!(is_within(a, Position { x: 40 * UNIT, y: 0 }, 40_000));
    assert!(!is_within(a, Position { x: 40 * UNIT + 1, y: 0 }, 40_000));
    assert!(is_within(a, a, 0));
}

#[test]
fn coordinates_saturate() {
    assert_eq!(clamped(i32::MAX as i64 + 1), i32::MAX);
    assert_eq!(clamped(i32::MIN as i64 - 1), i32::MIN);
    assert_eq!(clamped(-17), -17);
    assert_eq!(clamped(i64::MAX), i32::MAX);
    assert_eq!(clamped(i64::MIN), i32::MIN);
}

#[test]
fn touching_boxes_do_not_overlap() {
    let half = HalfExtent { x: 10, y: 10 };
    let a = Position { x: 0, y: 0 };
    assert!(boxes_overlap(a, half, Position { x: 19, y: 0 }, half));
    assert!(!boxes_overlap(a, half, Position { x: 20, y: 0 }, half));
    assert!(boxes_overlap(a, half, Position { x: 19, y: -19 }, half));
    assert!(!boxes_overlap(a, half, Position { x: 19, y: -20 }, half));
    assert!(!boxes_overlap(a, half, Position { x: 0, y: 25 }, half));
}
