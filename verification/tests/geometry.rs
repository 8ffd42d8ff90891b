use bevy::sprite::collide_aabb::{collide, Collision};
use pong_core::geometry::{overlap, Side, Vec2};

fn v(x: i64, y: i64) -> Vec2 {
    Vec2 { x, y }
}

#[test]
fn boxes_apart_do_not_overlap() {
    assert_eq!(overlap(v(0, 0), v(5, 5), v(20, 0), v(5, 5)), None);
    assert_eq!(overlap(v(0, 0), v(5, 5), v(0, -20), v(5, 5)), None);
}

#[test]
fn boxes_that_only_touch_do_not_overlap() {
    assert_eq!(overlap(v(0, 0), v(5, 5), v(10, 0), v(5, 5)), None);
    assert_eq!(overlap(v(0, 0), v(5, 5), v(0, 10), v(5, 5)), None);
    assert_eq!(overlap(v(0, 0), v(5, 5), v(10, 10), v(5, 5)), None);
}

#[test]
fn contact_from_the_left_is_left() {
    assert_eq!(overlap(v(-8, 0), v(5, 5), v(0, 0), v(5, 20)), Some(Side::Left));
}

#[test]
fn contact_from_the_right_is_right() {
    assert_eq!(overlap(v(8, 0), v(5, 5), v(0, 0), v(5, 20)), Some(Side::Right));
}

#[test]
fn contact_from_above_is_top() {
    assert_eq!(overlap(v(0, 8), v(5, 5), v(0, 0), v(20, 5)), Some(Side::Top));
}

#[test]
fn contact_from_below_is_bottom() {
    assert_eq!(overlap(v(0, -8), v(5, 5), v(0, 0), v(20, 5)), Some(Side::Bottom));
}

#[test]
fn box_within_the_other_is_inside() {
    assert_eq!(overlap(v(0, 0), v(2, 2), v(0, 0), v(10, 10)), Some(Side::Inside));
    assert_eq!(overlap(v(1, -1), v(2, 2), v(0, 0), v(10, 10)), Some(Side::Inside));
}

#[test]
fn box_that_covers_the_other_is_inside() {
    assert_eq!(overlap(v(0, 0), v(10, 10), v(0, 0), v(2, 2)), Some(Side::Inside));
}

#[test]
fn equal_boxes_are_inside() {
    assert_eq!(overlap(v(3, 4), v(5, 5), v(3, 4), v(5, 5)), Some(Side::Inside));
}

#[test]
fn corner_contact_goes_to_the_shallower_axis() {
    // 2 deep horizontally, 6 deep vertically: the horizontal edge decides.
    assert_eq!(overlap(v(-8, -4), v(5, 5), v(0, 0), v(5, 5)), Some(Side::Left));
    // 6 deep horizontally, 2 deep vertically: the vertical edge decides.
    assert_eq!(overlap(v(-4, -8), v(5, 5), v(0, 0), v(5, 5)), Some(Side::Bottom));
    assert_eq!(overlap(v(4, 8), v(5, 5), v(0, 0), v(5, 5)), Some(Side::Top));
    assert_eq!(overlap(v(8, 4), v(5, 5), v(0, 0), v(5, 5)), Some(Side::Right));
}

#[test]
fn corner_contact_of_equal_depth_goes_to_the_horizontal_axis() {
    assert_eq!(overlap(v(-6, -6), v(5, 5), v(0, 0), v(5, 5)), Some(Side::Left));
    assert_eq!(overlap(v(6, 6), v(5, 5), v(0, 0), v(5, 5)), Some(Side::Right));
    assert_eq!(overlap(v(6, -6), v(5, 5), v(0, 0), v(5, 5)), Some(Side::Right));
}

#[test]
fn overlap_handles_the_largest_coordinates() {
    let far = i64::MAX;
    assert_eq!(overlap(v(far, far), v(far, far), v(-far, -far), v(1, 1)), None);
    assert_eq!(overlap(v(far, 0), v(far, 5), v(far, 0), v(far, 5)), Some(Side::Inside));
    assert_eq!(overlap(v(i64::MIN, 0), v(i64::MAX, 5), v(0, 0), v(3, 20)), Some(Side::Left));
}

fn side_of(collision: Option<Collision>) -> Option<Side> {
    match collision {
        None => None,
        Some(Collision::Left) => Some(Side::Left),
        Some(Collision::Right) => Some(Side::Right),
        Some(Collision::Top) => Some(Side::Top),
        Some(Collision::Bottom) => Some(Side::Bottom),
        Some(Collision::Inside) => Some(Side::Inside),
    }
}

#[test]
fn box_whose_centre_is_inside_the_other_is_inside() {
    // It straddles the right edge, but its centre has crossed it.
    assert_eq!(overlap(v(4, 0), v(5, 5), v(0, 0), v(5, 20)), Some(Side::Inside));
    assert_eq!(overlap(v(5, 0), v(5, 5), v(0, 0), v(5, 20)), Some(Side::Right));
    assert_eq!(overlap(v(0, -4), v(5, 5), v(0, 0), v(20, 5)), Some(Side::Inside));
    assert_eq!(overlap(v(0, -5), v(5, 5), v(0, 0), v(20, 5)), Some(Side::Bottom));
    // Inside on one axis only is not enough.
    assert_eq!(overlap(v(4, 8), v(5, 5), v(0, 0), v(5, 5)), Some(Side::Top));
}

#[test]
fn box_that_covers_the_other_on_both_axes_is_inside_wherever_its_centre_is() {
    assert_eq!(overlap(v(7, -7), v(10, 10), v(0, 0), v(2, 2)), Some(Side::Inside));
}

#[test]
fn overlap_agrees_with_the_float_test_on_a_grid() {
    // Half extents here, full sizes there; every value is a small integer,
    // which the float test represents exactly. The float test goes by the
    // edges alone, so the two may differ only where the centre of the first
    // box is inside the second.
    let halves = [(1i64, 1i64), (3, 2), (2, 5), (6, 6)];
    let mut cases = 0u32;
    for &(ahx, ahy) in halves.iter() {
        for &(bhx, bhy) in halves.iter() {
            for ax in -12i64..=12 {
                for ay in -12i64..=12 {
                    let mine = overlap(v(ax, ay), v(ahx, ahy), v(1, -1), v(bhx, bhy));
                    let theirs = collide(
                        bevy::math::Vec3::new(ax as f32, ay as f32, 0.0),
                        bevy::math::Vec2::new(2.0 * ahx as f32, 2.0 * ahy as f32),
                        bevy::math::Vec3::new(1.0, -1.0, 0.0),
                        bevy::math::Vec2::new(2.0 * bhx as f32, 2.0 * bhy as f32),
                    );
                    let inside = (ax - 1).abs() < bhx && (ay + 1).abs() < bhy;
                    if inside {
                        assert_eq!(mine, Some(Side::Inside), "a at ({}, {})", ax, ay);
                        assert!(theirs.is_some());
                    } else {
                        assert_eq!(mine, side_of(theirs), "a at ({}, {})", ax, ay);
                    }
                    cases += 1;
                }
            }
        }
    }
    assert_eq!(cases, 16 * 25 * 25);
}
