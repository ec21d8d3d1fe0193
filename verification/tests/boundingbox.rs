use pathtracer::boundingbox::BoundingBox;
use pathtracer::interval::Interval;
use pathtracer::scalar::Scalar;
use pathtracer::vector::Vec3;

fn s(x: f32) -> Scalar {
    Scalar::from_bits(x.to_bits())
}

fn v(x: f32, y: f32, z: f32) -> Vec3 {
    Vec3::new(s(x), s(y), s(z))
}

fn range(min: f32, max: f32) -> Interval {
    Interval::new(s(min), s(max))
}

#[test]
fn a_box_keeps_its_ranges() {
    let b = BoundingBox::new(range(0.0, 1.0), range(-2.0, 2.0), range(5.0, 6.0));
    assert_eq!(b.x, range(0.0, 1.0));
    assert_eq!(b.y, range(-2.0, 2.0));
    assert_eq!(b.z, range(5.0, 6.0));
}

#[test]
fn corners_may_come_in_any_order() {
    let expected = BoundingBox::new(range(-1.0, 3.0), range(0.5, 2.0), range(-7.0, -4.0));
    assert_eq!(BoundingBox::from_corners(v(-1.0, 0.5, -7.0), v(3.0, 2.0, -4.0)), expected);
    assert_eq!(BoundingBox::from_corners(v(3.0, 2.0, -4.0), v(-1.0, 0.5, -7.0)), expected);
    assert_eq!(BoundingBox::from_corners(v(3.0, 0.5, -4.0), v(-1.0, 2.0, -7.0)), expected);
}

#[test]
fn a_box_holds_its_corners() {
    let corners = [v(-1.0, 0.5, -7.0), v(3.0, 0.5, 4.0), v(0.0, -0.0, f32::INFINITY)];
    for c0 in corners {
        for c1 in corners {
            let b = BoundingBox::from_corners(c0, c1);
            for c in [c0, c1] {
                assert!(b.x.contains(c.x) && b.y.contains(c.y) && b.z.contains(c.z));
            }
        }
    }
}

#[test]
fn a_corner_without_a_number_leaves_the_other_corner() {
    let b = BoundingBox::from_corners(v(f32::NAN, 1.0, 2.0), v(5.0, f32::NAN, 2.0));
    assert_eq!(b.x, range(5.0, 5.0));
    assert_eq!(b.y, range(1.0, 1.0));
    assert_eq!(b.z, range(2.0, 2.0));
}
