use pathtracer::interval::Interval;
use pathtracer::scalar::Scalar;

fn s(x: f32) -> Scalar {
    Scalar::from_bits(x.to_bits())
}

fn range(min: f32, max: f32) -> Interval {
    Interval::new(s(min), s(max))
}

#[test]
fn new_keeps_the_bounds() {
    let r = range(-1.5, 2.5);
    assert_eq!(r.min, s(-1.5));
    assert_eq!(r.max, s(2.5));
}

#[test]
fn contains_includes_the_bounds() {
    let r = range(0.0, 1.0);
    assert!(r.contains(s(0.0)));
    assert!(r.contains(s(-0.0)));
    assert!(r.contains(s(0.5)));
    assert!(r.contains(s(1.0)));
    assert!(!r.contains(s(1.0000001)));
    assert!(!r.contains(s(-1e-45)));
    assert!(!r.contains(s(f32::NAN)));
}

#[test]
fn surrounds_excludes_the_bounds() {
    let r = range(0.001, f32::MAX);
    assert!(!r.surrounds(s(0.001)));
    assert!(r.surrounds(Scalar::from_bits(0.001f32.to_bits() + 1)));
    assert!(!r.surrounds(Scalar::from_bits(0.001f32.to_bits() - 1)));
    assert!(r.surrounds(Scalar::from_bits(f32::MAX.to_bits() - 1)));
    assert!(r.surrounds(s(1.0)));
    assert!(!r.surrounds(s(f32::MAX)));
    assert!(!r.surrounds(s(f32::INFINITY)));
    assert!(!r.surrounds(s(0.0)));
    assert!(!r.surrounds(s(-5.0)));
    assert!(!r.surrounds(s(f32::NAN)));
}

#[test]
fn an_interval_upside_down_is_empty() {
    let r = range(2.0, 1.0);
    for x in [0.0, 1.0, 1.5, 2.0, 3.0] {
        assert!(!r.contains(s(x)));
        assert!(!r.surrounds(s(x)));
    }
}

#[test]
fn an_interval_with_a_bound_that_is_no_number_is_empty() {
    let r = range(f32::NAN, 1.0);
    assert!(!r.contains(s(0.5)));
    assert!(!r.surrounds(s(0.5)));
    let r = range(0.0, f32::NAN);
    assert!(!r.contains(s(0.5)));
    assert!(!r.surrounds(s(0.5)));
}

#[test]
fn contains_and_surrounds_agree_with_the_numbers() {
    let values = [
        f32::NEG_INFINITY,
        -3.0,
        -0.000001,
        -0.0,
        0.0,
        0.000001,
        0.001,
        0.5,
        1.0,
        7.25,
        f32::MAX,
        f32::INFINITY,
        f32::NAN,
    ];
    for min in values {
        for max in values {
            for x in values {
                let r = range(min, max);
                assert_eq!(r.contains(s(x)), x >= min && x <= max, "{min} <= {x} <= {max}");
                assert_eq!(r.surrounds(s(x)), x > min && x < max, "{min} < {x} < {max}");
            }
        }
    }
}
