use pathtracer::integrator::{
    background_gradient, color_to_bytes, ray_to_color, Trace, BACKGROUND, FARTHEST, SHADOW_BIAS,
};
use pathtracer::interval::Interval;
use pathtracer::ray::{Hit, Ray};
use pathtracer::scalar::Scalar;
use pathtracer::scene::Scan;
use pathtracer::vector::Vec3;

fn s(x: f32) -> Scalar {
    Scalar::from_bits(x.to_bits())
}

fn v(x: f32, y: f32, z: f32) -> Vec3 {
    Vec3::new(s(x), s(y), s(z))
}

fn range(min: f32, max: f32) -> Interval {
    Interval::new(s(min), s(max))
}

fn hit_at(t: f32) -> Hit {
    Hit::new(
        s(-1.0),
        s(t),
        v(t, 0.0, 0.0),
        v(-1.0, 0.0, 0.0),
        v(0.5, 0.5, 0.5),
        Ray::new(v(t, 0.0, 0.0), v(-1.0, 0.0, 0.0)),
        false,
        Vec3::zero(),
    )
}

/// Asks shapes that would be hit at the given parameters, one after the
/// other, as a scene of such shapes would be asked.
fn scan(window: &Interval, parameters: &[f32]) -> Option<Hit> {
    let mut scan = Scan::new(window);
    for &t in parameters {
        let found = if scan.window().surrounds(s(t)) { Some(hit_at(t)) } else { None };
        scan.offer(found);
    }
    scan.finish()
}

#[test]
fn a_search_begins_with_the_whole_interval() {
    let scan = Scan::new(&range(0.001, f32::MAX));
    assert_eq!(scan.window(), range(0.001, f32::MAX));
    assert_eq!(scan.min, s(0.001));
    assert_eq!(scan.closest, s(f32::MAX));
    assert_eq!(scan.hit, None);
}

#[test]
fn a_scene_without_shapes_is_never_hit() {
    assert_eq!(Scan::new(&range(0.001, f32::MAX)).finish(), None);
    assert_eq!(scan(&range(0.001, f32::MAX), &[]), None);
}

#[test]
fn a_hit_ends_the_window() {
    let mut scan = Scan::new(&range(0.001, f32::MAX));
    scan.offer(Some(hit_at(5.0)));
    assert_eq!(scan.window(), range(0.001, 5.0));
    assert_eq!(scan.hit, Some(hit_at(5.0)));
    scan.offer(None);
    assert_eq!(scan.window(), range(0.001, 5.0));
    assert_eq!(scan.hit, Some(hit_at(5.0)));
    scan.offer(Some(hit_at(2.0)));
    assert_eq!(scan.window(), range(0.001, 2.0));
    assert_eq!(scan.finish(), Some(hit_at(2.0)));
}

#[test]
fn the_last_answer_replaces_the_others() {
    // a shape that does not keep to its window is believed all the same
    let mut scan = Scan::new(&range(0.001, f32::MAX));
    scan.offer(Some(hit_at(2.0)));
    scan.offer(Some(hit_at(5.0)));
    assert_eq!(scan.window(), range(0.001, 5.0));
    assert_eq!(scan.finish(), Some(hit_at(5.0)));
}

#[test]
fn the_nearest_hit_wins_in_every_order() {
    let window = range(0.001, f32::MAX);
    let orders: [[f32; 4]; 6] = [
        [1.0, 2.0, 3.0, 4.0],
        [4.0, 3.0, 2.0, 1.0],
        [2.0, 1.0, 4.0, 3.0],
        [3.0, 4.0, 1.0, 2.0],
        [4.0, 1.0, 3.0, 2.0],
        [2.0, 4.0, 3.0, 1.0],
    ];
    for order in orders {
        assert_eq!(scan(&window, &order), Some(hit_at(1.0)));
    }
}

#[test]
fn hits_outside_the_interval_do_not_count() {
    let window = range(0.001, 10.0);
    assert_eq!(scan(&window, &[0.0005, 10.0, 11.0, -2.0, f32::NAN]), None);
    assert_eq!(scan(&window, &[0.0005, 7.0, 11.0, 9.0]), Some(hit_at(7.0)));
}

#[test]
fn of_two_hits_at_one_distance_the_first_stays() {
    let mut scan = Scan::new(&range(0.001, f32::MAX));
    let mut first = hit_at(3.0);
    first.is_emitter = true;
    scan.offer(Some(first));
    let second = if scan.window().surrounds(s(3.0)) { Some(hit_at(3.0)) } else { None };
    assert_eq!(second, None);
    scan.offer(second);
    assert_eq!(scan.finish(), Some(first));
}

#[test]
fn bounds_have_their_encodings() {
    assert_eq!(SHADOW_BIAS, 0.001f32.to_bits());
    assert_eq!(FARTHEST, f32::MAX.to_bits());
    assert_eq!(BACKGROUND, 0.4f32.to_bits());
}

#[test]
fn radiance_at_depth_zero_is_black() {
    assert_eq!(ray_to_color(0), Trace::Finished(v(0.0, 0.0, 0.0)));
}

#[test]
fn a_ray_with_bounces_left_looks_for_a_hit() {
    assert_eq!(
        ray_to_color(1),
        Trace::Query { window: range(0.001, f32::MAX), depth: 0 }
    );
    assert_eq!(
        ray_to_color(15),
        Trace::Query { window: range(0.001, f32::MAX), depth: 14 }
    );
    assert_eq!(
        ray_to_color(u32::MAX),
        Trace::Query { window: range(0.001, f32::MAX), depth: u32::MAX - 1 }
    );
}

#[test]
fn the_background_is_mid_grey_in_every_direction() {
    let up = Ray::new(Vec3::zero(), v(0.0, 1.0, 0.0));
    let down = Ray::new(v(3.0, 2.0, 1.0), v(0.0, -1.0, 0.0));
    assert_eq!(background_gradient(&up), v(0.4, 0.4, 0.4));
    assert_eq!(background_gradient(&down), v(0.4, 0.4, 0.4));
}

#[test]
fn colours_become_bytes_for_red_green_and_blue() {
    assert_eq!(color_to_bytes(v(0.0, 127.5, 255.0)), (0, 128, 255));
    assert_eq!(color_to_bytes(v(12.4, 12.5, 12.6)), (12, 13, 13));
    assert_eq!(color_to_bytes(v(-4.0, 300.0, f32::NAN)), (0, 255, 0));
}

#[test]
fn the_background_after_gamma_is_byte_161() {
    let grey = f32::from_bits(BACKGROUND).sqrt();
    let clamped = v(grey, grey, grey).clamp(Vec3::zero(), Vec3::one());
    let scaled = f32::from_bits(clamped.x.to_bits()) * 255.0;
    assert_eq!(color_to_bytes(v(scaled, scaled, scaled)), (161, 161, 161));
}
