use path_tracer::order::{near_zero, order_key};
use path_tracer::scene::{closest_hit, pick_root, Roots};

fn key(t: f64) -> u64 {
    order_key(t.to_bits())
}

fn roots(near: f64, far: f64) -> Option<Roots> {
    Some(Roots { near: key(near), far: key(far) })
}

const T_MIN: f64 = 0.001;

#[test]
fn order_keys_follow_real_order() {
    let values = [f64::NEG_INFINITY, -1.0e9, -2.5, -1.0e-300, -0.0, 0.0, 1.0e-300, 1.0e-3, 1.0, 2.5, 1.0e9, f64::INFINITY];
    for w in values.windows(2) {
        assert!(key(w[0]) < key(w[1]), "{} < {}", w[0], w[1]);
    }
}

#[test]
fn order_key_exact_values() {
    assert_eq!(order_key(0.0f64.to_bits()), 0x8000_0000_0000_0000);
    assert_eq!(order_key((-0.0f64).to_bits()), 0x7fff_ffff_ffff_ffff);
    assert_eq!(order_key(1.0f64.to_bits()), 0x8000_0000_0000_0000 | 0x3ff0_0000_0000_0000);
    assert_eq!(order_key((-1.0f64).to_bits()), 0x7fff_ffff_ffff_ffff - 0x3ff0_0000_0000_0000);
}

#[test]
fn near_zero_uses_magnitudes() {
    let eps = 1e-8f64.to_bits();
    assert!(near_zero(0.0f64.to_bits(), 1e-9f64.to_bits(), (-1e-9f64).to_bits(), eps));
    assert!(!near_zero((-0.5f64).to_bits(), 0.0f64.to_bits(), 0.0f64.to_bits(), eps));
    assert!(!near_zero(0.0f64.to_bits(), 0.0f64.to_bits(), 2e-8f64.to_bits(), eps));
    assert!(!near_zero(1e-8f64.to_bits(), 0.0f64.to_bits(), 0.0f64.to_bits(), eps));
}

#[test]
fn sphere_ahead_is_hit_at_entry() {
    // A sphere of radius 1 whose center lies 5 units along the ray.
    let r = pick_root(roots(4.0, 6.0), key(T_MIN), key(f64::INFINITY));
    assert_eq!(r, Some(key(4.0)));
}

#[test]
fn ray_from_inside_hits_far_side() {
    let r = pick_root(roots(-1.0, 1.0), key(T_MIN), key(f64::INFINITY));
    assert_eq!(r, Some(key(1.0)));
}

#[test]
fn roots_out_of_range_give_no_hit() {
    assert_eq!(pick_root(roots(-3.0, -1.0), key(T_MIN), key(f64::INFINITY)), None);
    assert_eq!(pick_root(roots(4.0, 6.0), key(T_MIN), key(3.0)), None);
    assert_eq!(pick_root(roots(4.0, 6.0), key(T_MIN), key(5.0)), Some(key(4.0)));
}

#[test]
fn bounds_are_exclusive() {
    // A root equal to a bound lies outside the open interval.
    assert_eq!(pick_root(roots(4.0, 6.0), key(4.0), key(5.0)), None);
    assert_eq!(pick_root(roots(4.0, 6.0), key(4.0), key(7.0)), Some(key(6.0)));
    assert_eq!(pick_root(roots(4.0, 6.0), key(3.0), key(6.0)), Some(key(4.0)));
    assert_eq!(pick_root(roots(4.0, 6.0), key(6.0), key(7.0)), None);
    assert_eq!(pick_root(roots(4.0, 6.0), key(4.0), key(4.0)), None);
}

#[test]
fn missed_sphere_gives_no_hit() {
    assert_eq!(pick_root(None, key(T_MIN), key(f64::INFINITY)), None);
    assert_eq!(closest_hit(&vec![None, None], key(T_MIN), key(f64::INFINITY)), None);
}

#[test]
fn empty_scene_gives_no_hit() {
    assert_eq!(closest_hit(&vec![], key(T_MIN), key(f64::INFINITY)), None);
}

#[test]
fn nearest_of_two_spheres_wins() {
    let lo = key(T_MIN);
    let hi = key(f64::INFINITY);
    let near_first = vec![roots(4.0, 6.0), roots(9.0, 11.0)];
    assert_eq!(closest_hit(&near_first, lo, hi), Some((0, key(4.0))));
    let far_first = vec![roots(9.0, 11.0), roots(4.0, 6.0)];
    assert_eq!(closest_hit(&far_first, lo, hi), Some((1, key(4.0))));
}

#[test]
fn overlapping_spheres_pick_nearest_surface() {
    let lo = key(T_MIN);
    let hi = key(f64::INFINITY);
    // The ray starts inside the first sphere, whose far side lies beyond the
    // entry point of the second.
    let scene = vec![roots(-2.0, 8.0), None, roots(5.0, 7.0), roots(-9.0, -4.0)];
    assert_eq!(closest_hit(&scene, lo, hi), Some((2, key(5.0))));
}

#[test]
fn equal_hits_keep_the_first() {
    let lo = key(T_MIN);
    let hi = key(f64::INFINITY);
    let scene = vec![roots(6.0, 7.0), roots(3.0, 4.0), roots(3.0, 5.0)];
    assert_eq!(closest_hit(&scene, lo, hi), Some((1, key(3.0))));
}
