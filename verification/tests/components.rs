use celestial::fixed::fx_div;
use celestial::fixed::fx_half;
use celestial::fixed::fx_mul;
use celestial::vec3::magnitude;
use celestial::Planet;
use celestial::RawPlanetData;
use celestial::Rgb;
use celestial::Vec3;
use celestial::SCALE;

const G_FIXED: i64 = 6_674_300;

fn grey() -> Rgb {
    Rgb { red: 500_000, green: 500_000, blue: 500_000 }
}

fn v3(x: i64, y: i64, z: i64) -> Vec3 {
    Vec3 { x, y, z }
}

#[test]
fn fixed_point_arithmetic_truncates_toward_zero() {
    assert_eq!(fx_mul(2_000_000, 3_000_000), Some(6_000_000));
    assert_eq!(fx_mul(-2_000_000, 3_000_000), Some(-6_000_000));
    // Products below one fixed-point unit truncate to zero, both signs.
    assert_eq!(fx_mul(1, 1), Some(0));
    assert_eq!(fx_mul(-1, 1), Some(0));
    assert_eq!(fx_div(5_000_000, -2_000_000), Some(-2_500_000));
    assert_eq!(fx_div(1, 0), None);
    assert_eq!(fx_mul(i64::MAX, i64::MAX), None);
    assert_eq!(fx_half(7), 3);
    assert_eq!(fx_half(-7), -3);
}

#[test]
fn magnitude_of_a_pythagorean_triple() {
    assert_eq!(magnitude(v3(3_000_000, 4_000_000, 0)), Some(5_000_000));
    assert_eq!(magnitude(v3(0, 0, 0)), Some(0));
    assert_eq!(magnitude(v3(0, -2_000_000, 0)), Some(2_000_000));
}

#[test]
fn acceleration_matches_inverse_square_law() {
    // Primary of mass 1000 at the origin, target at (100, 0, 0):
    // |a| = 6.6743 * 1000 / 100^2 = 0.66743, pointing back at the origin.
    let primary = Planet::new(1000 * SCALE, v3(0, 0, 0), 0, grey());
    let target = Planet::new(SCALE, v3(100 * SCALE, 0, 0), 0, grey());
    let bodies = vec![primary, target];
    let a = target.calc_accel(G_FIXED, &bodies, 1).unwrap();
    assert_eq!((a.x, a.y, a.z), (-667_430, 0, 0));
}

#[test]
fn acceleration_fails_below_minimum_separation() {
    let primary = Planet::new(1000 * SCALE, v3(0, 0, 0), 0, grey());
    // 10^-4 of a distance unit away: under the 10^-3 hardening threshold.
    let target = Planet::new(SCALE, v3(100, 0, 0), 0, grey());
    let bodies = vec![primary, target];
    assert_eq!(target.calc_accel(G_FIXED, &bodies, 1), None);
}

#[test]
fn head_on_equal_mass_pair_swaps_exactly() {
    let mut a = Planet::new(SCALE, v3(-10 * SCALE, 0, 0), 10 * SCALE, grey());
    a.vel = v3(SCALE, 0, 0);
    let mut b = Planet::new(SCALE, v3(10 * SCALE, 0, 0), 10 * SCALE, grey());
    b.vel = v3(-SCALE, 0, 0);
    let (va, vb) = a.calc_collision(&b).unwrap();
    assert_eq!(va, v3(-SCALE, 0, 0));
    assert_eq!(vb, v3(SCALE, 0, 0));
}

#[test]
fn separated_pair_keeps_velocities() {
    let mut a = Planet::new(SCALE, v3(-10 * SCALE, 0, 0), SCALE, grey());
    a.vel = v3(SCALE, 0, 0);
    let mut b = Planet::new(SCALE, v3(10 * SCALE, 0, 0), SCALE, grey());
    b.vel = v3(-SCALE, 0, 0);
    let (va, vb) = a.calc_collision(&b).unwrap();
    assert_eq!(va, a.vel);
    assert_eq!(vb, b.vel);
}

#[test]
fn degenerate_pairs_are_skipped() {
    // Exactly coincident centers: impulse skipped, velocities kept.
    let mut a = Planet::new(SCALE, v3(7 * SCALE, 0, 0), SCALE, grey());
    a.vel = v3(SCALE, 0, 0);
    let mut b = Planet::new(3 * SCALE, v3(7 * SCALE, 0, 0), SCALE, grey());
    b.vel = v3(0, SCALE, 0);
    let (va, vb) = a.calc_collision(&b).unwrap();
    assert_eq!(va, a.vel);
    assert_eq!(vb, b.vel);

    // Overlapping but no relative velocity: also skipped.
    let mut c = Planet::new(SCALE, v3(0, 0, 0), SCALE, grey());
    c.vel = v3(SCALE, SCALE, 0);
    let mut d = Planet::new(SCALE, v3(SCALE, 0, 0), SCALE, grey());
    d.vel = c.vel;
    let (vc, vd) = c.calc_collision(&d).unwrap();
    assert_eq!(vc, c.vel);
    assert_eq!(vd, d.vel);
}

#[test]
fn unequal_mass_collision_conserves_momentum() {
    let ma: i64 = 2 * SCALE;
    let mb: i64 = 6 * SCALE;
    let mut a = Planet::new(ma, v3(-SCALE, 0, 0), SCALE, grey());
    a.vel = v3(3 * SCALE, 0, 0);
    let mut b = Planet::new(mb, v3(SCALE, 0, 0), SCALE, grey());
    b.vel = v3(-SCALE, 0, 0);
    let (va, vb) = a.calc_collision(&b).unwrap();
    let before = ma as i128 * a.vel.x as i128 + mb as i128 * b.vel.x as i128;
    let after = ma as i128 * va.x as i128 + mb as i128 * vb.x as i128;
    let drift = (after - before).abs() as f64 / (SCALE as f64 * SCALE as f64);
    assert!(drift < 1e-3, "momentum drifted by {}", drift);
}

#[test]
fn new_planet_is_at_rest() {
    let colour = Rgb { red: 1, green: 2, blue: 3 };
    let p = Planet::new(9 * SCALE, v3(1, 2, 3), 4 * SCALE, colour);
    assert_eq!(p.mass, 9 * SCALE);
    assert_eq!(p.pos, v3(1, 2, 3));
    assert_eq!(p.vel, v3(0, 0, 0));
    assert_eq!(p.radius, 4 * SCALE);
    assert_eq!(p.color, colour);
}

#[test]
fn default_planet_is_zeroed_and_mid_grey() {
    let p = Planet::default();
    assert_eq!(p.mass, 0);
    assert_eq!(p.pos, v3(0, 0, 0));
    assert_eq!(p.vel, v3(0, 0, 0));
    assert_eq!(p.radius, 0);
    assert_eq!(p.color, grey());
}

#[test]
fn raw_data_carries_only_display_fields() {
    let mut p = Planet::new(9 * SCALE, v3(5, 6, 7), 2 * SCALE, Rgb { red: 9, green: 8, blue: 7 });
    p.vel = v3(SCALE, SCALE, SCALE);
    let raw = p.to_raw_data();
    assert_eq!(
        raw,
        RawPlanetData { pos: v3(5, 6, 7), radius: 2 * SCALE, color: Rgb { red: 9, green: 8, blue: 7 } }
    );
}
