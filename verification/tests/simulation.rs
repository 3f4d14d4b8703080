use celestial::Planet;
use celestial::Rgb;
use celestial::SimError;
use celestial::Simulation;
use celestial::Vec3;
use celestial::SCALE;

// 6.6743 as a fixed-point scalar.
const G_FIXED: i64 = 6_674_300;

fn black() -> Rgb {
    Rgb { red: 0, green: 0, blue: 0 }
}

fn fx(units: i64) -> i64 {
    units * SCALE
}

fn to_f(v: i64) -> f64 {
    v as f64 / SCALE as f64
}

fn v3(x: i64, y: i64, z: i64) -> Vec3 {
    Vec3 { x, y, z }
}

fn planet_with_velocity(mass: i64, pos: Vec3, vel: Vec3, radius: i64) -> Planet {
    let mut p = Planet::new(mass, pos, radius, black());
    p.vel = vel;
    p
}

fn separation(a: &Planet, b: &Planet) -> f64 {
    let dx = to_f(a.pos.x) - to_f(b.pos.x);
    let dy = to_f(a.pos.y) - to_f(b.pos.y);
    let dz = to_f(a.pos.z) - to_f(b.pos.z);
    (dx * dx + dy * dy + dz * dz).sqrt()
}

fn angular_momentum(a: &Planet, b: &Planet) -> f64 {
    let rx = to_f(b.pos.x) - to_f(a.pos.x);
    let ry = to_f(b.pos.y) - to_f(a.pos.y);
    let rz = to_f(b.pos.z) - to_f(a.pos.z);
    let vx = to_f(b.vel.x) - to_f(a.vel.x);
    let vy = to_f(b.vel.y) - to_f(a.vel.y);
    let vz = to_f(b.vel.z) - to_f(a.vel.z);
    let cx = ry * vz - rz * vy;
    let cy = rz * vx - rx * vz;
    let cz = rx * vy - ry * vx;
    (cx * cx + cy * cy + cz * cz).sqrt()
}

/// Primary of mass 1000 at the origin, satellite of mass 1 at
/// (100, 0, 0), seeded for a circular orbit around index 0.
fn seeded_two_body_sim() -> Simulation {
    let mut sim = Simulation::new(G_FIXED, 5);
    sim.create_body(fx(1000), v3(0, 0, 0), 0, black()).unwrap();
    sim.create_body(fx(1), v3(fx(100), 0, 0), 0, black()).unwrap();
    sim.seed_initial_velocities(0).unwrap();
    sim
}

#[test]
fn mass_and_radius_survive_steps() {
    let mut sim = Simulation::new(G_FIXED, 5);
    sim.create_body(fx(1000), v3(0, 0, 0), fx(35), Rgb { red: SCALE, green: 517_647, blue: 0 })
        .unwrap();
    sim.create_body(fx(7), v3(fx(150), 0, 0), fx(5), black()).unwrap();
    sim.create_body(fx(12), v3(0, fx(220), fx(40)), fx(9), black()).unwrap();
    sim.seed_initial_velocities(0).unwrap();
    let before: Vec<Planet> = (0..sim.len()).map(|i| sim.get_body(i)).collect();
    for _ in 0..50 {
        sim.step(10_000).unwrap();
    }
    assert_eq!(sim.len(), before.len());
    for (i, old) in before.iter().enumerate() {
        let now = sim.get_body(i);
        assert_eq!(now.mass, old.mass);
        assert_eq!(now.radius, old.radius);
        assert_eq!(now.color, old.color);
    }
}

#[test]
fn two_body_orbit_stays_circular() {
    let mut sim = seeded_two_body_sim();
    for _ in 0..1000 {
        sim.step(10_000).unwrap();
        let d = separation(&sim.get_body(0), &sim.get_body(1));
        assert!(
            (d - 100.0).abs() <= 1.0,
            "separation {} drifted more than 1% from 100",
            d
        );
    }
}

#[test]
fn angular_momentum_drift_is_small() {
    let mut sim = seeded_two_body_sim();
    let initial = angular_momentum(&sim.get_body(0), &sim.get_body(1));
    assert!(initial > 0.0);
    for _ in 0..1000 {
        sim.step(10_000).unwrap();
        let now = angular_momentum(&sim.get_body(0), &sim.get_body(1));
        assert!(
            ((now - initial) / initial).abs() < 0.01,
            "|r x v| drifted from {} to {}",
            initial,
            now
        );
    }
}

#[test]
fn equal_mass_collision_swaps_velocities() {
    let a = planet_with_velocity(fx(1), v3(-fx(10), 0, 0), v3(SCALE, 0, 0), fx(10));
    let b = planet_with_velocity(fx(1), v3(fx(10), 0, 0), v3(-SCALE, 0, 0), fx(10));
    let mut sim = Simulation::from_bodies(G_FIXED, 2, vec![a, b]).unwrap();
    sim.step(1000).unwrap();
    let va = sim.get_body(0).vel;
    let vb = sim.get_body(1).vel;
    assert!((to_f(va.x) - (-1.0)).abs() < 1e-3, "vel A x {}", to_f(va.x));
    assert!((to_f(vb.x) - 1.0).abs() < 1e-3, "vel B x {}", to_f(vb.x));
    assert!(to_f(va.y).abs() < 1e-3 && to_f(va.z).abs() < 1e-3);
    assert!(to_f(vb.y).abs() < 1e-3 && to_f(vb.z).abs() < 1e-3);
}

#[test]
fn seeding_gives_circular_orbit_speed() {
    let sim = seeded_two_body_sim();
    let v = sim.get_body(1).vel;
    // Exact fixed-point result of the seeding formula for this scene.
    assert_eq!((v.x, v.y, v.z), (0, 0, 8_169_600));
    let speed = (to_f(v.x).powi(2) + to_f(v.y).powi(2) + to_f(v.z).powi(2)).sqrt();
    let expected = (6.6743f64 * 1000.0 / 100.0).sqrt();
    assert!(
        ((speed - expected) / expected).abs() < 1e-4,
        "speed {} expected {}",
        speed,
        expected
    );
}

#[test]
fn seeded_velocity_is_perpendicular_to_radius() {
    let sim = seeded_two_body_sim();
    let primary = sim.get_body(0);
    let sat = sim.get_body(1);
    let rx = (primary.pos.x - sat.pos.x) as i128;
    let ry = (primary.pos.y - sat.pos.y) as i128;
    let rz = (primary.pos.z - sat.pos.z) as i128;
    let d = rx * sat.vel.x as i128 + ry * sat.vel.y as i128 + rz * sat.vel.z as i128;
    assert_eq!(d, 0);
}

#[test]
fn seeding_replaces_velocity_outright() {
    let primary = Planet::new(fx(1000), v3(0, 0, 0), 0, black());
    let stale = planet_with_velocity(fx(1), v3(fx(100), 0, 0), v3(fx(3), fx(-2), fx(9)), 0);
    let mut sim = Simulation::from_bodies(G_FIXED, 2, vec![primary, stale])
        .unwrap();
    sim.seed_initial_velocities(0).unwrap();
    let fresh = seeded_two_body_sim();
    assert_eq!(sim.get_body(1).vel, fresh.get_body(1).vel);
    assert_eq!(sim.get_body(0).vel, v3(0, 0, 0));
}

#[test]
fn step_on_zero_bodies_succeeds() {
    let mut sim = Simulation::new(G_FIXED, 5);
    assert_eq!(sim.step(10_000), Ok(()));
    assert_eq!(sim.snapshot().len(), 0);
    assert_eq!(sim.len(), 0);
}

#[test]
fn coincident_bodies_report_instability() {
    let p = v3(fx(5), fx(5), fx(5));
    let a = planet_with_velocity(fx(1), p, v3(SCALE, 0, 0), fx(1));
    let b = planet_with_velocity(fx(2), p, v3(0, SCALE, 0), fx(1));
    let mut sim = Simulation::from_bodies(G_FIXED, 2, vec![a, b]).unwrap();
    let before: Vec<Planet> = (0..sim.len()).map(|i| sim.get_body(i)).collect();
    assert_eq!(sim.step(10_000), Err(SimError::NumericalInstability));
    for (i, old) in before.iter().enumerate() {
        let now = sim.get_body(i);
        assert_eq!(now.pos, old.pos);
        assert_eq!(now.vel, old.vel);
        assert_eq!(now.mass, old.mass);
        assert_eq!(now.radius, old.radius);
    }
}

#[test]
fn overflowing_step_reports_instability_and_keeps_state() {
    let racer = planet_with_velocity(fx(1), v3(0, 0, 0), v3(i64::MAX / 2, 0, 0), 0);
    let mut sim = Simulation::from_bodies(G_FIXED, 1, vec![racer]).unwrap();
    assert_eq!(sim.step(fx(1000)), Err(SimError::NumericalInstability));
    assert_eq!(sim.get_body(0).pos, v3(0, 0, 0));
    assert_eq!(sim.get_body(0).vel, v3(i64::MAX / 2, 0, 0));
}

#[test]
fn create_body_rejects_non_positive_mass() {
    let mut sim = Simulation::new(G_FIXED, 5);
    assert_eq!(
        sim.create_body(0, v3(0, 0, 0), 0, black()),
        Err(SimError::ConfigurationError)
    );
    assert_eq!(
        sim.create_body(-fx(3), v3(0, 0, 0), 0, black()),
        Err(SimError::ConfigurationError)
    );
    assert_eq!(sim.len(), 0);
}

#[test]
fn create_body_rejects_negative_radius() {
    let mut sim = Simulation::new(G_FIXED, 5);
    assert_eq!(
        sim.create_body(fx(1), v3(0, 0, 0), -1, black()),
        Err(SimError::ConfigurationError)
    );
    assert_eq!(sim.len(), 0);
}

#[test]
fn create_body_rejects_when_capacity_is_full() {
    let mut sim = Simulation::new(G_FIXED, 1);
    assert_eq!(sim.create_body(fx(1), v3(0, 0, 0), 0, black()), Ok(0));
    assert_eq!(
        sim.create_body(fx(1), v3(fx(9), 0, 0), 0, black()),
        Err(SimError::ConfigurationError)
    );
    assert_eq!(sim.len(), 1);
    assert_eq!(sim.capacity(), 1);
}

#[test]
fn create_body_hands_out_indices_in_order() {
    let mut sim = Simulation::new(G_FIXED, 3);
    assert_eq!(sim.create_body(fx(1), v3(0, 0, 0), 0, black()), Ok(0));
    assert_eq!(sim.create_body(fx(2), v3(fx(1), 0, 0), 0, black()), Ok(1));
    assert_eq!(sim.create_body(fx(3), v3(fx(2), 0, 0), 0, black()), Ok(2));
    assert_eq!(sim.gravity(), G_FIXED);
    assert_eq!(sim.get_body(1).mass, fx(2));
    assert_eq!(sim.get_body(1).vel, v3(0, 0, 0));
}

#[test]
fn seeding_rejects_primary_out_of_range() {
    let mut sim = Simulation::new(G_FIXED, 5);
    sim.create_body(fx(1000), v3(0, 0, 0), 0, black()).unwrap();
    assert_eq!(
        sim.seed_initial_velocities(1),
        Err(SimError::ConfigurationError)
    );
    assert_eq!(sim.get_body(0).vel, v3(0, 0, 0));
}

#[test]
fn seeding_rejects_target_on_top_of_primary() {
    let mut sim = Simulation::new(G_FIXED, 5);
    sim.create_body(fx(1000), v3(0, 0, 0), 0, black()).unwrap();
    sim.create_body(fx(1), v3(0, 0, 0), 0, black()).unwrap();
    assert_eq!(
        sim.seed_initial_velocities(0),
        Err(SimError::ConfigurationError)
    );
}

#[test]
fn from_bodies_rejects_invalid_batches() {
    let good = Planet::new(fx(1), v3(0, 0, 0), 0, black());
    let bad = Planet::new(0, v3(fx(1), 0, 0), 0, black());
    assert!(matches!(
        Simulation::from_bodies(G_FIXED, 2, vec![good, bad]),
        Err(SimError::ConfigurationError)
    ));
    let a = Planet::new(fx(1), v3(0, 0, 0), 0, black());
    let b = Planet::new(fx(1), v3(fx(1), 0, 0), 0, black());
    assert!(matches!(
        Simulation::from_bodies(G_FIXED, 1, vec![a, b]),
        Err(SimError::ConfigurationError)
    ));
}

#[test]
fn snapshot_reports_display_fields_in_order() {
    let mut sim = Simulation::new(G_FIXED, 3);
    let amber = Rgb { red: SCALE, green: 517_647, blue: 0 };
    sim.create_body(fx(1000), v3(0, 0, 0), fx(35), amber).unwrap();
    sim.create_body(fx(1), v3(fx(100), fx(-3), fx(7)), fx(5), black()).unwrap();
    let snap = sim.snapshot();
    assert_eq!(snap.len(), 2);
    assert_eq!(snap[0].pos, v3(0, 0, 0));
    assert_eq!(snap[0].radius, fx(35));
    assert_eq!(snap[0].color, amber);
    assert_eq!(snap[1].pos, v3(fx(100), fx(-3), fx(7)));
    assert_eq!(snap[1].radius, fx(5));
    assert_eq!(snap[1].color, black());
}

#[test]
fn snapshot_is_stable_between_ticks() {
    let mut sim = seeded_two_body_sim();
    sim.step(10_000).unwrap();
    let first = sim.snapshot();
    let second = sim.snapshot();
    assert_eq!(first, second);
}

#[test]
fn identical_states_step_identically() {
    let mut left = seeded_two_body_sim();
    let mut right = seeded_two_body_sim();
    for _ in 0..20 {
        left.step(10_000).unwrap();
        right.step(10_000).unwrap();
    }
    for i in 0..left.len() {
        assert_eq!(left.get_body(i).pos, right.get_body(i).pos);
        assert_eq!(left.get_body(i).vel, right.get_body(i).vel);
    }
}
