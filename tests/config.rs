use nbodies::config::{ConfigError, WorldConfig, GRID_STEPS_PER_UNIT, MAX_WORLD_RADIUS};
use nbodies::sampler::squared_norm;

#[test]
fn derived_camera_values() {
    let c = WorldConfig::new(100, 10000).unwrap();
    assert_eq!(c.radius, 100);
    assert_eq!(c.body_count, 10000);
    assert_eq!(c.camera_distance, 200);
    assert_eq!(c.camera_speed, 100);
    let p = c.initial_camera_position();
    assert_eq!((p.x, p.y, p.z), (0, 200, -200));
    assert_eq!(c.grid_radius(), 100 * GRID_STEPS_PER_UNIT);
}

#[test]
fn invalid_configurations_are_refused() {
    assert_eq!(WorldConfig::new(-1, 10), Err(ConfigError::NegativeRadius));
    assert_eq!(WorldConfig::new(-1, -1), Err(ConfigError::NegativeRadius));
    assert_eq!(WorldConfig::new(10, -1), Err(ConfigError::NegativeBodyCount));
    assert_eq!(WorldConfig::new(MAX_WORLD_RADIUS + 1, 1), Err(ConfigError::RadiusTooLarge));
    assert!(WorldConfig::new(MAX_WORLD_RADIUS, 1).is_ok());
    assert!(WorldConfig::new(0, 0).is_ok());
}

#[test]
fn ten_thousand_bodies_in_radius_hundred() {
    let c = WorldConfig::new(100, 10000).unwrap();
    let bodies = c.sample_bodies().unwrap();
    assert_eq!(bodies.len(), 10000);
    let r = c.grid_radius();
    let mut total = 0.0f64;
    for b in &bodies {
        let sq = squared_norm(b);
        assert!(sq <= r * r);
        total += (sq as f64).sqrt() / GRID_STEPS_PER_UNIT as f64;
    }
    let mean = total / bodies.len() as f64;
    assert!((mean - 75.0).abs() < 1.5, "mean norm {}", mean);
}

#[test]
fn zero_radius_world_puts_bodies_at_centre() {
    let c = WorldConfig::new(0, 5).unwrap();
    let bodies = c.sample_bodies().unwrap();
    assert_eq!(bodies.len(), 5);
    assert!(bodies.iter().all(|b| b.x == 0 && b.y == 0 && b.z == 0));
}

#[test]
fn sampling_refuses_invalid_configurations() {
    let bad_radius = WorldConfig { radius: -5, body_count: 3, camera_distance: 10, camera_speed: 5 };
    assert_eq!(bad_radius.sample_bodies(), Err(ConfigError::NegativeRadius));
    let bad_count = WorldConfig { radius: 5, body_count: -3, camera_distance: 10, camera_speed: 5 };
    assert_eq!(bad_count.sample_bodies(), Err(ConfigError::NegativeBodyCount));
    let too_large = WorldConfig { radius: MAX_WORLD_RADIUS + 1, body_count: 3, camera_distance: 10, camera_speed: 5 };
    assert_eq!(too_large.sample_bodies(), Err(ConfigError::RadiusTooLarge));
}
