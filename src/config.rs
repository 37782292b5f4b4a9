//! World configuration, fixed before a session starts.
use vstd::prelude::*;
use crate::sampler::{
    Point3,
    in_ball,
    sample_points,
    MAX_GRID_RADIUS,
};

verus! {

/// Grid steps per world unit used when bodies are sampled.
pub const GRID_STEPS_PER_UNIT: i64 = 1024;

/// Largest world radius whose grid radius the sampler can take.
pub const MAX_WORLD_RADIUS: i64 = 0x10_0000;

/// Why a configuration was refused.
#[derive(Clone, Copy, Debug, PartialEq, Eq, Structural)]
pub enum ConfigError {
    NegativeRadius,
    NegativeBodyCount,
    RadiusTooLarge,
}

/// Radius of the world sphere and the number of bodies in it, in world units,
/// with the initial camera distance and the camera speed derived from them.
#[derive(Clone, Copy, Debug, PartialEq, Eq, Structural)]
pub struct WorldConfig {
    pub radius: i64,
    pub body_count: i64,
    pub camera_distance: i64,
    pub camera_speed: i64,
}

/// The error a configuration of this radius and body count gets, if any.
pub open spec fn config_error(radius: int, body_count: int) -> Option<ConfigError> {
    if radius < 0 {
        Some(ConfigError::NegativeRadius)
    } else if body_count < 0 {
        Some(ConfigError::NegativeBodyCount)
    } else if radius > MAX_WORLD_RADIUS {
        Some(ConfigError::RadiusTooLarge)
    } else {
        None
    }
}

/// The error a configuration of this radius and body count gets, if any.
fn check_world(radius: i64, body_count: i64) -> (r: Option<ConfigError>)
    ensures
        r == config_error(radius as int, body_count as int),
{
    if radius < 0 {
        Some(ConfigError::NegativeRadius)
    } else if body_count < 0 {
        Some(ConfigError::NegativeBodyCount)
    } else if radius > MAX_WORLD_RADIUS {
        Some(ConfigError::RadiusTooLarge)
    } else {
        None
    }
}

impl WorldConfig {
    /// The camera starts at twice the world radius from the centre.
    pub open spec fn spec_camera_distance(radius: int) -> int {
        2 * radius
    }

    /// The camera moves at half its starting distance per second.
    pub open spec fn spec_camera_speed(radius: int) -> int {
        50 * Self::spec_camera_distance(radius) / 100
    }

    pub open spec fn well_formed(&self) -> bool {
        &&& config_error(self.radius as int, self.body_count as int).is_none()
        &&& self.camera_distance == Self::spec_camera_distance(self.radius as int)
        &&& self.camera_speed == Self::spec_camera_speed(self.radius as int)
    }

    /// A configuration for a world of this radius holding this many bodies.
    /// A negative radius or body count is refused, and so is a radius too
    /// large for the sampling grid.
    pub fn new(radius: i64, body_count: i64) -> (r: Result<WorldConfig, ConfigError>)
        ensures
            config_error(radius as int, body_count as int) matches Some(e) ==> r == Err::<
                WorldConfig,
                ConfigError,
            >(e),
            config_error(radius as int, body_count as int).is_none() ==> (r matches Ok(c) && c.well_formed()
                && c.radius == radius && c.body_count == body_count),
    {
        match check_world(radius, body_count) {
            Some(e) => Err(e),
            None => {
                let camera_distance = 2 * radius;
                let camera_speed = 50 * camera_distance / 100;
                Ok(WorldConfig { radius, body_count, camera_distance, camera_speed })
            },
        }
    }

    /// The world radius in grid steps.
    pub fn grid_radius(&self) -> (r: i64)
        requires
            config_error(self.radius as int, self.body_count as int).is_none(),
        ensures
            r == self.radius * GRID_STEPS_PER_UNIT,
            0 <= r <= MAX_GRID_RADIUS,
    {
        self.radius * GRID_STEPS_PER_UNIT
    }

    /// Where the camera starts: above the centre and behind it, at the
    /// configured distance along both the vertical and the depth axis.
    pub fn initial_camera_position(&self) -> (r: Point3)
        requires
            self.well_formed(),
        ensures
            r.x == 0,
            r.y == self.camera_distance,
            r.z == -self.camera_distance,
    {
        Point3 { x: 0, y: self.camera_distance, z: -self.camera_distance }
    }

    /// Body positions, in grid steps, sampled uniformly inside the world
    /// sphere: `body_count` of them, each within the sphere. A negative radius
    /// or body count, or a radius too large for the grid, is refused before
    /// any sampling.
    pub fn sample_bodies(&self) -> (r: Result<Vec<Point3>, ConfigError>)
        requires
            self.body_count <= usize::MAX,
        ensures
            config_error(self.radius as int, self.body_count as int) matches Some(e) ==> r == Err::<
                Vec<Point3>,
                ConfigError,
            >(e),
            config_error(self.radius as int, self.body_count as int).is_none() ==> (r matches Ok(v)
                && v@.len() == self.body_count && forall|i: int|
                0 <= i < v@.len() ==> in_ball(#[trigger] v@[i], self.radius * GRID_STEPS_PER_UNIT)),
    {
        match check_world(self.radius, self.body_count) {
            Some(e) => Err(e),
            None => Ok(sample_points(self.grid_radius(), self.body_count as usize)),
        }
    }
}

} // verus!
