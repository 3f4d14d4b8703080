//! A small gravitational n-body simulation core.
//!
//! Bodies carry a mass, a position, a velocity, a display radius and a
//! display colour. Every scalar is a fixed-point number: an `i64` counting
//! units of `1 / SCALE`. The simulation advances in discrete ticks; each
//! tick integrates every body with a second-order predictor-corrector
//! scheme, then resolves overlapping pairs with an elastic impulse. A tick
//! is transactional: it either commits a fully finite new state or reports
//! a numerical instability and leaves the previous state untouched.

pub mod accel;
pub mod collision;
pub mod fixed;
pub mod integrate;
pub mod planet;
pub mod seed;
pub mod sim;
pub mod vec3;

pub use fixed::MIN_SEPARATION;
pub use fixed::SCALE;
pub use planet::Planet;
pub use planet::RawPlanetData;
pub use planet::Rgb;
pub use sim::SimError;
pub use sim::Simulation;
pub use vec3::Vec3;
