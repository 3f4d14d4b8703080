//! The per-body record: physical state plus display-only attributes.

use crate::vec3::zero3;
use crate::vec3::Vec3;
use vstd::prelude::*;

verus! {

/// A display colour; each channel is a fixed-point scalar, nominally in
/// `[0, SCALE]` for `[0.0, 1.0]`. Display-only: the simulation never
/// reads it.
#[derive(Clone, Copy, Debug, PartialEq, Eq, Structural)]
pub struct Rgb {
    pub red: i64,
    pub green: i64,
    pub blue: i64,
}

/// One simulated body.
///
/// `mass` and `radius` are immutable after creation: a tick rewrites only
/// `pos` and `vel`. `radius` and `color` are display data; `radius` also
/// sets the collision extent.
#[derive(Clone, Copy, Debug, PartialEq, Eq, Structural)]
pub struct Planet {
    pub mass: i64,
    pub pos: Vec3,
    pub vel: Vec3,
    pub radius: i64,
    pub color: Rgb,
}

/// The read-only, renderer-facing view of one body: position and display
/// attributes, never mass or velocity.
#[derive(Clone, Copy, Debug, PartialEq, Eq, Structural)]
pub struct RawPlanetData {
    pub pos: Vec3,
    pub radius: i64,
    pub color: Rgb,
}

/// What a snapshot exposes of a body.
pub open spec fn raw_of(p: Planet) -> RawPlanetData {
    RawPlanetData { pos: p.pos, radius: p.radius, color: p.color }
}

impl Planet {
    /// A physically admissible body: positive mass, non-negative radius.
    pub open spec fn valid(self) -> bool {
        self.mass > 0 && self.radius >= 0
    }

    /// A new body at rest.
    pub fn new(mass: i64, pos: Vec3, radius: i64, color: Rgb) -> (p: Planet)
        ensures
            p == (Planet { mass, pos, vel: zero3(), radius, color }),
    {
        Planet { mass, pos, vel: Vec3::zero(), radius, color }
    }

    /// The snapshot record for this body.
    pub fn to_raw_data(&self) -> (r: RawPlanetData)
        ensures
            r == raw_of(*self),
    {
        RawPlanetData { pos: self.pos, radius: self.radius, color: self.color }
    }
}

impl Default for Planet {
    /// A zeroed body with a mid-grey colour.
    fn default() -> (p: Planet)
        ensures
            p == (Planet {
                mass: 0,
                pos: zero3(),
                vel: zero3(),
                radius: 0,
                color: Rgb { red: 500_000, green: 500_000, blue: 500_000 },
            }),
    {
        Planet {
            mass: 0,
            pos: Vec3::zero(),
            vel: Vec3::zero(),
            radius: 0,
            color: Rgb { red: 500_000, green: 500_000, blue: 500_000 },
        }
    }
}

} // verus!
