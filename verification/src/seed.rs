//! The orbit seeder: an initial circular-orbit velocity for a body
//! relative to a designated primary.
//!
//! The speed is `sqrt(|a| * |r|)`, where `a` is the net gravitational
//! acceleration currently acting on the body and `r` the vector from the
//! body to the primary; the direction is the unit vector `y_axis x r/|r|`,
//! perpendicular to `r`. Exact only in the two-body idealization; with
//! several comparable masses it is an independent per-body approximation.

use crate::accel::accel_sum_s;
use crate::fixed::div_s;
use crate::fixed::fx_div;
use crate::fixed::fx_mul;
use crate::fixed::fx_neg;
use crate::fixed::in64;
use crate::fixed::isqrt_u128;
use crate::fixed::mul_s;
use crate::fixed::neg_s;
use crate::fixed::sqrt_floor;
use crate::fixed::wide_mul;
use crate::fixed::MIN_SEPARATION;
use crate::planet::Planet;
use crate::vec3::mag_s;
use crate::vec3::magnitude;
use crate::vec3::sub3;
use crate::vec3::sub3_s;
use crate::vec3::Vec3;
use vstd::prelude::*;

verus! {

/// The body `b` (sitting at index `skip` of `bs`) with its velocity
/// replaced by the seeded circular-orbit velocity around the body at
/// index `primary`. `None` when the body is within `MIN_SEPARATION` of
/// the primary, the acceleration cannot be computed, or a value leaves
/// its range.
pub open spec fn seed_s(g: i64, b: Planet, bs: Seq<Planet>, skip: int, primary: int) -> Option<
    Planet,
> {
    match accel_sum_s(g, b.pos, bs, skip, bs.len() as int) {
        None => None,
        Some(a) => match sub3_s(bs[primary].pos, b.pos) {
            None => None,
            Some(dr) => {
                let amag = mag_s(a);
                let rmag = mag_s(dr);
                if rmag < MIN_SEPARATION {
                    None
                } else if !in64(amag) || !in64(rmag) {
                    None
                } else {
                    let v = sqrt_floor(amag * rmag);
                    if !in64(v) {
                        None
                    } else {
                        match div_s(v as i64, rmag as i64) {
                            None => None,
                            Some(t) => match (mul_s(dr.z, t), mul_s(dr.x, t)) {
                                (Some(vx), Some(vzn)) => match neg_s(vzn) {
                                    None => None,
                                    Some(vz) => Some(
                                        Planet { vel: Vec3 { x: vx, y: 0, z: vz }, ..b },
                                    ),
                                },
                                _ => None,
                            },
                        }
                    }
                }
            },
        },
    }
}

impl Planet {
    /// `self` (at index `skip` of `bodies`) with its velocity replaced
    /// outright by the circular-orbit seed around the body at index
    /// `primary`. Pure: the caller commits the result.
    pub fn set_init_velocity(
        &self,
        g: i64,
        bodies: &Vec<Planet>,
        skip: usize,
        primary: usize,
    ) -> (r: Option<Planet>)
        requires
            primary < bodies@.len(),
        ensures
            r == seed_s(g, *self, bodies@, skip as int, primary as int),
    {
        let a = match self.calc_accel(g, bodies, skip) {
            None => {
                return None;
            },
            Some(v) => v,
        };
        let dr = match sub3(bodies[primary].pos, self.pos) {
            None => {
                return None;
            },
            Some(v) => v,
        };
        let rmag = match magnitude(dr) {
            None => {
                return None;
            },
            Some(v) => v,
        };
        if rmag < MIN_SEPARATION {
            return None;
        }
        let amag = match magnitude(a) {
            None => {
                return None;
            },
            Some(v) => v,
        };
        proof {
            assert(amag * rmag >= 0) by (nonlinear_arith)
                requires
                    amag >= 0,
                    rmag >= 0,
            ;
        }
        let prod = wide_mul(amag, rmag);
        let s = isqrt_u128(prod as u128);
        if s > i64::MAX as u128 {
            return None;
        }
        let v = s as i64;
        let t = match fx_div(v, rmag) {
            None => {
                return None;
            },
            Some(w) => w,
        };
        let vx = match fx_mul(dr.z, t) {
            None => {
                return None;
            },
            Some(w) => w,
        };
        let vzn = match fx_mul(dr.x, t) {
            None => {
                return None;
            },
            Some(w) => w,
        };
        let vz = match fx_neg(vzn) {
            None => {
                return None;
            },
            Some(w) => w,
        };
        Some(Planet { vel: Vec3 { x: vx, y: 0, z: vz }, ..*self })
    }
}

/// The first `k` bodies of `bs`, the primary kept as it is and every
/// other body reseeded from the common committed positions.
pub open spec fn seed_upto_s(g: i64, bs: Seq<Planet>, primary: int, k: int) -> Option<Seq<Planet>>
    decreases k,
{
    if k <= 0 {
        Some(Seq::empty())
    } else {
        match seed_upto_s(g, bs, primary, k - 1) {
            None => None,
            Some(s) => if k - 1 == primary {
                Some(s.push(bs[k - 1]))
            } else {
                match seed_s(g, bs[k - 1], bs, k - 1, primary) {
                    None => None,
                    Some(p) => Some(s.push(p)),
                }
            },
        }
    }
}

/// Once seeding has failed for a prefix, it fails for the whole set.
pub proof fn lemma_seed_none(g: i64, bs: Seq<Planet>, primary: int, k: int, upto: int)
    requires
        0 <= k <= upto,
        seed_upto_s(g, bs, primary, k) is None,
    ensures
        seed_upto_s(g, bs, primary, upto) is None,
    decreases upto,
{
    if k < upto {
        lemma_seed_none(g, bs, primary, k, upto - 1);
    }
}

/// Seeding rewrites only velocities, and not the primary's: length,
/// mass, position, radius and colour come through unchanged, slot by
/// slot, and the primary's slot entirely.
pub proof fn lemma_seed_upto_preserves(g: i64, bs: Seq<Planet>, primary: int, k: int)
    requires
        seed_upto_s(g, bs, primary, k) is Some,
        k <= bs.len(),
    ensures
        ({
            let s = seed_upto_s(g, bs, primary, k).unwrap();
            &&& s.len() == if k >= 0 {
                k
            } else {
                0
            }
            &&& forall|i: int|
                #![trigger s[i]]
                0 <= i < k ==> s[i].mass == bs[i].mass && s[i].radius == bs[i].radius && s[i].color
                    == bs[i].color && s[i].pos == bs[i].pos
            &&& 0 <= primary < k ==> s[primary] == bs[primary]
        }),
    decreases k,
{
    if k > 0 {
        lemma_seed_upto_preserves(g, bs, primary, k - 1);
    }
}

} // verus!
