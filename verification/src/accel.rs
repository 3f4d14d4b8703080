//! The acceleration field calculator: net gravitational acceleration on
//! one body from all others, with the inverse-cube law evaluated in
//! fixed point.
//!
//! For a target at `pos` and another body of mass `m` at `q`, the
//! contribution is `g * m * (q - pos) / |q - pos|^3`. Separations below
//! `MIN_SEPARATION` make the law diverge and are reported as a failure
//! (`None`), which the caller surfaces as a numerical instability.

use crate::fixed::div_i128;
use crate::fixed::div_t;
use crate::fixed::fx_mul;
use crate::fixed::in128;
use crate::fixed::in64;
use crate::fixed::mul_s;
use crate::fixed::narrow64;
use crate::fixed::wide_mul;
use crate::fixed::MIN_SEPARATION;
use crate::fixed::SCALE;
use crate::planet::Planet;
use crate::vec3::add3;
use crate::vec3::add3_s;
use crate::vec3::mag_s;
use crate::vec3::magnitude;
use crate::vec3::sub3;
use crate::vec3::sub3_s;
use crate::vec3::zero3;
use crate::vec3::Vec3;
use vstd::prelude::*;

verus! {

/// One component of a contribution: `gm * drc * SCALE / mag^3`, with the
/// three divisions interleaved to stay inside `i128`. Meaningful for
/// `mag > 0`.
pub open spec fn accel_term_s(gm: i64, drc: i64, mag: i64) -> Option<i64> {
    let p = gm * drc * SCALE;
    if !in128(p) {
        None
    } else {
        let t1 = div_t(p, mag as int);
        if !in128(t1 * SCALE) {
            None
        } else {
            let t2 = div_t(t1 * SCALE, mag as int);
            let t3 = div_t(t2, mag as int);
            if in64(t3) {
                Some(t3 as i64)
            } else {
                None
            }
        }
    }
}

fn accel_term(gm: i64, drc: i64, mag: i64) -> (r: Option<i64>)
    requires
        mag > 0,
    ensures
        r == accel_term_s(gm, drc, mag),
{
    let p0 = wide_mul(gm, drc);
    match p0.checked_mul(SCALE as i128) {
        None => None,
        Some(p) => {
            let t1 = div_i128(p, mag as i128);
            match t1.checked_mul(SCALE as i128) {
                None => None,
                Some(q) => {
                    let t2 = div_i128(q, mag as i128);
                    let t3 = div_i128(t2, mag as i128);
                    narrow64(t3)
                },
            }
        },
    }
}

/// The gravitational pull of `other` on a target at `pos`: `None` when
/// the separation is below `MIN_SEPARATION` or a value leaves its range.
pub open spec fn accel_contrib_s(g: i64, pos: Vec3, other: Planet) -> Option<Vec3> {
    match sub3_s(other.pos, pos) {
        None => None,
        Some(dr) => {
            let m = mag_s(dr);
            if m < MIN_SEPARATION {
                None
            } else if !in64(m) {
                None
            } else {
                match mul_s(g, other.mass) {
                    None => None,
                    Some(gm) => match (
                        accel_term_s(gm, dr.x, m as i64),
                        accel_term_s(gm, dr.y, m as i64),
                        accel_term_s(gm, dr.z, m as i64),
                    ) {
                        (Some(x), Some(y), Some(z)) => Some(Vec3 { x, y, z }),
                        _ => None,
                    },
                }
            }
        },
    }
}

fn accel_contrib(g: i64, pos: Vec3, other: &Planet) -> (r: Option<Vec3>)
    ensures
        r == accel_contrib_s(g, pos, *other),
{
    match sub3(other.pos, pos) {
        None => None,
        Some(dr) => match magnitude(dr) {
            None => None,
            Some(m) => {
                if m < MIN_SEPARATION {
                    None
                } else {
                    match fx_mul(g, other.mass) {
                        None => None,
                        Some(gm) => match (
                            accel_term(gm, dr.x, m),
                            accel_term(gm, dr.y, m),
                            accel_term(gm, dr.z, m),
                        ) {
                            (Some(x), Some(y), Some(z)) => Some(Vec3 { x, y, z }),
                            _ => None,
                        },
                    }
                }
            },
        },
    }
}

/// Net acceleration at `pos` from the bodies at indices `0 .. upto` of
/// `bs`, the body at index `skip` excepted, summed in index order with
/// checked additions.
pub open spec fn accel_sum_s(g: i64, pos: Vec3, bs: Seq<Planet>, skip: int, upto: int) -> Option<
    Vec3,
>
    decreases upto,
{
    if upto <= 0 {
        Some(zero3())
    } else {
        match accel_sum_s(g, pos, bs, skip, upto - 1) {
            None => None,
            Some(acc) => if upto - 1 == skip {
                Some(acc)
            } else {
                match accel_contrib_s(g, pos, bs[upto - 1]) {
                    None => None,
                    Some(c) => add3_s(acc, c),
                }
            },
        }
    }
}

/// Once a prefix of the sum has failed, every longer prefix fails.
pub proof fn lemma_accel_sum_none(g: i64, pos: Vec3, bs: Seq<Planet>, skip: int, k: int, upto: int)
    requires
        0 <= k <= upto,
        accel_sum_s(g, pos, bs, skip, k) is None,
    ensures
        accel_sum_s(g, pos, bs, skip, upto) is None,
    decreases upto,
{
    if k < upto {
        lemma_accel_sum_none(g, pos, bs, skip, k, upto - 1);
    }
}

impl Planet {
    /// Net gravitational acceleration on `self` from every body in
    /// `bodies` except the one at index `skip` (conventionally `self`'s
    /// own slot). `None` when a separation is below `MIN_SEPARATION` or
    /// a value leaves its range.
    pub fn calc_accel(&self, g: i64, bodies: &Vec<Planet>, skip: usize) -> (r: Option<Vec3>)
        ensures
            r == accel_sum_s(g, self.pos, bodies@, skip as int, bodies@.len() as int),
    {
        let n = bodies.len();
        let mut acc = Vec3::zero();
        let mut j: usize = 0;
        while j < n
            invariant
                n == bodies@.len(),
                j <= n,
                accel_sum_s(g, self.pos, bodies@, skip as int, j as int) == Some(acc),
            decreases n - j,
        {
            if j != skip {
                match accel_contrib(g, self.pos, &bodies[j]) {
                    None => {
                        proof {
                            lemma_accel_sum_none(
                                g,
                                self.pos,
                                bodies@,
                                skip as int,
                                j as int + 1,
                                n as int,
                            );
                        }
                        return None;
                    },
                    Some(c) => {
                        match add3(acc, c) {
                            None => {
                                proof {
                                    lemma_accel_sum_none(
                                        g,
                                        self.pos,
                                        bodies@,
                                        skip as int,
                                        j as int + 1,
                                        n as int,
                                    );
                                }
                                return None;
                            },
                            Some(a2) => {
                                acc = a2;
                            },
                        }
                    },
                }
            }
            j += 1;
        }
        Some(acc)
    }
}

} // verus!
