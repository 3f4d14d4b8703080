//! The integrator: one body advanced by one time step with an improved
//! Euler (Heun) predictor-corrector scheme.
//!
//! For a body `b` among `bs` (which it reads at their current, committed
//! positions):
//!   1. `a0` = acceleration at `b.pos`;
//!   2. predicted position `pos1 = b.pos + b.vel * dt`;
//!   3. `a1` = acceleration at `pos1`;
//!   4. `vel1 = b.vel + (a0 + a1) * dt / 2`;
//!   5. `pos2 = b.pos + (b.vel + vel1) * dt / 2`.
//! Every operation is checked; any failure yields `None`.

use crate::accel::accel_sum_s;
use crate::planet::Planet;
use crate::vec3::add3;
use crate::vec3::add3_s;
use crate::vec3::half3;
use crate::vec3::half3_s;
use crate::vec3::scale3;
use crate::vec3::scale3_s;
use crate::vec3::Vec3;
use vstd::prelude::*;

verus! {

/// The body at index `skip` of `bs` (equal to `b`) after one time step,
/// every other body read at its current position.
pub open spec fn integrate_s(g: i64, b: Planet, bs: Seq<Planet>, skip: int, dt: i64) -> Option<
    Planet,
> {
    let n = bs.len() as int;
    match accel_sum_s(g, b.pos, bs, skip, n) {
        None => None,
        Some(a0) => match scale3_s(b.vel, dt) {
            None => None,
            Some(d) => match add3_s(b.pos, d) {
                None => None,
                Some(pos1) => match accel_sum_s(g, pos1, bs, skip, n) {
                    None => None,
                    Some(a1) => match add3_s(a0, a1) {
                        None => None,
                        Some(asum) => match scale3_s(asum, dt) {
                            None => None,
                            Some(adt) => match add3_s(b.vel, half3_s(adt)) {
                                None => None,
                                Some(vel1) => match add3_s(b.vel, vel1) {
                                    None => None,
                                    Some(vsum) => match scale3_s(vsum, dt) {
                                        None => None,
                                        Some(vdt) => match add3_s(b.pos, half3_s(vdt)) {
                                            None => None,
                                            Some(pos2) => Some(
                                                Planet { pos: pos2, vel: vel1, ..b },
                                            ),
                                        },
                                    },
                                },
                            },
                        },
                    },
                },
            },
        },
    }
}

impl Planet {
    /// One predictor-corrector step of `self`, which sits at index
    /// `skip` of `bodies`; the other bodies are read at their current
    /// positions. Pure: the caller commits the result, so that a failed
    /// tick leaves the committed state untouched.
    pub fn step(&self, g: i64, bodies: &Vec<Planet>, skip: usize, dt: i64) -> (r: Option<Planet>)
        ensures
            r == integrate_s(g, *self, bodies@, skip as int, dt),
    {
        let a0 = match self.calc_accel(g, bodies, skip) {
            None => {
                return None;
            },
            Some(v) => v,
        };
        let d = match scale3(self.vel, dt) {
            None => {
                return None;
            },
            Some(v) => v,
        };
        let pos1 = match add3(self.pos, d) {
            None => {
                return None;
            },
            Some(v) => v,
        };
        let predicted = Planet { pos: pos1, ..*self };
        let a1 = match predicted.calc_accel(g, bodies, skip) {
            None => {
                return None;
            },
            Some(v) => v,
        };
        let asum = match add3(a0, a1) {
            None => {
                return None;
            },
            Some(v) => v,
        };
        let adt = match scale3(asum, dt) {
            None => {
                return None;
            },
            Some(v) => v,
        };
        let vel1 = match add3(self.vel, half3(adt)) {
            None => {
                return None;
            },
            Some(v) => v,
        };
        let vsum = match add3(self.vel, vel1) {
            None => {
                return None;
            },
            Some(v) => v,
        };
        let vdt = match scale3(vsum, dt) {
            None => {
                return None;
            },
            Some(v) => v,
        };
        let pos2 = match add3(self.pos, half3(vdt)) {
            None => {
                return None;
            },
            Some(v) => v,
        };
        Some(Planet { pos: pos2, vel: vel1, ..*self })
    }
}

/// The first `k` bodies of `bs`, each advanced by one time step from the
/// same committed state.
pub open spec fn integrate_upto_s(g: i64, bs: Seq<Planet>, dt: i64, k: int) -> Option<Seq<Planet>>
    decreases k,
{
    if k <= 0 {
        Some(Seq::empty())
    } else {
        match integrate_upto_s(g, bs, dt, k - 1) {
            None => None,
            Some(s) => match integrate_s(g, bs[k - 1], bs, k - 1, dt) {
                None => None,
                Some(p) => Some(s.push(p)),
            },
        }
    }
}

/// Integration rewrites only position and velocity: mass, radius and
/// colour come through unchanged, slot by slot.
pub proof fn lemma_integrate_upto_preserves(g: i64, bs: Seq<Planet>, dt: i64, k: int)
    requires
        integrate_upto_s(g, bs, dt, k) is Some,
        k <= bs.len(),
    ensures
        ({
            let s = integrate_upto_s(g, bs, dt, k).unwrap();
            &&& s.len() == if k >= 0 {
                k
            } else {
                0
            }
            &&& forall|i: int|
                0 <= i < k ==> #[trigger] s[i].mass == bs[i].mass && s[i].radius == bs[i].radius
                    && s[i].color == bs[i].color
        }),
    decreases k,
{
    if k > 0 {
        lemma_integrate_upto_preserves(g, bs, dt, k - 1);
    }
}

/// All bodies integrated from the committed state `bodies`; `None` as
/// soon as any body's step fails.
pub fn integrate_all(g: i64, bodies: &Vec<Planet>, dt: i64) -> (r: Option<Vec<Planet>>)
    ensures
        match r {
            Some(v) => integrate_upto_s(g, bodies@, dt, bodies@.len() as int) == Some(v@),
            None => integrate_upto_s(g, bodies@, dt, bodies@.len() as int) is None,
        },
{
    let n = bodies.len();
    let mut out: Vec<Planet> = Vec::new();
    let mut i: usize = 0;
    while i < n
        invariant
            n == bodies@.len(),
            i <= n,
            integrate_upto_s(g, bodies@, dt, i as int) == Some(out@),
        decreases n - i,
    {
        match bodies[i].step(g, bodies, i, dt) {
            None => {
                proof {
                    lemma_integrate_none(g, bodies@, dt, i as int + 1, n as int);
                }
                return None;
            },
            Some(p) => {
                out.push(p);
            },
        }
        i += 1;
    }
    Some(out)
}

/// Once integration has failed for a prefix, it fails for the whole set.
pub proof fn lemma_integrate_none(g: i64, bs: Seq<Planet>, dt: i64, k: int, upto: int)
    requires
        0 <= k <= upto,
        integrate_upto_s(g, bs, dt, k) is None,
    ensures
        integrate_upto_s(g, bs, dt, upto) is None,
    decreases upto,
{
    if k < upto {
        lemma_integrate_none(g, bs, dt, k, upto - 1);
    }
}

} // verus!
