//! The collision resolver: after integration, every unordered pair of
//! overlapping bodies receives an elastic impulse along the line of
//! centers.
//!
//! For a pair (A, B) with `dp = posA - posB`, A and B collide when
//! `|dp| <= radiusA + radiusB`, and then
//!   `velA -= (2 mB / (mA + mB)) * dot(velA - velB, dp) / |dp|^2 * dp`,
//! and symmetrically for B. Pairs are processed in index order, each
//! reading the velocities left by earlier pairs. A pair with coincident
//! centers or no relative velocity is skipped (degenerate, non-fatal);
//! a value leaving its range yields `None`.

use crate::fixed::add_s;
use crate::fixed::div_i128;
use crate::fixed::div_t;
use crate::fixed::fx_add;
use crate::fixed::in128;
use crate::fixed::in64;
use crate::fixed::isqrt_u128;
use crate::fixed::narrow64;
use crate::planet::Planet;
use crate::vec3::add3;
use crate::vec3::add3_s;
use crate::vec3::dot3;
use crate::vec3::dot_s;
use crate::vec3::mag_s;
use crate::vec3::norm_sq;
use crate::vec3::normsq_s;
use crate::vec3::sub3;
use crate::vec3::sub3_s;
use crate::vec3::zero3;
use crate::vec3::Vec3;
use vstd::prelude::*;

verus! {

/// One component of an impulse: `mnum * d / msum * dpc / nsq` with both
/// divisions truncated. Meaningful for `msum > 0`, `nsq > 0`.
pub open spec fn impulse_term_s(mnum: int, d: int, dpc: i64, msum: i64, nsq: int) -> Option<i64> {
    if !in128(mnum * d) {
        None
    } else {
        let t = div_t(mnum * d, msum as int);
        if !in128(t * dpc) {
            None
        } else {
            let w = div_t(t * dpc, nsq);
            if in64(w) {
                Some(w as i64)
            } else {
                None
            }
        }
    }
}

fn impulse_term(mnum: i128, d: i128, dpc: i64, msum: i64, nsq: i128) -> (r: Option<i64>)
    requires
        msum > 0,
        nsq > 0,
    ensures
        r == impulse_term_s(mnum as int, d as int, dpc, msum, nsq as int),
{
    match mnum.checked_mul(d) {
        None => None,
        Some(p) => {
            let t = div_i128(p, msum as i128);
            match t.checked_mul(dpc as i128) {
                None => None,
                Some(q) => {
                    let w = div_i128(q, nsq);
                    narrow64(w)
                },
            }
        },
    }
}

/// The velocity change of one partner of a colliding pair, along `dp`.
pub open spec fn impulse_delta_s(mnum: int, d: int, dp: Vec3, msum: i64, nsq: int) -> Option<
    Vec3,
> {
    match (
        impulse_term_s(mnum, d, dp.x, msum, nsq),
        impulse_term_s(mnum, d, dp.y, msum, nsq),
        impulse_term_s(mnum, d, dp.z, msum, nsq),
    ) {
        (Some(x), Some(y), Some(z)) => Some(Vec3 { x, y, z }),
        _ => None,
    }
}

fn impulse_delta(mnum: i128, d: i128, dp: Vec3, msum: i64, nsq: i128) -> (r: Option<Vec3>)
    requires
        msum > 0,
        nsq > 0,
    ensures
        r == impulse_delta_s(mnum as int, d as int, dp, msum, nsq as int),
{
    match (
        impulse_term(mnum, d, dp.x, msum, nsq),
        impulse_term(mnum, d, dp.y, msum, nsq),
        impulse_term(mnum, d, dp.z, msum, nsq),
    ) {
        (Some(x), Some(y), Some(z)) => Some(Vec3 { x, y, z }),
        _ => None,
    }
}

/// The post-impulse velocities of a pair: unchanged when the bodies do
/// not overlap or the pair is degenerate, `None` when a value leaves
/// its range. Meaningful for bodies with positive mass.
pub open spec fn collide_pair_vels_s(a: Planet, b: Planet) -> Option<(Vec3, Vec3)> {
    match sub3_s(a.pos, b.pos) {
        None => None,
        Some(dp) => match add_s(a.radius, b.radius) {
            None => None,
            Some(rsum) => {
                let nsq = normsq_s(dp);
                if mag_s(dp) > rsum {
                    Some((a.vel, b.vel))
                } else if nsq == 0 {
                    Some((a.vel, b.vel))
                } else {
                    match sub3_s(a.vel, b.vel) {
                        None => None,
                        Some(rv) => if rv == zero3() {
                            Some((a.vel, b.vel))
                        } else {
                            match dot_s(rv, dp) {
                                None => None,
                                Some(d) => match add_s(a.mass, b.mass) {
                                    None => None,
                                    Some(msum) => match (
                                        impulse_delta_s(2 * b.mass, d, dp, msum, nsq),
                                        impulse_delta_s(2 * a.mass, d, dp, msum, nsq),
                                    ) {
                                        (Some(da), Some(db)) => match (
                                            sub3_s(a.vel, da),
                                            add3_s(b.vel, db),
                                        ) {
                                            (Some(va), Some(vb)) => Some((va, vb)),
                                            _ => None,
                                        },
                                        _ => None,
                                    },
                                },
                            }
                        },
                    }
                }
            },
        },
    }
}

impl Planet {
    /// The elastic-impulse correction for the pair `(self, other)`:
    /// the pair's new velocities, or `None` when a value leaves its
    /// range. Velocities are unchanged when the bodies do not overlap,
    /// their centers coincide, or they have no relative velocity.
    pub fn calc_collision(&self, other: &Planet) -> (r: Option<(Vec3, Vec3)>)
        requires
            self.valid(),
            other.valid(),
        ensures
            r == collide_pair_vels_s(*self, *other),
    {
        let dp = match sub3(self.pos, other.pos) {
            None => {
                return None;
            },
            Some(v) => v,
        };
        let rsum = match fx_add(self.radius, other.radius) {
            None => {
                return None;
            },
            Some(v) => v,
        };
        let nsq_u = norm_sq(dp);
        let m = isqrt_u128(nsq_u);
        if m > rsum as u128 {
            return Some((self.vel, other.vel));
        }
        if nsq_u == 0 {
            return Some((self.vel, other.vel));
        }
        let rv = match sub3(self.vel, other.vel) {
            None => {
                return None;
            },
            Some(v) => v,
        };
        if rv.x == 0 && rv.y == 0 && rv.z == 0 {
            return Some((self.vel, other.vel));
        }
        let d = match dot3(rv, dp) {
            None => {
                return None;
            },
            Some(v) => v,
        };
        let msum = match fx_add(self.mass, other.mass) {
            None => {
                return None;
            },
            Some(v) => v,
        };
        proof {
            assert(nsq_u <= i128::MAX) by (nonlinear_arith)
                requires
                    nsq_u < (m + 1) * (m + 1),
                    m <= 0x7fff_ffff_ffff_ffff,
            ;
        }
        let nsq = nsq_u as i128;
        let mb2: i128 = 2 * (other.mass as i128);
        let ma2: i128 = 2 * (self.mass as i128);
        let da = match impulse_delta(mb2, d, dp, msum, nsq) {
            None => {
                return None;
            },
            Some(v) => v,
        };
        let db = match impulse_delta(ma2, d, dp, msum, nsq) {
            None => {
                return None;
            },
            Some(v) => v,
        };
        let va = match sub3(self.vel, da) {
            None => {
                return None;
            },
            Some(v) => v,
        };
        let vb = match add3(other.vel, db) {
            None => {
                return None;
            },
            Some(v) => v,
        };
        Some((va, vb))
    }
}

/// The body set after the pair `(i, j)` has been resolved: only the two
/// velocities change.
pub open spec fn collide_pair_s(bs: Seq<Planet>, i: int, j: int) -> Option<Seq<Planet>> {
    match collide_pair_vels_s(bs[i], bs[j]) {
        None => None,
        Some(vv) => Some(
            bs.update(i, Planet { vel: vv.0, ..bs[i] }).update(j, Planet { vel: vv.1, ..bs[j] }),
        ),
    }
}

/// The body set after the pairs `(i, j), (i, j + 1), ..., (i, n - 1)`,
/// in that order, each reading the velocities its predecessors left.
pub open spec fn collide_row_s(bs: Seq<Planet>, i: int, j: int, n: int) -> Option<Seq<Planet>>
    decreases n - j,
{
    if j >= n {
        Some(bs)
    } else {
        match collide_pair_s(bs, i, j) {
            None => None,
            Some(b2) => collide_row_s(b2, i, j + 1, n),
        }
    }
}

/// The body set after every unordered pair `(i, j)` with
/// `i < j < n`, in lexicographic order.
pub open spec fn collide_from_s(bs: Seq<Planet>, i: int, n: int) -> Option<Seq<Planet>>
    decreases n - i,
{
    if i >= n {
        Some(bs)
    } else {
        match collide_row_s(bs, i, i + 1, n) {
            None => None,
            Some(b2) => collide_from_s(b2, i + 1, n),
        }
    }
}

/// Collision resolution rewrites only velocities: length, mass,
/// position, radius and colour come through unchanged, slot by slot.
pub proof fn lemma_collide_row_preserves(bs: Seq<Planet>, i: int, j: int, n: int)
    requires
        collide_row_s(bs, i, j, n) is Some,
        n == bs.len(),
        0 <= i < n,
        i < j,
    ensures
        ({
            let s = collide_row_s(bs, i, j, n).unwrap();
            &&& s.len() == n
            &&& forall|k: int|
                #![trigger s[k]]
                0 <= k < n ==> s[k].mass == bs[k].mass && s[k].radius == bs[k].radius && s[k].color
                    == bs[k].color && s[k].pos == bs[k].pos
        }),
    decreases n - j,
{
    if j < n {
        let vv = collide_pair_vels_s(bs[i], bs[j]).unwrap();
        let b2 = bs.update(i, Planet { vel: vv.0, ..bs[i] }).update(
            j,
            Planet { vel: vv.1, ..bs[j] },
        );
        assert(collide_pair_s(bs, i, j) == Some(b2));
        assert(b2.len() == n);
        lemma_collide_row_preserves(b2, i, j + 1, n);
        let s2 = collide_row_s(b2, i, j + 1, n).unwrap();
        let s = collide_row_s(bs, i, j, n).unwrap();
        assert(s == s2);
        assert forall|k: int|
            0 <= k < n implies #[trigger] s[k].mass == bs[k].mass && s[k].radius == bs[k].radius
            && s[k].color == bs[k].color && s[k].pos == bs[k].pos by {
            assert(s2[k].mass == b2[k].mass && s2[k].radius == b2[k].radius && s2[k].color
                == b2[k].color && s2[k].pos == b2[k].pos);
            assert(b2[k].mass == bs[k].mass && b2[k].radius == bs[k].radius && b2[k].color
                == bs[k].color && b2[k].pos == bs[k].pos);
        };
    }
}

/// As `lemma_collide_row_preserves`, for the whole pass.
pub proof fn lemma_collide_from_preserves(bs: Seq<Planet>, i: int, n: int)
    requires
        collide_from_s(bs, i, n) is Some,
        n == bs.len(),
        0 <= i,
    ensures
        ({
            let s = collide_from_s(bs, i, n).unwrap();
            &&& s.len() == n
            &&& forall|k: int|
                #![trigger s[k]]
                0 <= k < n ==> s[k].mass == bs[k].mass && s[k].radius == bs[k].radius && s[k].color
                    == bs[k].color && s[k].pos == bs[k].pos
        }),
    decreases n - i,
{
    if i < n {
        let b2 = collide_row_s(bs, i, i + 1, n).unwrap();
        lemma_collide_row_preserves(bs, i, i + 1, n);
        assert(b2.len() == n);
        lemma_collide_from_preserves(b2, i + 1, n);
        let s2 = collide_from_s(b2, i + 1, n).unwrap();
        let s = collide_from_s(bs, i, n).unwrap();
        assert(s == s2);
        assert forall|k: int|
            0 <= k < n implies #[trigger] s[k].mass == bs[k].mass && s[k].radius == bs[k].radius
            && s[k].color == bs[k].color && s[k].pos == bs[k].pos by {
            assert(s2[k].mass == b2[k].mass && s2[k].radius == b2[k].radius && s2[k].color
                == b2[k].color && s2[k].pos == b2[k].pos);
            assert(b2[k].mass == bs[k].mass && b2[k].radius == bs[k].radius && b2[k].color
                == bs[k].color && b2[k].pos == bs[k].pos);
        };
    }
}

/// One full collision pass over `bodies`, pair by pair in index order.
/// `true` means every pair resolved; `false` means some value left its
/// range, and the caller discards the partially updated scratch state.
pub fn resolve_collisions(bodies: &mut Vec<Planet>) -> (ok: bool)
    requires
        forall|k: int| 0 <= k < old(bodies)@.len() ==> (#[trigger] old(bodies)@[k]).valid(),
    ensures
        ok ==> collide_from_s(old(bodies)@, 0, old(bodies)@.len() as int) == Some(final(bodies)@),
        !ok ==> collide_from_s(old(bodies)@, 0, old(bodies)@.len() as int) is None,
{
    let n = bodies.len();
    let mut i: usize = 0;
    while i < n
        invariant
            n == bodies@.len(),
            n == old(bodies)@.len(),
            i <= n,
            collide_from_s(old(bodies)@, 0, n as int) == collide_from_s(
                bodies@,
                i as int,
                n as int,
            ),
            forall|k: int| 0 <= k < n ==> (#[trigger] bodies@[k]).valid(),
        decreases n - i,
    {
        let ghost row0 = bodies@;
        let mut j: usize = i + 1;
        while j < n
            invariant
                n == bodies@.len(),
                n == old(bodies)@.len(),
                i < n,
                i + 1 <= j <= n,
                collide_row_s(row0, i as int, i as int + 1, n as int) == collide_row_s(
                    bodies@,
                    i as int,
                    j as int,
                    n as int,
                ),
                collide_from_s(old(bodies)@, 0, n as int) == collide_from_s(
                    row0,
                    i as int,
                    n as int,
                ),
                forall|k: int| 0 <= k < n ==> (#[trigger] bodies@[k]).valid(),
            decreases n - j,
        {
            let ghost prev = bodies@;
            match bodies[i].calc_collision(&bodies[j]) {
                None => {
                    proof {
                        assert(collide_row_s(prev, i as int, j as int, n as int) is None);
                        assert(collide_from_s(row0, i as int, n as int) is None);
                    }
                    return false;
                },
                Some(vv) => {
                    let mut pa = bodies[i];
                    pa.vel = vv.0;
                    bodies[i] = pa;
                    let mut pb = bodies[j];
                    pb.vel = vv.1;
                    bodies[j] = pb;
                    proof {
                        assert(collide_pair_s(prev, i as int, j as int) == Some(bodies@));
                    }
                },
            }
            j += 1;
        }
        i += 1;
    }
    true
}

} // verus!
