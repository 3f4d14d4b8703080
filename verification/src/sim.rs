//! The simulation: a fixed-capacity ordered set of bodies, advanced one
//! transactional tick at a time.
//!
//! A tick integrates every body from the same committed state, then
//! resolves collisions pair by pair, and only then commits: if any value
//! leaves its range or two bodies come closer than `MIN_SEPARATION`, the
//! tick reports `NumericalInstability` and the committed state is left
//! exactly as it was.

use crate::accel::accel_sum_s;
use crate::collision::collide_from_s;
use crate::collision::lemma_collide_from_preserves;
use crate::collision::resolve_collisions;
use crate::fixed::lemma_sqrt_floor_is;
use crate::integrate::integrate_all;
use crate::integrate::integrate_s;
use crate::integrate::integrate_upto_s;
use crate::integrate::lemma_integrate_none;
use crate::integrate::lemma_integrate_upto_preserves;
use crate::planet::raw_of;
use crate::planet::Planet;
use crate::planet::RawPlanetData;
use crate::planet::Rgb;
use crate::seed::lemma_seed_none;
use crate::seed::lemma_seed_upto_preserves;
use crate::seed::seed_upto_s;
use crate::vec3::sub3_s;
use crate::vec3::zero3;
use crate::vec3::Vec3;
use vstd::prelude::*;

verus! {

/// What a failed operation reports.
///
/// `ConfigurationError`: a body was rejected at creation (mass not
/// positive, negative radius, or the capacity is full), or seeding was
/// asked for an impossible configuration. Existing state is unaffected.
///
/// `NumericalInstability`: a tick would have produced a value outside
/// the representable range, or two bodies came closer than
/// `MIN_SEPARATION`; the previously committed state is kept.
#[derive(Clone, Copy, Debug, PartialEq, Eq, Structural)]
pub enum SimError {
    ConfigurationError,
    NumericalInstability,
}

/// One whole tick over the committed state `bs`: every body integrated
/// from that state, then every unordered pair resolved in index order.
/// `None` is the tick that must not commit.
pub open spec fn tick_s(g: i64, bs: Seq<Planet>, dt: i64) -> Option<Seq<Planet>> {
    match integrate_upto_s(g, bs, dt, bs.len() as int) {
        None => None,
        Some(b1) => collide_from_s(b1, 0, bs.len() as int),
    }
}

/// The simulation core: a gravitational constant, a fixed capacity, and
/// the bodies in creation order. Index 0 is conventionally the primary.
pub struct Simulation {
    g: i64,
    capacity: usize,
    bodies: Vec<Planet>,
}

impl Simulation {
    /// The configured gravitational constant, a fixed-point scalar.
    pub closed spec fn g_spec(self) -> i64 {
        self.g
    }

    /// The fixed capacity set at construction.
    pub closed spec fn capacity_spec(self) -> int {
        self.capacity as int
    }

    /// The committed bodies, in creation order.
    pub closed spec fn bodies_spec(self) -> Seq<Planet> {
        self.bodies@
    }

    /// The state invariant: never more bodies than the capacity, and
    /// every body with positive mass and non-negative radius.
    pub open spec fn wf(self) -> bool {
        &&& self.bodies_spec().len() <= self.capacity_spec()
        &&& forall|i: int|
            0 <= i < self.bodies_spec().len() ==> (#[trigger] self.bodies_spec()[i]).valid()
    }

    /// An empty simulation with the given gravitational constant and
    /// body capacity.
    pub fn new(g: i64, capacity: usize) -> (s: Simulation)
        ensures
            s.wf(),
            s.g_spec() == g,
            s.capacity_spec() == capacity,
            s.bodies_spec() == Seq::<Planet>::empty(),
    {
        let s = Simulation { g, capacity, bodies: Vec::new() };
        proof {
            assert(s.bodies@ =~= Seq::<Planet>::empty());
        }
        s
    }

    /// A simulation over an already-built batch of bodies, velocities
    /// included. Accepted exactly when the batch fits the capacity and
    /// every body is physically admissible; rejected batches build
    /// nothing.
    pub fn from_bodies(g: i64, capacity: usize, bodies: Vec<Planet>) -> (r: Result<
        Simulation,
        SimError,
    >)
        ensures
            r is Ok <==> (bodies@.len() <= capacity && forall|i: int|
                0 <= i < bodies@.len() ==> (#[trigger] bodies@[i]).valid()),
            match r {
                Ok(s) => s.wf() && s.g_spec() == g && s.capacity_spec() == capacity
                    && s.bodies_spec() == bodies@,
                Err(e) => e == SimError::ConfigurationError,
            },
    {
        let n = bodies.len();
        if n > capacity {
            return Err(SimError::ConfigurationError);
        }
        let mut i: usize = 0;
        while i < n
            invariant
                n == bodies@.len(),
                i <= n,
                forall|k: int| 0 <= k < i ==> (#[trigger] bodies@[k]).valid(),
            decreases n - i,
        {
            if !(bodies[i].mass > 0 && bodies[i].radius >= 0) {
                return Err(SimError::ConfigurationError);
            }
            i += 1;
        }
        Ok(Simulation { g, capacity, bodies })
    }

    /// How many bodies have been created.
    pub fn len(&self) -> (n: usize)
        ensures
            n == self.bodies_spec().len(),
    {
        self.bodies.len()
    }

    /// The configured gravitational constant.
    pub fn gravity(&self) -> (g: i64)
        ensures
            g == self.g_spec(),
    {
        self.g
    }

    /// The fixed body capacity.
    pub fn capacity(&self) -> (c: usize)
        ensures
            c == self.capacity_spec(),
    {
        self.capacity
    }

    /// The body at index `i`.
    pub fn get_body(&self, i: usize) -> (p: Planet)
        requires
            i < self.bodies_spec().len(),
        ensures
            p == self.bodies_spec()[i as int],
    {
        self.bodies[i]
    }

    /// Creates a body at rest and appends it. Rejected, with the
    /// committed state untouched, exactly when the mass is not
    /// positive, the radius is negative, or the capacity is full.
    pub fn create_body(&mut self, mass: i64, pos: Vec3, radius: i64, color: Rgb) -> (r: Result<
        usize,
        SimError,
    >)
        requires
            old(self).wf(),
        ensures
            final(self).wf(),
            final(self).g_spec() == old(self).g_spec(),
            final(self).capacity_spec() == old(self).capacity_spec(),
            ({
                let reject = mass <= 0 || radius < 0 || old(self).bodies_spec().len() >= old(
                    self,
                ).capacity_spec();
                &&& reject ==> r == Err::<usize, SimError>(SimError::ConfigurationError)
                    && final(self).bodies_spec() == old(self).bodies_spec()
                &&& !reject ==> r == Ok::<usize, SimError>(
                    old(self).bodies_spec().len() as usize,
                ) && final(self).bodies_spec() == old(self).bodies_spec().push(
                    Planet { mass, pos, vel: zero3(), radius, color },
                )
            }),
    {
        if mass <= 0 || radius < 0 || self.bodies.len() >= self.capacity {
            return Err(SimError::ConfigurationError);
        }
        let idx = self.bodies.len();
        self.bodies.push(Planet { mass, pos, vel: Vec3::zero(), radius, color });
        Ok(idx)
    }

    /// Replaces every non-primary body's velocity outright with its
    /// circular-orbit seed around the body at `primary`, all computed
    /// from the common committed positions. Transactional: on
    /// `ConfigurationError` (primary out of range, or some body could
    /// not be seeded) nothing changes. Masses, positions, radii,
    /// colours and the primary's velocity are never touched.
    pub fn seed_initial_velocities(&mut self, primary: usize) -> (r: Result<(), SimError>)
        requires
            old(self).wf(),
        ensures
            final(self).wf(),
            final(self).g_spec() == old(self).g_spec(),
            final(self).capacity_spec() == old(self).capacity_spec(),
            final(self).bodies_spec().len() == old(self).bodies_spec().len(),
            primary >= old(self).bodies_spec().len() ==> r == Err::<(), SimError>(
                SimError::ConfigurationError,
            ) && final(self).bodies_spec() == old(self).bodies_spec(),
            primary < old(self).bodies_spec().len() ==> match seed_upto_s(
                old(self).g_spec(),
                old(self).bodies_spec(),
                primary as int,
                old(self).bodies_spec().len() as int,
            ) {
                Some(s) => r == Ok::<(), SimError>(()) && final(self).bodies_spec() == s,
                None => r == Err::<(), SimError>(SimError::ConfigurationError)
                    && final(self).bodies_spec() == old(self).bodies_spec(),
            },
            forall|k: int|
                #![trigger final(self).bodies_spec()[k]]
                0 <= k < old(self).bodies_spec().len() ==> final(self).bodies_spec()[k].mass == old(
                    self,
                ).bodies_spec()[k].mass && final(self).bodies_spec()[k].pos == old(
                    self,
                ).bodies_spec()[k].pos && final(self).bodies_spec()[k].radius == old(
                    self,
                ).bodies_spec()[k].radius && final(self).bodies_spec()[k].color == old(
                    self,
                ).bodies_spec()[k].color,
            primary < old(self).bodies_spec().len() ==> final(self).bodies_spec()[primary as int]
                == old(self).bodies_spec()[primary as int],
    {
        let n = self.bodies.len();
        if primary >= n {
            return Err(SimError::ConfigurationError);
        }
        let mut out: Vec<Planet> = Vec::new();
        let mut i: usize = 0;
        while i < n
            invariant
                *self == *old(self),
                old(self).wf(),
                n == self.bodies@.len(),
                primary < n,
                i <= n,
                seed_upto_s(self.g, self.bodies@, primary as int, i as int) == Some(out@),
            decreases n - i,
        {
            if i == primary {
                out.push(self.bodies[i]);
            } else {
                match self.bodies[i].set_init_velocity(self.g, &self.bodies, i, primary) {
                    None => {
                        proof {
                            lemma_seed_none(
                                self.g,
                                self.bodies@,
                                primary as int,
                                i as int + 1,
                                n as int,
                            );
                        }
                        return Err(SimError::ConfigurationError);
                    },
                    Some(p) => {
                        out.push(p);
                    },
                }
            }
            i += 1;
        }
        proof {
            lemma_seed_upto_preserves(self.g, self.bodies@, primary as int, n as int);
        }
        self.bodies = out;
        Ok(())
    }

    /// One transactional tick of length `dt`.
    ///
    /// On `Ok`, the committed state is exactly the tick of the previous
    /// state: integration of every body from the common previous
    /// positions, then pairwise collision resolution. On
    /// `NumericalInstability` — some value left its range or some
    /// separation fell below `MIN_SEPARATION` — nothing changes.
    ///
    /// Whatever the outcome, every body keeps its mass, radius and
    /// colour; a tick over zero bodies always succeeds; and a state
    /// holding two bodies at exactly the same position never commits.
    pub fn step(&mut self, dt: i64) -> (r: Result<(), SimError>)
        requires
            old(self).wf(),
            dt >= 0,
        ensures
            final(self).wf(),
            final(self).g_spec() == old(self).g_spec(),
            final(self).capacity_spec() == old(self).capacity_spec(),
            final(self).bodies_spec().len() == old(self).bodies_spec().len(),
            r is Ok <==> tick_s(old(self).g_spec(), old(self).bodies_spec(), dt) is Some,
            r is Ok ==> tick_s(old(self).g_spec(), old(self).bodies_spec(), dt) == Some(
                final(self).bodies_spec(),
            ),
            r is Err ==> r == Err::<(), SimError>(SimError::NumericalInstability)
                && final(self).bodies_spec() == old(self).bodies_spec(),
            forall|k: int|
                #![trigger final(self).bodies_spec()[k]]
                0 <= k < old(self).bodies_spec().len() ==> final(self).bodies_spec()[k].mass == old(
                    self,
                ).bodies_spec()[k].mass && final(self).bodies_spec()[k].radius == old(
                    self,
                ).bodies_spec()[k].radius && final(self).bodies_spec()[k].color == old(
                    self,
                ).bodies_spec()[k].color,
            old(self).bodies_spec().len() == 0 ==> r is Ok,
            (exists|i: int, j: int|
                0 <= i < old(self).bodies_spec().len() && 0 <= j < old(self).bodies_spec().len()
                    && i != j && old(self).bodies_spec()[i].pos == old(self).bodies_spec()[j].pos)
                ==> r is Err,
    {
        let ghost bs0 = self.bodies@;
        let ghost n0 = self.bodies@.len() as int;
        match integrate_all(self.g, &self.bodies, dt) {
            None => {
                proof {
                    lemma_no_coincident_if_integrated(self.g, bs0, dt);
                }
                Err(SimError::NumericalInstability)
            },
            Some(mut scratch) => {
                proof {
                    lemma_integrate_upto_preserves(self.g, bs0, dt, n0);
                    assert forall|k: int| 0 <= k < scratch@.len() implies (
                    #[trigger] scratch@[k]).valid() by {
                        assert(scratch@[k].mass == bs0[k].mass && scratch@[k].radius
                            == bs0[k].radius);
                    }
                }
                let ok = resolve_collisions(&mut scratch);
                if ok {
                    proof {
                        lemma_collide_from_preserves(
                            integrate_upto_s(self.g, bs0, dt, n0).unwrap(),
                            0,
                            n0,
                        );
                        lemma_no_coincident_if_integrated(self.g, bs0, dt);
                    }
                    self.bodies = scratch;
                    Ok(())
                } else {
                    proof {
                        lemma_no_coincident_if_integrated(self.g, bs0, dt);
                    }
                    Err(SimError::NumericalInstability)
                }
            },
        }
    }

    /// The renderer-facing snapshot: for every body, in index order,
    /// its position and display attributes — never mass or velocity.
    /// Read-only; identical between ticks.
    pub fn snapshot(&self) -> (r: Vec<RawPlanetData>)
        ensures
            r@.len() == self.bodies_spec().len(),
            forall|k: int|
                0 <= k < self.bodies_spec().len() ==> #[trigger] r@[k] == raw_of(
                    self.bodies_spec()[k],
                ),
    {
        let n = self.bodies.len();
        let mut out: Vec<RawPlanetData> = Vec::new();
        let mut i: usize = 0;
        while i < n
            invariant
                n == self.bodies@.len(),
                i <= n,
                out@.len() == i,
                forall|k: int| 0 <= k < i ==> #[trigger] out@[k] == raw_of(self.bodies@[k]),
            decreases n - i,
        {
            out.push(self.bodies[i].to_raw_data());
            i += 1;
        }
        out
    }
}

/// A sum over bodies that includes a body coincident with the target
/// position fails: the separation is zero, below `MIN_SEPARATION`.
proof fn lemma_accel_sum_coincident(
    g: i64,
    pos: Vec3,
    bs: Seq<Planet>,
    skip: int,
    j: int,
    upto: int,
)
    requires
        0 <= j < upto,
        j != skip,
        bs[j].pos == pos,
    ensures
        accel_sum_s(g, pos, bs, skip, upto) is None,
    decreases upto,
{
    if upto == j + 1 {
        if accel_sum_s(g, pos, bs, skip, j) is Some {
            assert(sub3_s(bs[j].pos, pos) == Some(zero3()));
            lemma_sqrt_floor_is(0, 0);
        }
    } else {
        lemma_accel_sum_coincident(g, pos, bs, skip, j, upto - 1);
    }
}

/// If two distinct bodies sit at exactly the same position, the
/// integration pass — and with it the whole tick — fails.
proof fn lemma_coincident_unstable(g: i64, bs: Seq<Planet>, dt: i64, i: int, j: int)
    requires
        0 <= i < bs.len(),
        0 <= j < bs.len(),
        i != j,
        bs[i].pos == bs[j].pos,
    ensures
        integrate_upto_s(g, bs, dt, bs.len() as int) is None,
{
    lemma_accel_sum_coincident(g, bs[i].pos, bs, i, j, bs.len() as int);
    assert(integrate_s(g, bs[i], bs, i, dt) is None);
    assert(integrate_upto_s(g, bs, dt, i + 1) is None);
    lemma_integrate_none(g, bs, dt, i + 1, bs.len() as int);
}

/// Contrapositive wrapper: whenever the integration pass succeeded, no
/// two distinct bodies coincided.
proof fn lemma_no_coincident_if_integrated(g: i64, bs: Seq<Planet>, dt: i64)
    ensures
        (exists|i: int, j: int|
            0 <= i < bs.len() && 0 <= j < bs.len() && i != j && bs[i].pos == bs[j].pos)
            ==> integrate_upto_s(g, bs, dt, bs.len() as int) is None,
{
    if exists|i: int, j: int|
        0 <= i < bs.len() && 0 <= j < bs.len() && i != j && bs[i].pos == bs[j].pos {
        let (i, j) = choose|i: int, j: int|
            0 <= i < bs.len() && 0 <= j < bs.len() && i != j && bs[i].pos == bs[j].pos;
        lemma_coincident_unstable(g, bs, dt, i, j);
    }
}

} // verus!
