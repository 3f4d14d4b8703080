//! Fixed-point scalar arithmetic.
//!
//! A scalar is an `i64` counting units of `1 / SCALE`. Products and
//! quotients are computed exactly in `i128` and narrowed back; every
//! operation that could leave the `i64` range reports the failure through
//! an `Option`, which the simulation surfaces as a numerical instability.
//! Division truncates toward zero, like Rust's integer division.

use vstd::arithmetic::div_mod::lemma_div_nonincreasing;
use vstd::arithmetic::div_mod::lemma_div_pos_is_pos;
use vstd::prelude::*;

verus! {

/// Number of fixed-point units per whole distance / mass / time unit.
pub const SCALE: i64 = 1_000_000;

/// Separations below this many fixed-point units (10^-3 of a distance
/// unit) make the gravitational formula diverge; the tick reports a
/// numerical instability instead of dividing by them.
pub const MIN_SEPARATION: i64 = 1_000;

/// The value fits in an `i64`.
pub open spec fn in64(x: int) -> bool {
    i64::MIN <= x <= i64::MAX
}

/// The value fits in an `i128`.
pub open spec fn in128(x: int) -> bool {
    i128::MIN <= x <= i128::MAX
}

/// Integer division truncated toward zero (the rounding of Rust's `/`),
/// written over the Euclidean `/` on non-negative operands.
/// Meaningful only for `d != 0`.
pub open spec fn div_t(x: int, d: int) -> int {
    if x == 0 {
        0
    } else if x > 0 && d > 0 {
        x / d
    } else if x < 0 && d < 0 {
        (x * -1) / (d * -1)
    } else if x < 0 {
        ((x * -1) / d) * -1
    } else {
        (x / (d * -1)) * -1
    }
}

/// The square root of `x`, rounded down: the unique `r >= 0` with
/// `r * r <= x < (r + 1) * (r + 1)`. Arbitrary for `x < 0`.
pub closed spec fn sqrt_floor(x: int) -> int {
    choose|r: int| 0 <= r && #[trigger] (r * r) <= x && x < (r + 1) * (r + 1)
}

/// A value `r` that brackets `x` between consecutive squares is the
/// rounded-down square root of `x`.
pub proof fn lemma_sqrt_floor_is(x: int, r: int)
    requires
        0 <= r,
        r * r <= x,
        x < (r + 1) * (r + 1),
    ensures
        sqrt_floor(x) == r,
{
    let s = sqrt_floor(x);
    assert(0 <= s && s * s <= x && x < (s + 1) * (s + 1));
    assert(s == r) by (nonlinear_arith)
        requires
            0 <= r,
            r * r <= x,
            x < (r + 1) * (r + 1),
            0 <= s,
            s * s <= x,
            x < (s + 1) * (s + 1),
    ;
}

/// Truncated division by a positive divisor never grows the magnitude.
pub proof fn lemma_div_t_bound(x: int, d: int)
    requires
        1 <= d,
    ensures
        x >= 0 ==> 0 <= div_t(x, d) <= x,
        x < 0 ==> x <= div_t(x, d) <= 0,
{
    if x > 0 {
        lemma_div_pos_is_pos(x, d);
        lemma_div_nonincreasing(x, d);
    } else if x < 0 {
        lemma_div_pos_is_pos(x * -1, d);
        lemma_div_nonincreasing(x * -1, d);
    }
}

/// The exact product of two `i64` values, in `i128`.
pub fn wide_mul(a: i64, b: i64) -> (r: i128)
    ensures
        r == a * b,
{
    proof {
        assert(in128(a * b)) by (nonlinear_arith)
            requires
                i64::MIN <= a <= i64::MAX,
                i64::MIN <= b <= i64::MAX,
        ;
    }
    (a as i128) * (b as i128)
}

/// Truncated division of an `i128` by a positive divisor.
pub fn div_i128(x: i128, d: i128) -> (r: i128)
    requires
        d > 0,
    ensures
        r == div_t(x as int, d as int),
{
    proof {
        lemma_div_t_bound(x as int, d as int);
    }
    match x.checked_div(d) {
        Some(q) => q,
        None => {
            proof {
                assert(false);
            }
            0
        },
    }
}

/// Narrows an exact `i128` value to `i64`; `None` when it does not fit.
pub fn narrow64(x: i128) -> (r: Option<i64>)
    ensures
        r == (if in64(x as int) {
            Some(x as i64)
        } else {
            None::<i64>
        }),
{
    if x >= i64::MIN as i128 && x <= i64::MAX as i128 {
        Some(x as i64)
    } else {
        None
    }
}

/// Checked fixed-point addition.
pub open spec fn add_s(a: i64, b: i64) -> Option<i64> {
    if in64(a + b) {
        Some((a + b) as i64)
    } else {
        None
    }
}

pub fn fx_add(a: i64, b: i64) -> (r: Option<i64>)
    ensures
        r == add_s(a, b),
{
    a.checked_add(b)
}

/// Checked fixed-point subtraction.
pub open spec fn sub_s(a: i64, b: i64) -> Option<i64> {
    if in64(a - b) {
        Some((a - b) as i64)
    } else {
        None
    }
}

pub fn fx_sub(a: i64, b: i64) -> (r: Option<i64>)
    ensures
        r == sub_s(a, b),
{
    a.checked_sub(b)
}

/// Checked negation; only `i64::MIN` has no negation.
pub open spec fn neg_s(a: i64) -> Option<i64> {
    if in64(-a) {
        Some((-a) as i64)
    } else {
        None
    }
}

pub fn fx_neg(a: i64) -> (r: Option<i64>)
    ensures
        r == neg_s(a),
{
    if a == i64::MIN {
        None
    } else {
        Some(-a)
    }
}

/// Checked fixed-point multiplication: `(a * b) / SCALE`, truncated.
pub open spec fn mul_s(a: i64, b: i64) -> Option<i64> {
    let v = div_t(a * b, SCALE as int);
    if in64(v) {
        Some(v as i64)
    } else {
        None
    }
}

pub fn fx_mul(a: i64, b: i64) -> (r: Option<i64>)
    ensures
        r == mul_s(a, b),
{
    let p = wide_mul(a, b);
    let q = div_i128(p, SCALE as i128);
    narrow64(q)
}

/// Checked fixed-point division: `(a * SCALE) / b`, truncated.
/// `None` when `b` is zero or the quotient leaves the `i64` range.
pub open spec fn div_s(a: i64, b: i64) -> Option<i64> {
    if b == 0 {
        None
    } else {
        let v = div_t(a * SCALE, b as int);
        if in64(v) {
            Some(v as i64)
        } else {
            None
        }
    }
}

pub fn fx_div(a: i64, b: i64) -> (r: Option<i64>)
    ensures
        r == div_s(a, b),
{
    if b == 0 {
        return None;
    }
    let p = wide_mul(a, SCALE);
    if b > 0 {
        narrow64(div_i128(p, b as i128))
    } else {
        proof {
            lemma_div_t_bound(p as int, -(b as int));
            assert(div_t(p as int, b as int) == -div_t(p as int, -(b as int)));
        }
        let q = div_i128(p, -(b as i128));
        narrow64(-q)
    }
}

/// Halving, truncated toward zero; always representable.
pub open spec fn half_s(a: i64) -> i64 {
    div_t(a as int, 2) as i64
}

pub fn fx_half(a: i64) -> (r: i64)
    ensures
        r == half_s(a),
{
    proof {
        lemma_div_t_bound(a as int, 2);
    }
    let q = div_i128(a as i128, 2);
    q as i64
}

/// The square root of `x`, rounded down, computed by bisection.
pub fn isqrt_u128(x: u128) -> (r: u128)
    ensures
        r * r <= x < (r + 1) * (r + 1),
        r == sqrt_floor(x as int),
{
    let mut lo: u128 = 0;
    let mut hi: u128 = 0x1_0000_0000_0000_0000;
    proof {
        assert(hi * hi > u128::MAX) by (nonlinear_arith)
            requires
                hi == 0x1_0000_0000_0000_0000,
        ;
    }
    while lo + 1 < hi
        invariant
            lo < hi,
            hi <= 0x1_0000_0000_0000_0000,
            lo * lo <= x,
            hi * hi > x,
        decreases hi - lo,
    {
        let mid: u128 = lo + (hi - lo) / 2;
        assert(lo < mid < hi);
        match mid.checked_mul(mid) {
            Some(sq) => {
                if sq <= x {
                    lo = mid;
                } else {
                    hi = mid;
                }
            },
            None => {
                hi = mid;
            },
        }
    }
    proof {
        assert(hi == lo + 1);
        lemma_sqrt_floor_is(x as int, lo as int);
    }
    lo
}

} // verus!
