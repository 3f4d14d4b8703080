//! Three-component fixed-point vectors.

use crate::fixed::add_s;
use crate::fixed::fx_add;
use crate::fixed::fx_half;
use crate::fixed::fx_mul;
use crate::fixed::fx_sub;
use crate::fixed::half_s;
use crate::fixed::in128;
use crate::fixed::in64;
use crate::fixed::isqrt_u128;
use crate::fixed::mul_s;
use crate::fixed::sqrt_floor;
use crate::fixed::sub_s;
use crate::fixed::wide_mul;
use vstd::prelude::*;

verus! {

/// A 3-vector of fixed-point scalars.
#[derive(Clone, Copy, Debug, PartialEq, Eq, Structural)]
pub struct Vec3 {
    pub x: i64,
    pub y: i64,
    pub z: i64,
}

pub open spec fn zero3() -> Vec3 {
    Vec3 { x: 0, y: 0, z: 0 }
}

impl Vec3 {
    pub fn zero() -> (r: Vec3)
        ensures
            r == zero3(),
    {
        Vec3 { x: 0, y: 0, z: 0 }
    }
}

/// Component-wise checked addition.
pub open spec fn add3_s(a: Vec3, b: Vec3) -> Option<Vec3> {
    match (add_s(a.x, b.x), add_s(a.y, b.y), add_s(a.z, b.z)) {
        (Some(x), Some(y), Some(z)) => Some(Vec3 { x, y, z }),
        _ => None,
    }
}

pub fn add3(a: Vec3, b: Vec3) -> (r: Option<Vec3>)
    ensures
        r == add3_s(a, b),
{
    match (fx_add(a.x, b.x), fx_add(a.y, b.y), fx_add(a.z, b.z)) {
        (Some(x), Some(y), Some(z)) => Some(Vec3 { x, y, z }),
        _ => None,
    }
}

/// Component-wise checked subtraction.
pub open spec fn sub3_s(a: Vec3, b: Vec3) -> Option<Vec3> {
    match (sub_s(a.x, b.x), sub_s(a.y, b.y), sub_s(a.z, b.z)) {
        (Some(x), Some(y), Some(z)) => Some(Vec3 { x, y, z }),
        _ => None,
    }
}

pub fn sub3(a: Vec3, b: Vec3) -> (r: Option<Vec3>)
    ensures
        r == sub3_s(a, b),
{
    match (fx_sub(a.x, b.x), fx_sub(a.y, b.y), fx_sub(a.z, b.z)) {
        (Some(x), Some(y), Some(z)) => Some(Vec3 { x, y, z }),
        _ => None,
    }
}

/// Checked multiplication of every component by a fixed-point scalar.
pub open spec fn scale3_s(v: Vec3, k: i64) -> Option<Vec3> {
    match (mul_s(v.x, k), mul_s(v.y, k), mul_s(v.z, k)) {
        (Some(x), Some(y), Some(z)) => Some(Vec3 { x, y, z }),
        _ => None,
    }
}

pub fn scale3(v: Vec3, k: i64) -> (r: Option<Vec3>)
    ensures
        r == scale3_s(v, k),
{
    match (fx_mul(v.x, k), fx_mul(v.y, k), fx_mul(v.z, k)) {
        (Some(x), Some(y), Some(z)) => Some(Vec3 { x, y, z }),
        _ => None,
    }
}

/// Every component halved, truncated toward zero; always representable.
pub open spec fn half3_s(v: Vec3) -> Vec3 {
    Vec3 { x: half_s(v.x), y: half_s(v.y), z: half_s(v.z) }
}

pub fn half3(v: Vec3) -> (r: Vec3)
    ensures
        r == half3_s(v),
{
    Vec3 { x: fx_half(v.x), y: fx_half(v.y), z: fx_half(v.z) }
}

/// The exact squared Euclidean norm, in raw fixed-point units squared.
pub open spec fn normsq_s(v: Vec3) -> int {
    v.x * v.x + v.y * v.y + v.z * v.z
}

/// The exact dot product, when its partial sums fit in an `i128`.
pub open spec fn dot_s(a: Vec3, b: Vec3) -> Option<int> {
    let p1 = a.x * b.x;
    let p2 = a.y * b.y;
    let p3 = a.z * b.z;
    if !in128(p1 + p2) {
        None
    } else if !in128(p1 + p2 + p3) {
        None
    } else {
        Some(p1 + p2 + p3)
    }
}

pub fn dot3(a: Vec3, b: Vec3) -> (r: Option<i128>)
    ensures
        match r {
            Some(v) => dot_s(a, b) == Some(v as int),
            None => dot_s(a, b) is None,
        },
{
    let p1 = wide_mul(a.x, b.x);
    let p2 = wide_mul(a.y, b.y);
    let p3 = wide_mul(a.z, b.z);
    match p1.checked_add(p2) {
        None => None,
        Some(s1) => s1.checked_add(p3),
    }
}

pub fn norm_sq(v: Vec3) -> (r: u128)
    ensures
        r == normsq_s(v),
{
    proof {
        assert(0 <= v.x * v.x <= 0x4000_0000_0000_0000_0000_0000_0000_0000) by (nonlinear_arith)
            requires
                i64::MIN <= v.x <= i64::MAX,
        ;
        assert(0 <= v.y * v.y <= 0x4000_0000_0000_0000_0000_0000_0000_0000) by (nonlinear_arith)
            requires
                i64::MIN <= v.y <= i64::MAX,
        ;
        assert(0 <= v.z * v.z <= 0x4000_0000_0000_0000_0000_0000_0000_0000) by (nonlinear_arith)
            requires
                i64::MIN <= v.z <= i64::MAX,
        ;
    }
    let sx = wide_mul(v.x, v.x) as u128;
    let sy = wide_mul(v.y, v.y) as u128;
    let sz = wide_mul(v.z, v.z) as u128;
    sx + sy + sz
}

/// The Euclidean norm rounded down, in fixed-point units.
pub open spec fn mag_s(v: Vec3) -> int {
    sqrt_floor(normsq_s(v))
}

/// `None` exactly when the rounded-down norm exceeds `i64::MAX`.
pub fn magnitude(v: Vec3) -> (r: Option<i64>)
    ensures
        r == (if in64(mag_s(v)) {
            Some(mag_s(v) as i64)
        } else {
            None::<i64>
        }),
        mag_s(v) >= 0,
{
    let n = norm_sq(v);
    let s = isqrt_u128(n);
    if s <= i64::MAX as u128 {
        Some(s as i64)
    } else {
        None
    }
}

} // verus!
