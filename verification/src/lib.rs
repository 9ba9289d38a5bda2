//! A small geometric kernel for ray tracing: affine tuples (points and
//! vectors), 4x4 transform matrices, rays, unit spheres, intersection
//! resolution, and Phong lighting.
//!
//! Every scalar is a fixed-point number: an `i64` holding the value times
//! `SCALE`. All arithmetic is exact integer arithmetic with truncating
//! division, so every operation has a precise contract.

use vstd::prelude::*;

pub mod color;
pub mod fx;
pub mod lighting;
pub mod materials;
pub mod matrix;
pub mod ray;
pub mod shape;
pub mod space;
pub mod trig;
pub mod world;

verus! {

/// One unit, in raw fixed-point steps: a scalar `v: i64` stands for the
/// real value `v / SCALE`.
pub const SCALE: i64 = 100_000_000;

/// Comparison tolerance: 1e-5 units, in raw fixed-point steps.
pub const EPSILON: i64 = 1_000;

/// Two scalars are approximately equal when they differ by less than
/// `EPSILON` raw steps (1e-5 units).
pub fn approx_equal(a: i64, b: i64) -> (r: bool)
    ensures
        r == (vstd::math::abs(a - b) < EPSILON),
{
    let d: i128 = (a as i128) - (b as i128);
    let e: i128 = if d < 0 {
        -d
    } else {
        d
    };
    e < (EPSILON as i128)
}

} // verus!
