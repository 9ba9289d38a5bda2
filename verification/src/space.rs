//! Points, vectors, and the affine tuples beneath them.
//!
//! A tuple holds four fixed-point components; `w` is one unit for a point
//! and zero for a vector, and every operation's contract states exactly
//! which components come out.

use vstd::prelude::*;

verus! {

use crate::{EPSILON, SCALE};
use crate::fx::{
    div_fx,
    div_ok,
    div_trunc,
    fx_div,
    fx_mul,
    is_sqrt,
    isqrt_u128,
    lemma_div_trunc_bound,
    lemma_mul_bounds,
    lemma_sqrt_unique,
    mul_fx,
    mul_ok,
    sqrt_floor,
};

/// Component cap under which a four-term dot product cannot overflow.
pub const DOT_LIMIT: i64 = 15_000_000_000_000;

/// Component cap under which a reflection cannot overflow.
pub const REFL_LIMIT: i64 = 200_000_000_000;

/// Component cap under which a four-term sum of squares fits in 128 bits
/// and its square root in a scalar.
pub const MAG_LIMIT: i64 = 2_000_000_000_000_000_000;

/// A value representable as a scalar.
pub open spec fn fits(v: int) -> bool {
    i64::MIN <= v <= i64::MAX
}

/// A four-component affine coordinate; `w` is one unit for points and
/// zero for vectors.
#[derive(Clone, Copy, Debug, PartialEq, Eq, Structural)]
pub struct Tuple {
    pub x: i64,
    pub y: i64,
    pub z: i64,
    pub w: i64,
}

/// Every component within `c` of zero.
pub open spec fn tuple_bounded(t: Tuple, c: int) -> bool {
    &&& -c <= t.x <= c
    &&& -c <= t.y <= c
    &&& -c <= t.z <= c
    &&& -c <= t.w <= c
}

/// Componentwise sums representable.
pub open spec fn add_fits(a: Tuple, b: Tuple) -> bool {
    &&& fits(a.x + b.x)
    &&& fits(a.y + b.y)
    &&& fits(a.z + b.z)
    &&& fits(a.w + b.w)
}

/// Componentwise differences representable.
pub open spec fn sub_fits(a: Tuple, b: Tuple) -> bool {
    &&& fits(a.x - b.x)
    &&& fits(a.y - b.y)
    &&& fits(a.z - b.z)
    &&& fits(a.w - b.w)
}

/// Componentwise scalar products representable after rescaling.
pub open spec fn scale_ok(a: Tuple, s: int) -> bool {
    &&& mul_ok(a.x as int, s)
    &&& mul_ok(a.y as int, s)
    &&& mul_ok(a.z as int, s)
    &&& mul_ok(a.w as int, s)
}

/// The fixed-point dot product of two tuples, over all four components.
pub open spec fn dot_fx(a: Tuple, b: Tuple) -> int {
    mul_fx(a.x as int, b.x as int) + mul_fx(a.y as int, b.y as int) + mul_fx(
        a.z as int,
        b.z as int,
    ) + mul_fx(a.w as int, b.w as int)
}


/// The componentwise sum, as a value.
pub open spec fn spec_add(a: Tuple, b: Tuple) -> Tuple {
    Tuple { x: (a.x + b.x) as i64, y: (a.y + b.y) as i64, z: (a.z + b.z) as i64, w: (a.w + b.w) as i64 }
}

/// The componentwise difference, as a value.
pub open spec fn spec_sub(a: Tuple, b: Tuple) -> Tuple {
    Tuple { x: (a.x - b.x) as i64, y: (a.y - b.y) as i64, z: (a.z - b.z) as i64, w: (a.w - b.w) as i64 }
}

/// The componentwise scalar product, as a value.
pub open spec fn spec_scale(a: Tuple, s: int) -> Tuple {
    Tuple {
        x: mul_fx(a.x as int, s) as i64,
        y: mul_fx(a.y as int, s) as i64,
        z: mul_fx(a.z as int, s) as i64,
        w: mul_fx(a.w as int, s) as i64,
    }
}

/// The raw sum of squared components (at twice the scale).
pub open spec fn mag_sq(t: Tuple) -> int {
    (t.x as int) * (t.x as int) + (t.y as int) * (t.y as int) + (t.z as int) * (t.z as int) + (
    t.w as int) * (t.w as int)
}

impl Tuple {
    /// A tuple from its four raw components.
    pub fn new(x: i64, y: i64, z: i64, w: i64) -> (r: Tuple)
        ensures
            r.x == x,
            r.y == y,
            r.z == z,
            r.w == w,
    {
        Tuple { x, y, z, w }
    }

    /// A point: `w` is one unit.
    pub fn point(x: i64, y: i64, z: i64) -> (r: Point)
        ensures
            r.0.x == x,
            r.0.y == y,
            r.0.z == z,
            r.0.w == SCALE,
    {
        Point::new(x, y, z)
    }

    /// A vector: `w` is zero.
    pub fn vector(x: i64, y: i64, z: i64) -> (r: Vector)
        ensures
            r.0.x == x,
            r.0.y == y,
            r.0.z == z,
            r.0.w == 0,
    {
        Vector::new(x, y, z)
    }

    /// The first component.
    pub fn x(&self) -> (r: i64)
        ensures
            r == self.x,
    {
        self.x
    }

    /// The second component.
    pub fn y(&self) -> (r: i64)
        ensures
            r == self.y,
    {
        self.y
    }

    /// The third component.
    pub fn z(&self) -> (r: i64)
        ensures
            r == self.z,
    {
        self.z
    }

    /// The fourth component.
    pub fn w(&self) -> (r: i64)
        ensures
            r == self.w,
    {
        self.w
    }

    /// The component at `index`, counting x, y, z, w.
    pub fn get(&self, index: usize) -> (r: i64)
        requires
            index < 4,
        ensures
            index == 0 ==> r == self.x,
            index == 1 ==> r == self.y,
            index == 2 ==> r == self.z,
            index == 3 ==> r == self.w,
    {
        match index {
            0 => self.x,
            1 => self.y,
            2 => self.z,
            _ => self.w,
        }
    }

    /// Whether `w` is one unit, within tolerance.
    pub fn is_point(&self) -> (r: bool)
        ensures
            r == (vstd::math::abs(self.w - SCALE) < EPSILON),
    {
        crate::approx_equal(self.w, SCALE)
    }

    /// Whether `w` is zero, within tolerance.
    pub fn is_vector(&self) -> (r: bool)
        ensures
            r == (vstd::math::abs(self.w as int) < EPSILON),
    {
        crate::approx_equal(self.w, 0)
    }

    /// Componentwise equality within `EPSILON`.
    pub fn approx_eq(&self, other: &Tuple) -> (r: bool)
        ensures
            r == {
                &&& vstd::math::abs(self.x - other.x) < EPSILON
                &&& vstd::math::abs(self.y - other.y) < EPSILON
                &&& vstd::math::abs(self.z - other.z) < EPSILON
                &&& vstd::math::abs(self.w - other.w) < EPSILON
            },
    {
        crate::approx_equal(self.x, other.x) && crate::approx_equal(self.y, other.y)
            && crate::approx_equal(self.z, other.z) && crate::approx_equal(self.w, other.w)
    }

    /// Componentwise sum.
    pub fn plus(&self, rhs: &Tuple) -> (r: Tuple)
        requires
            add_fits(*self, *rhs),
        ensures
            r.x == self.x + rhs.x,
            r.y == self.y + rhs.y,
            r.z == self.z + rhs.z,
            r.w == self.w + rhs.w,
    {
        Tuple { x: self.x + rhs.x, y: self.y + rhs.y, z: self.z + rhs.z, w: self.w + rhs.w }
    }

    /// Componentwise difference.
    pub fn minus(&self, rhs: &Tuple) -> (r: Tuple)
        requires
            sub_fits(*self, *rhs),
        ensures
            r.x == self.x - rhs.x,
            r.y == self.y - rhs.y,
            r.z == self.z - rhs.z,
            r.w == self.w - rhs.w,
    {
        Tuple { x: self.x - rhs.x, y: self.y - rhs.y, z: self.z - rhs.z, w: self.w - rhs.w }
    }

    /// Componentwise negation.
    pub fn negate(&self) -> (r: Tuple)
        requires
            self.x != i64::MIN,
            self.y != i64::MIN,
            self.z != i64::MIN,
            self.w != i64::MIN,
        ensures
            r.x == -self.x,
            r.y == -self.y,
            r.z == -self.z,
            r.w == -self.w,
    {
        Tuple { x: -self.x, y: -self.y, z: -self.z, w: -self.w }
    }

    /// Componentwise product with a scalar.
    pub fn times(&self, s: i64) -> (r: Tuple)
        requires
            scale_ok(*self, s as int),
        ensures
            r.x == mul_fx(self.x as int, s as int),
            r.y == mul_fx(self.y as int, s as int),
            r.z == mul_fx(self.z as int, s as int),
            r.w == mul_fx(self.w as int, s as int),
    {
        Tuple {
            x: fx_mul(self.x, s),
            y: fx_mul(self.y, s),
            z: fx_mul(self.z, s),
            w: fx_mul(self.w, s),
        }
    }

    /// This tuple moved by `(x, y, z)`, through the translation matrix.
    pub fn translate(&self, x: i64, y: i64, z: i64) -> (r: Tuple)
        requires
            tuple_bounded(*self, crate::matrix::MUL_LIMIT as int),
            -crate::matrix::MUL_LIMIT <= x <= crate::matrix::MUL_LIMIT,
            -crate::matrix::MUL_LIMIT <= y <= crate::matrix::MUL_LIMIT,
            -crate::matrix::MUL_LIMIT <= z <= crate::matrix::MUL_LIMIT,
        ensures
            r == translate_fx(*self, x as int, y as int, z as int),
    {
        let m = crate::matrix::Matrix::translation(x, y, z);
        let out = m.times_tuple(self);
        proof {
            lemma_unit_zero_products(*self);
        }
        out
    }

    /// This tuple scaled by `(x, y, z)`, through the scaling matrix.
    pub fn scale(&self, x: i64, y: i64, z: i64) -> (r: Tuple)
        requires
            tuple_bounded(*self, crate::matrix::MUL_LIMIT as int),
            -crate::matrix::MUL_LIMIT <= x <= crate::matrix::MUL_LIMIT,
            -crate::matrix::MUL_LIMIT <= y <= crate::matrix::MUL_LIMIT,
            -crate::matrix::MUL_LIMIT <= z <= crate::matrix::MUL_LIMIT,
        ensures
            r == scale_fx(*self, x as int, y as int, z as int),
    {
        let m = crate::matrix::Matrix::scaling(x, y, z);
        let out = m.times_tuple(self);
        proof {
            lemma_unit_zero_products(*self);
        }
        out
    }

    /// This tuple sheared, through the shearing matrix.
    pub fn shear(&self, xy: i64, xz: i64, yx: i64, yz: i64, zx: i64, zy: i64) -> (r: Tuple)
        requires
            tuple_bounded(*self, crate::matrix::MUL_LIMIT as int),
            -crate::matrix::MUL_LIMIT <= xy <= crate::matrix::MUL_LIMIT,
            -crate::matrix::MUL_LIMIT <= xz <= crate::matrix::MUL_LIMIT,
            -crate::matrix::MUL_LIMIT <= yx <= crate::matrix::MUL_LIMIT,
            -crate::matrix::MUL_LIMIT <= yz <= crate::matrix::MUL_LIMIT,
            -crate::matrix::MUL_LIMIT <= zx <= crate::matrix::MUL_LIMIT,
            -crate::matrix::MUL_LIMIT <= zy <= crate::matrix::MUL_LIMIT,
        ensures
            r == shear_fx(
                *self,
                xy as int,
                xz as int,
                yx as int,
                yz as int,
                zx as int,
                zy as int,
            ),
    {
        let m = crate::matrix::Matrix::shearing(xy, xz, yx, yz, zx, zy);
        let out = m.times_tuple(self);
        proof {
            lemma_unit_zero_products(*self);
        }
        out
    }

    /// This tuple rotated about the x axis by `radians`.
    pub fn rotate_x(&self, radians: i64) -> (r: Tuple)
        requires
            tuple_bounded(*self, crate::matrix::MUL_LIMIT as int),
            -crate::trig::ANGLE_LIMIT <= radians <= crate::trig::ANGLE_LIMIT,
        ensures
            r == rotate_x_fx(
                *self,
                crate::trig::cos_fx(radians as int),
                crate::trig::sin_fx(radians as int),
            ),
    {
        let m = crate::matrix::Matrix::rotation_x(radians);
        let out = m.times_tuple(self);
        proof {
            lemma_unit_zero_products(*self);
        }
        out
    }

    /// This tuple rotated about the y axis by `radians`.
    pub fn rotate_y(&self, radians: i64) -> (r: Tuple)
        requires
            tuple_bounded(*self, crate::matrix::MUL_LIMIT as int),
            -crate::trig::ANGLE_LIMIT <= radians <= crate::trig::ANGLE_LIMIT,
        ensures
            r == rotate_y_fx(
                *self,
                crate::trig::cos_fx(radians as int),
                crate::trig::sin_fx(radians as int),
            ),
    {
        let m = crate::matrix::Matrix::rotation_y(radians);
        let out = m.times_tuple(self);
        proof {
            lemma_unit_zero_products(*self);
        }
        out
    }

    /// This tuple rotated about the z axis by `radians`.
    pub fn rotate_z(&self, radians: i64) -> (r: Tuple)
        requires
            tuple_bounded(*self, crate::matrix::MUL_LIMIT as int),
            -crate::trig::ANGLE_LIMIT <= radians <= crate::trig::ANGLE_LIMIT,
        ensures
            r == rotate_z_fx(
                *self,
                crate::trig::cos_fx(radians as int),
                crate::trig::sin_fx(radians as int),
            ),
    {
        let m = crate::matrix::Matrix::rotation_z(radians);
        let out = m.times_tuple(self);
        proof {
            lemma_unit_zero_products(*self);
        }
        out
    }

    /// Componentwise quotient by a scalar.
    pub fn divided_by(&self, s: i64) -> (r: Tuple)
        requires
            div_ok(self.x as int, s as int),
            div_ok(self.y as int, s as int),
            div_ok(self.z as int, s as int),
            div_ok(self.w as int, s as int),
        ensures
            r.x == div_fx(self.x as int, s as int),
            r.y == div_fx(self.y as int, s as int),
            r.z == div_fx(self.z as int, s as int),
            r.w == div_fx(self.w as int, s as int),
    {
        Tuple {
            x: fx_div(self.x, s),
            y: fx_div(self.y, s),
            z: fx_div(self.z, s),
            w: fx_div(self.w, s),
        }
    }
}

/// An affine point: a tuple whose `w` is one unit.
#[derive(Clone, Copy, Debug, PartialEq, Eq, Structural)]
pub struct Point(pub Tuple);

impl Point {
    /// A point from three coordinates.
    pub fn new(x: i64, y: i64, z: i64) -> (r: Point)
        ensures
            r.0.x == x,
            r.0.y == y,
            r.0.z == z,
            r.0.w == SCALE,
    {
        Point(Tuple { x, y, z, w: SCALE })
    }

    /// The underlying tuple.
    pub fn tuple(&self) -> (r: Tuple)
        ensures
            r == self.0,
    {
        self.0
    }

    /// The first coordinate.
    pub fn x(&self) -> (r: i64)
        ensures
            r == self.0.x,
    {
        self.0.x
    }

    /// The second coordinate.
    pub fn y(&self) -> (r: i64)
        ensures
            r == self.0.y,
    {
        self.0.y
    }

    /// The third coordinate.
    pub fn z(&self) -> (r: i64)
        ensures
            r == self.0.z,
    {
        self.0.z
    }

    /// The fourth component.
    pub fn w(&self) -> (r: i64)
        ensures
            r == self.0.w,
    {
        self.0.w
    }

    /// The displacement from the origin: the same coordinates as a vector.
    pub fn subtract_origin(&self) -> (r: Vector)
        ensures
            r.0.x == self.0.x,
            r.0.y == self.0.y,
            r.0.z == self.0.z,
            r.0.w == 0,
    {
        let mut t = self.0;
        t.w = 0;
        Vector(t)
    }

    /// Point plus vector: a point.
    pub fn plus_vector(&self, rhs: &Vector) -> (r: Point)
        requires
            add_fits(self.0, rhs.0),
        ensures
            r.0 == spec_add(self.0, rhs.0),
    {
        Point(self.0.plus(&rhs.0))
    }

    /// Point minus point: the vector between them.
    pub fn minus_point(&self, rhs: &Point) -> (r: Vector)
        requires
            sub_fits(self.0, rhs.0),
        ensures
            r.0 == spec_sub(self.0, rhs.0),
    {
        Vector(self.0.minus(&rhs.0))
    }

    /// Point minus vector: a point.
    pub fn minus_vector(&self, rhs: &Vector) -> (r: Point)
        requires
            sub_fits(self.0, rhs.0),
        ensures
            r.0 == spec_sub(self.0, rhs.0),
    {
        Point(self.0.minus(&rhs.0))
    }

    /// This point moved by `(x, y, z)`.
    pub fn translate(&self, x: i64, y: i64, z: i64) -> (r: Point)
        requires
            tuple_bounded(self.0, crate::matrix::MUL_LIMIT as int),
            -crate::matrix::MUL_LIMIT <= x <= crate::matrix::MUL_LIMIT,
            -crate::matrix::MUL_LIMIT <= y <= crate::matrix::MUL_LIMIT,
            -crate::matrix::MUL_LIMIT <= z <= crate::matrix::MUL_LIMIT,
        ensures
            r.0 == translate_fx(self.0, x as int, y as int, z as int),
    {
        Point(self.0.translate(x, y, z))
    }

    /// This point scaled by `(x, y, z)`.
    pub fn scale(&self, x: i64, y: i64, z: i64) -> (r: Point)
        requires
            tuple_bounded(self.0, crate::matrix::MUL_LIMIT as int),
            -crate::matrix::MUL_LIMIT <= x <= crate::matrix::MUL_LIMIT,
            -crate::matrix::MUL_LIMIT <= y <= crate::matrix::MUL_LIMIT,
            -crate::matrix::MUL_LIMIT <= z <= crate::matrix::MUL_LIMIT,
        ensures
            r.0 == scale_fx(self.0, x as int, y as int, z as int),
    {
        Point(self.0.scale(x, y, z))
    }

    /// This point sheared.
    pub fn shear(&self, xy: i64, xz: i64, yx: i64, yz: i64, zx: i64, zy: i64) -> (r: Point)
        requires
            tuple_bounded(self.0, crate::matrix::MUL_LIMIT as int),
            -crate::matrix::MUL_LIMIT <= xy <= crate::matrix::MUL_LIMIT,
            -crate::matrix::MUL_LIMIT <= xz <= crate::matrix::MUL_LIMIT,
            -crate::matrix::MUL_LIMIT <= yx <= crate::matrix::MUL_LIMIT,
            -crate::matrix::MUL_LIMIT <= yz <= crate::matrix::MUL_LIMIT,
            -crate::matrix::MUL_LIMIT <= zx <= crate::matrix::MUL_LIMIT,
            -crate::matrix::MUL_LIMIT <= zy <= crate::matrix::MUL_LIMIT,
        ensures
            r.0 == shear_fx(
                self.0,
                xy as int,
                xz as int,
                yx as int,
                yz as int,
                zx as int,
                zy as int,
            ),
    {
        Point(self.0.shear(xy, xz, yx, yz, zx, zy))
    }

    /// This point rotated about the x axis by `radians`.
    pub fn rotate_x(&self, radians: i64) -> (r: Point)
        requires
            tuple_bounded(self.0, crate::matrix::MUL_LIMIT as int),
            -crate::trig::ANGLE_LIMIT <= radians <= crate::trig::ANGLE_LIMIT,
        ensures
            r.0 == rotate_x_fx(
                self.0,
                crate::trig::cos_fx(radians as int),
                crate::trig::sin_fx(radians as int),
            ),
    {
        Point(self.0.rotate_x(radians))
    }

    /// This point rotated about the y axis by `radians`.
    pub fn rotate_y(&self, radians: i64) -> (r: Point)
        requires
            tuple_bounded(self.0, crate::matrix::MUL_LIMIT as int),
            -crate::trig::ANGLE_LIMIT <= radians <= crate::trig::ANGLE_LIMIT,
        ensures
            r.0 == rotate_y_fx(
                self.0,
                crate::trig::cos_fx(radians as int),
                crate::trig::sin_fx(radians as int),
            ),
    {
        Point(self.0.rotate_y(radians))
    }

    /// This point rotated about the z axis by `radians`.
    pub fn rotate_z(&self, radians: i64) -> (r: Point)
        requires
            tuple_bounded(self.0, crate::matrix::MUL_LIMIT as int),
            -crate::trig::ANGLE_LIMIT <= radians <= crate::trig::ANGLE_LIMIT,
        ensures
            r.0 == rotate_z_fx(
                self.0,
                crate::trig::cos_fx(radians as int),
                crate::trig::sin_fx(radians as int),
            ),
    {
        Point(self.0.rotate_z(radians))
    }

    /// Componentwise equality within `EPSILON`.
    pub fn approx_eq(&self, other: &Point) -> (r: bool)
        ensures
            r == {
                &&& vstd::math::abs(self.0.x - other.0.x) < EPSILON
                &&& vstd::math::abs(self.0.y - other.0.y) < EPSILON
                &&& vstd::math::abs(self.0.z - other.0.z) < EPSILON
                &&& vstd::math::abs(self.0.w - other.0.w) < EPSILON
            },
    {
        self.0.approx_eq(&other.0)
    }
}

/// A direction with magnitude: a tuple whose `w` is zero.
#[derive(Clone, Copy, Debug, PartialEq, Eq, Structural)]
pub struct Vector(pub Tuple);

impl Vector {
    /// A vector from three coordinates.
    pub fn new(x: i64, y: i64, z: i64) -> (r: Vector)
        ensures
            r.0.x == x,
            r.0.y == y,
            r.0.z == z,
            r.0.w == 0,
    {
        Vector(Tuple { x, y, z, w: 0 })
    }

    /// The underlying tuple.
    pub fn tuple(&self) -> (r: Tuple)
        ensures
            r == self.0,
    {
        self.0
    }

    /// The first coordinate.
    pub fn x(&self) -> (r: i64)
        ensures
            r == self.0.x,
    {
        self.0.x
    }

    /// The second coordinate.
    pub fn y(&self) -> (r: i64)
        ensures
            r == self.0.y,
    {
        self.0.y
    }

    /// The third coordinate.
    pub fn z(&self) -> (r: i64)
        ensures
            r == self.0.z,
    {
        self.0.z
    }

    /// The fourth component.
    pub fn w(&self) -> (r: i64)
        ensures
            r == self.0.w,
    {
        self.0.w
    }

    /// Vector plus vector.
    pub fn plus(&self, rhs: &Vector) -> (r: Vector)
        requires
            add_fits(self.0, rhs.0),
        ensures
            r.0 == spec_add(self.0, rhs.0),
    {
        Vector(self.0.plus(&rhs.0))
    }

    /// Vector minus vector.
    pub fn minus(&self, rhs: &Vector) -> (r: Vector)
        requires
            sub_fits(self.0, rhs.0),
        ensures
            r.0 == spec_sub(self.0, rhs.0),
    {
        Vector(self.0.minus(&rhs.0))
    }

    /// Vector times a scalar.
    pub fn times(&self, s: i64) -> (r: Vector)
        requires
            scale_ok(self.0, s as int),
        ensures
            r.0 == spec_scale(self.0, s as int),
    {
        Vector(self.0.times(s))
    }

    /// Componentwise equality within `EPSILON`.
    pub fn approx_eq(&self, other: &Vector) -> (r: bool)
        ensures
            r == {
                &&& vstd::math::abs(self.0.x - other.0.x) < EPSILON
                &&& vstd::math::abs(self.0.y - other.0.y) < EPSILON
                &&& vstd::math::abs(self.0.z - other.0.z) < EPSILON
                &&& vstd::math::abs(self.0.w - other.0.w) < EPSILON
            },
    {
        self.0.approx_eq(&other.0)
    }

    /// This vector under a translation: unchanged, since its `w` is zero.
    pub fn translate(&self, x: i64, y: i64, z: i64) -> (r: Vector)
        requires
            tuple_bounded(self.0, crate::matrix::MUL_LIMIT as int),
            -crate::matrix::MUL_LIMIT <= x <= crate::matrix::MUL_LIMIT,
            -crate::matrix::MUL_LIMIT <= y <= crate::matrix::MUL_LIMIT,
            -crate::matrix::MUL_LIMIT <= z <= crate::matrix::MUL_LIMIT,
        ensures
            r.0 == translate_fx(self.0, x as int, y as int, z as int),
    {
        Vector(self.0.translate(x, y, z))
    }

    /// This vector scaled by `(x, y, z)`.
    pub fn scale(&self, x: i64, y: i64, z: i64) -> (r: Vector)
        requires
            tuple_bounded(self.0, crate::matrix::MUL_LIMIT as int),
            -crate::matrix::MUL_LIMIT <= x <= crate::matrix::MUL_LIMIT,
            -crate::matrix::MUL_LIMIT <= y <= crate::matrix::MUL_LIMIT,
            -crate::matrix::MUL_LIMIT <= z <= crate::matrix::MUL_LIMIT,
        ensures
            r.0 == scale_fx(self.0, x as int, y as int, z as int),
    {
        Vector(self.0.scale(x, y, z))
    }

    /// This vector sheared.
    pub fn shear(&self, xy: i64, xz: i64, yx: i64, yz: i64, zx: i64, zy: i64) -> (r: Vector)
        requires
            tuple_bounded(self.0, crate::matrix::MUL_LIMIT as int),
            -crate::matrix::MUL_LIMIT <= xy <= crate::matrix::MUL_LIMIT,
            -crate::matrix::MUL_LIMIT <= xz <= crate::matrix::MUL_LIMIT,
            -crate::matrix::MUL_LIMIT <= yx <= crate::matrix::MUL_LIMIT,
            -crate::matrix::MUL_LIMIT <= yz <= crate::matrix::MUL_LIMIT,
            -crate::matrix::MUL_LIMIT <= zx <= crate::matrix::MUL_LIMIT,
            -crate::matrix::MUL_LIMIT <= zy <= crate::matrix::MUL_LIMIT,
        ensures
            r.0 == shear_fx(
                self.0,
                xy as int,
                xz as int,
                yx as int,
                yz as int,
                zx as int,
                zy as int,
            ),
    {
        Vector(self.0.shear(xy, xz, yx, yz, zx, zy))
    }

    /// This vector rotated about the x axis by `radians`.
    pub fn rotate_x(&self, radians: i64) -> (r: Vector)
        requires
            tuple_bounded(self.0, crate::matrix::MUL_LIMIT as int),
            -crate::trig::ANGLE_LIMIT <= radians <= crate::trig::ANGLE_LIMIT,
        ensures
            r.0 == rotate_x_fx(
                self.0,
                crate::trig::cos_fx(radians as int),
                crate::trig::sin_fx(radians as int),
            ),
    {
        Vector(self.0.rotate_x(radians))
    }

    /// This vector rotated about the y axis by `radians`.
    pub fn rotate_y(&self, radians: i64) -> (r: Vector)
        requires
            tuple_bounded(self.0, crate::matrix::MUL_LIMIT as int),
            -crate::trig::ANGLE_LIMIT <= radians <= crate::trig::ANGLE_LIMIT,
        ensures
            r.0 == rotate_y_fx(
                self.0,
                crate::trig::cos_fx(radians as int),
                crate::trig::sin_fx(radians as int),
            ),
    {
        Vector(self.0.rotate_y(radians))
    }

    /// This vector rotated about the z axis by `radians`.
    pub fn rotate_z(&self, radians: i64) -> (r: Vector)
        requires
            tuple_bounded(self.0, crate::matrix::MUL_LIMIT as int),
            -crate::trig::ANGLE_LIMIT <= radians <= crate::trig::ANGLE_LIMIT,
        ensures
            r.0 == rotate_z_fx(
                self.0,
                crate::trig::cos_fx(radians as int),
                crate::trig::sin_fx(radians as int),
            ),
    {
        Vector(self.0.rotate_z(radians))
    }

    /// The Euclidean norm over all four components: the floor square
    /// root of the raw sum of squares.
    pub fn magnitude(&self) -> (r: i64)
        requires
            tuple_bounded(self.0, MAG_LIMIT as int),
        ensures
            is_sqrt(mag_sq(self.0), r as int),
            r == sqrt_floor(mag_sq(self.0)),
            0 <= r,
    {
        magnitude_of(&self.0)
    }

    /// The unit vector with this vector's direction, or `None` for the
    /// zero vector (whose magnitude is zero).
    pub fn normalize(&self) -> (r: Option<Vector>)
        requires
            tuple_bounded(self.0, MAG_LIMIT as int),
        ensures
            (r is None) <==> mag_sq(self.0) == 0,
            r matches Some(u) ==> {
                let m = sqrt_floor(mag_sq(self.0));
                &&& u.0.x == div_fx(self.0.x as int, m)
                &&& u.0.y == div_fx(self.0.y as int, m)
                &&& u.0.z == div_fx(self.0.z as int, m)
                &&& u.0.w == 0
                &&& tuple_bounded(u.0, SCALE as int)
            },
    {
        let m = magnitude_of(&self.0);
        if m == 0 {
            proof {
                lemma_mag_sq_zero(self.0);
            }
            None
        } else {
            proof {
                lemma_component_le_sqrt(self.0, m as int);
                lemma_mag_sq_pos(self.0, m as int);
            }
            let u = Vector::new(fx_div(self.0.x, m), fx_div(self.0.y, m), fx_div(self.0.z, m));
            Some(u)
        }
    }

    /// The fixed-point dot product over all four components.
    pub fn dot(&self, other: &Vector) -> (r: i64)
        requires
            tuple_bounded(self.0, DOT_LIMIT as int),
            tuple_bounded(other.0, DOT_LIMIT as int),
        ensures
            r == dot_fx(self.0, other.0),
    {
        dot_of(&self.0, &other.0)
    }

    /// The cross product, on the three spatial components.
    pub fn cross(&self, other: &Vector) -> (r: Vector)
        requires
            tuple_bounded(self.0, DOT_LIMIT as int),
            tuple_bounded(other.0, DOT_LIMIT as int),
        ensures
            r.0.x == mul_fx(self.0.y as int, other.0.z as int) - mul_fx(
                self.0.z as int,
                other.0.y as int,
            ),
            r.0.y == mul_fx(self.0.z as int, other.0.x as int) - mul_fx(
                self.0.x as int,
                other.0.z as int,
            ),
            r.0.z == mul_fx(self.0.x as int, other.0.y as int) - mul_fx(
                self.0.y as int,
                other.0.x as int,
            ),
            r.0.w == 0,
    {
        proof {
            lemma_dot_term_bounds(self.0, other.0);
        }
        Vector::new(
            fx_mul(self.0.y, other.0.z) - fx_mul(self.0.z, other.0.y),
            fx_mul(self.0.z, other.0.x) - fx_mul(self.0.x, other.0.z),
            fx_mul(self.0.x, other.0.y) - fx_mul(self.0.y, other.0.x),
        )
    }

    /// This vector reflected about a normal:
    /// `self - normal * 2 * dot(self, normal)`.
    pub fn reflect(&self, normal: &Vector) -> (r: Vector)
        requires
            tuple_bounded(self.0, REFL_LIMIT as int),
            tuple_bounded(normal.0, REFL_LIMIT as int),
        ensures
            r.0 == reflect_fx(self.0, normal.0),
    {
        proof {
            lemma_reflect_bounds(self.0, normal.0);
        }
        let d: i64 = dot_of(&self.0, &normal.0);
        let scaled: Tuple = normal.0.times(2 * d);
        Vector(self.0.minus(&scaled))
    }
}

/// A tuple moved by `(x, y, z)` in proportion to its `w` component.
pub open spec fn translate_fx(t: Tuple, x: int, y: int, z: int) -> Tuple {
    Tuple {
        x: (t.x + mul_fx(x, t.w as int)) as i64,
        y: (t.y + mul_fx(y, t.w as int)) as i64,
        z: (t.z + mul_fx(z, t.w as int)) as i64,
        w: t.w,
    }
}

/// A tuple with each axis scaled by its factor.
pub open spec fn scale_fx(t: Tuple, x: int, y: int, z: int) -> Tuple {
    Tuple {
        x: mul_fx(x, t.x as int) as i64,
        y: mul_fx(y, t.y as int) as i64,
        z: mul_fx(z, t.z as int) as i64,
        w: t.w,
    }
}

/// A tuple sheared: each axis moved in proportion to the other two.
pub open spec fn shear_fx(t: Tuple, xy: int, xz: int, yx: int, yz: int, zx: int, zy: int) -> Tuple {
    Tuple {
        x: (t.x + mul_fx(xy, t.y as int) + mul_fx(xz, t.z as int)) as i64,
        y: (mul_fx(yx, t.x as int) + t.y + mul_fx(yz, t.z as int)) as i64,
        z: (mul_fx(zx, t.x as int) + mul_fx(zy, t.y as int) + t.z) as i64,
        w: t.w,
    }
}

/// A tuple rotated about the x axis, given the angle's cosine and sine.
pub open spec fn rotate_x_fx(t: Tuple, co: int, si: int) -> Tuple {
    Tuple {
        x: t.x,
        y: (mul_fx(co, t.y as int) + mul_fx(-si, t.z as int)) as i64,
        z: (mul_fx(si, t.y as int) + mul_fx(co, t.z as int)) as i64,
        w: t.w,
    }
}

/// A tuple rotated about the y axis, given the angle's cosine and sine.
pub open spec fn rotate_y_fx(t: Tuple, co: int, si: int) -> Tuple {
    Tuple {
        x: (mul_fx(co, t.x as int) + mul_fx(si, t.z as int)) as i64,
        y: t.y,
        z: (mul_fx(-si, t.x as int) + mul_fx(co, t.z as int)) as i64,
        w: t.w,
    }
}

/// A tuple rotated about the z axis, given the angle's cosine and sine.
pub open spec fn rotate_z_fx(t: Tuple, co: int, si: int) -> Tuple {
    Tuple {
        x: (mul_fx(co, t.x as int) + mul_fx(-si, t.y as int)) as i64,
        y: (mul_fx(si, t.x as int) + mul_fx(co, t.y as int)) as i64,
        z: t.z,
        w: t.w,
    }
}

/// Adding a vector to a point and subtracting it again returns the
/// point, exactly; and the sum of a point and a vector is a point.
pub proof fn lemma_point_vector_round_trip(p: Point, v: Vector)
    requires
        p.0.w == SCALE,
        v.0.w == 0,
        add_fits(p.0, v.0),
    ensures
        spec_sub(spec_add(p.0, v.0), v.0) == p.0,
        spec_add(p.0, v.0).w == SCALE,
{
}

/// A normalized vector has unit length: for any vector of magnitude at
/// least a hundredth of a unit, the magnitude of its normalization is
/// within `EPSILON` of one unit.
pub proof fn lemma_normalize_unit_length(v: Tuple)
    requires
        tuple_bounded(v, MAG_LIMIT as int),
        v.w == 0,
        sqrt_floor(mag_sq(v)) >= 1_000_000,
    ensures
        ({
            let m = sqrt_floor(mag_sq(v));
            let u = Tuple {
                x: div_fx(v.x as int, m) as i64,
                y: div_fx(v.y as int, m) as i64,
                z: div_fx(v.z as int, m) as i64,
                w: 0,
            };
            vstd::math::abs(sqrt_floor(mag_sq(u)) - SCALE) < EPSILON
        }),
{
    lemma_square_bound(v.x as int);
    lemma_square_bound(v.y as int);
    lemma_square_bound(v.z as int);
    lemma_square_bound(v.w as int);
    crate::fx::lemma_sqrt_exists(mag_sq(v));
    let m = sqrt_floor(mag_sq(v));
    let s3 = mag_sq(v);
    let ux = div_fx(v.x as int, m);
    let uy = div_fx(v.y as int, m);
    let uz = div_fx(v.z as int, m);
    let s = SCALE as int;
    crate::fx::lemma_div_trunc_error(v.x * s, m);
    crate::fx::lemma_div_trunc_error(v.y * s, m);
    crate::fx::lemma_div_trunc_error(v.z * s, m);
    let ex = v.x * s - ux * m;
    let ey = v.y * s - uy * m;
    let ez = v.z * s - uz * m;
    assert(-m < ex < m && -m < ey < m && -m < ez < m);
    lemma_component_within(v.x as int, v, m);
    lemma_component_within(v.y as int, v, m);
    lemma_component_within(v.z as int, v, m);
    assert(-(s * m) <= v.x * s <= s * m && -(s * m) <= v.y * s <= s * m && -(s * m) <= v.z * s
        <= s * m) by (nonlinear_arith)
        requires
            -m <= v.x <= m,
            -m <= v.y <= m,
            -m <= v.z <= m,
            s == 100_000_000,
            m >= 1,
    {
    }
    crate::fx::lemma_div_trunc_bound(v.x * s, m, s);
    crate::fx::lemma_div_trunc_bound(v.y * s, m, s);
    crate::fx::lemma_div_trunc_bound(v.z * s, m, s);
    let q = ux * ux + uy * uy + uz * uz;
    lemma_scaled_square(ux, m, v.x as int, s, ex);
    lemma_scaled_square(uy, m, v.y as int, s, ey);
    lemma_scaled_square(uz, m, v.z as int, s, ez);
    let cross = v.x * ex + v.y * ey + v.z * ez;
    let esq = ex * ex + ey * ey + ez * ez;
    assert(m * m * q == m * m * (ux * ux) + m * m * (uy * uy) + m * m * (uz * uz))
        by (nonlinear_arith)
        requires
            q == ux * ux + uy * uy + uz * uz,
    {
    }
    assert(s * s * s3 == s * s * (v.x * v.x) + s * s * (v.y * v.y) + s * s * (v.z * v.z))
        by (nonlinear_arith)
        requires
            s3 == v.x * v.x + v.y * v.y + v.z * v.z + v.w * v.w,
            v.w == 0,
    {
    }
    assert(2 * s * (v.x * ex) + 2 * s * (v.y * ey) + 2 * s * (v.z * ez) == 2 * (s * cross))
        by (nonlinear_arith)
        requires
            cross == v.x * ex + v.y * ey + v.z * ez,
    {
    }
    assert(m * m * q == s * s * s3 - 2 * (s * cross) + esq);
    assert(-3 * (m * m) <= cross <= 3 * (m * m)) by (nonlinear_arith)
        requires
            -m <= v.x <= m,
            -m <= v.y <= m,
            -m <= v.z <= m,
            -m < ex < m,
            -m < ey < m,
            -m < ez < m,
            m >= 1,
            cross == v.x * ex + v.y * ey + v.z * ez,
    {
    }
    assert(0 <= esq <= 3 * (m * m)) by (nonlinear_arith)
        requires
            -m < ex < m,
            -m < ey < m,
            -m < ez < m,
            m >= 1,
            esq == ex * ex + ey * ey + ez * ez,
    {
    }
    assert(-(6 * s) * (m * m) <= 2 * (s * cross) <= (6 * s) * (m * m)) by (nonlinear_arith)
        requires
            -3 * (m * m) <= cross <= 3 * (m * m),
            s == 100_000_000,
    {
    }
    assert(m * m * (s * s) <= s * s * s3 && s * s * s3 <= m * m * (s * s) + 2 * m * (s * s))
        by (nonlinear_arith)
        requires
            m * m <= s3,
            s3 < (m + 1) * (m + 1),
            s == 100_000_000,
            m >= 1,
    {
    }
    // One more step of the shared division covers the cross term.
    let dd = 2 * (s * s) / m + 1;
    assert(dd * m > 2 * (s * s) && 0 < dd <= 20_000_000_001) by {
        vstd::arithmetic::div_mod::lemma_fundamental_div_mod(2 * (s * s), m);
        vstd::arithmetic::div_mod::lemma_mod_bound(2 * (s * s), m);
        vstd::arithmetic::div_mod::lemma_div_pos_is_pos(2 * (s * s), m);
        assert((2 * (s * s) / m + 1) * m > 2 * (s * s)) by (nonlinear_arith)
            requires
                m * (2 * (s * s) / m) == 2 * (s * s) - (2 * (s * s)) % m,
                (2 * (s * s)) % m < m,
        {
        }
        crate::fx::lemma_div_trunc_bound(2 * (s * s), m, 20_000_000_000);
        assert(2 * (s * s) <= 20_000_000_000 * m) by (nonlinear_arith)
            requires
                m >= 1_000_000,
                s == 100_000_000,
        {
        }
    }
    // Sandwich the scaled square sum, then divide by m * m.
    assert(m * m * (s * s - 6 * s) <= m * m * q && m * m * q <= m * m * (s * s + dd + 6 * s + 3))
        by (nonlinear_arith)
        requires
            m * m * q == s * s * s3 - 2 * (s * cross) + esq,
            m * m * (s * s) <= s * s * s3 <= m * m * (s * s) + 2 * m * (s * s),
            -(6 * s) * (m * m) <= 2 * (s * cross) <= (6 * s) * (m * m),
            0 <= esq <= 3 * (m * m),
            dd * m > 2 * (s * s),
            s == 100_000_000,
            m >= 1_000_000,
    {
    }
    assert(s * s - 6 * s <= q <= s * s + dd + 6 * s + 3) by (nonlinear_arith)
        requires
            m * m * (s * s - 6 * s) <= m * m * q,
            m * m * q <= m * m * (s * s + dd + 6 * s + 3),
            m >= 1,
    {
    }
    crate::fx::lemma_sqrt_exists(q);
    let sq = sqrt_floor(q);
    assert(s - 4 <= sq <= s + 103) by (nonlinear_arith)
        requires
            0 <= sq,
            sq * sq <= q,
            q < (sq + 1) * (sq + 1),
            s * s - 6 * s <= q,
            q <= s * s + 20_000_000_001 + 6 * s + 3,
            s == 100_000_000,
    {
    }
    assert(mag_sq(Tuple { x: ux as i64, y: uy as i64, z: uz as i64, w: 0 }) == q);
}

/// One scaled square: from `u * m == v * s - e` it follows that
/// `m * m * (u * u) == s * s * (v * v) - 2 * s * (v * e) + e * e`.
proof fn lemma_scaled_square(u: int, m: int, v: int, s: int, e: int)
    requires
        u * m == v * s - e,
    ensures
        m * m * (u * u) == s * s * (v * v) - 2 * s * (v * e) + e * e,
{
    assert((u * m) * (u * m) == m * m * (u * u)) by (nonlinear_arith) {}
    assert((u * m) * (u * m) == (v * s - e) * (v * s - e));
    assert((v * s - e) * (v * s - e) == s * s * (v * v) - 2 * s * (v * e) + e * e)
        by (nonlinear_arith) {}
}

/// One component never exceeds the floor square root of the whole sum.
proof fn lemma_component_within(u: int, t: Tuple, m: int)
    requires
        is_sqrt(mag_sq(t), m),
        m >= 1,
        u == t.x || u == t.y || u == t.z || u == t.w,
    ensures
        -m <= u <= m,
{
    assert(-m <= u <= m) by (nonlinear_arith)
        requires
            (t.x as int) * (t.x as int) + (t.y as int) * (t.y as int) + (t.z as int) * (
            t.z as int) + (t.w as int) * (t.w as int) < (m + 1) * (m + 1),
            m >= 1,
            u == t.x || u == t.y || u == t.z || u == t.w,
    {
    }
}

/// The sum of two vectors is a vector: its `w` stays zero.
pub proof fn lemma_vector_sum_is_vector(u: Vector, v: Vector)
    requires
        u.0.w == 0,
        v.0.w == 0,
        add_fits(u.0, v.0),
    ensures
        spec_add(u.0, v.0).w == 0,
{
}

/// Products by one unit and by zero collapse, for every component of a
/// tuple: the glue between a transform's grid and its closed form.
proof fn lemma_unit_zero_products(t: Tuple)
    requires
        tuple_bounded(t, crate::matrix::MUL_LIMIT as int),
    ensures
        mul_fx(SCALE as int, t.x as int) == t.x,
        mul_fx(SCALE as int, t.y as int) == t.y,
        mul_fx(SCALE as int, t.z as int) == t.z,
        mul_fx(SCALE as int, t.w as int) == t.w,
        mul_fx(0, t.x as int) == 0,
        mul_fx(0, t.y as int) == 0,
        mul_fx(0, t.z as int) == 0,
        mul_fx(0, t.w as int) == 0,
{
    crate::fx::lemma_mul_fx_unit(t.x as int);
    crate::fx::lemma_mul_fx_unit(t.y as int);
    crate::fx::lemma_mul_fx_unit(t.z as int);
    crate::fx::lemma_mul_fx_unit(t.w as int);
    crate::fx::lemma_mul_fx_zero(t.x as int);
    crate::fx::lemma_mul_fx_zero(t.y as int);
    crate::fx::lemma_mul_fx_zero(t.z as int);
    crate::fx::lemma_mul_fx_zero(t.w as int);
}

/// The reflection of `v` about `n`, componentwise.
pub open spec fn reflect_fx(v: Tuple, n: Tuple) -> Tuple {
    let k = 2 * dot_fx(v, n);
    Tuple {
        x: (v.x - mul_fx(n.x as int, k)) as i64,
        y: (v.y - mul_fx(n.y as int, k)) as i64,
        z: (v.z - mul_fx(n.z as int, k)) as i64,
        w: (v.w - mul_fx(n.w as int, k)) as i64,
    }
}

/// Each dot-product term of tuples within `DOT_LIMIT` fits comfortably.
proof fn lemma_dot_term_bounds(a: Tuple, b: Tuple)
    requires
        tuple_bounded(a, DOT_LIMIT as int),
        tuple_bounded(b, DOT_LIMIT as int),
    ensures
        mul_ok(a.x as int, b.x as int),
        mul_ok(a.y as int, b.y as int),
        mul_ok(a.z as int, b.z as int),
        mul_ok(a.w as int, b.w as int),
        mul_ok(a.y as int, b.z as int),
        mul_ok(a.z as int, b.y as int),
        mul_ok(a.z as int, b.x as int),
        mul_ok(a.x as int, b.z as int),
        mul_ok(a.x as int, b.y as int),
        mul_ok(a.y as int, b.x as int),
        -2_250_000_000_000_000_000 <= mul_fx(a.x as int, b.x as int) <= 2_250_000_000_000_000_000,
        -2_250_000_000_000_000_000 <= mul_fx(a.y as int, b.y as int) <= 2_250_000_000_000_000_000,
        -2_250_000_000_000_000_000 <= mul_fx(a.z as int, b.z as int) <= 2_250_000_000_000_000_000,
        -2_250_000_000_000_000_000 <= mul_fx(a.w as int, b.w as int) <= 2_250_000_000_000_000_000,
        -2_250_000_000_000_000_000 <= mul_fx(a.y as int, b.z as int) <= 2_250_000_000_000_000_000,
        -2_250_000_000_000_000_000 <= mul_fx(a.z as int, b.y as int) <= 2_250_000_000_000_000_000,
        -2_250_000_000_000_000_000 <= mul_fx(a.z as int, b.x as int) <= 2_250_000_000_000_000_000,
        -2_250_000_000_000_000_000 <= mul_fx(a.x as int, b.z as int) <= 2_250_000_000_000_000_000,
        -2_250_000_000_000_000_000 <= mul_fx(a.x as int, b.y as int) <= 2_250_000_000_000_000_000,
        -2_250_000_000_000_000_000 <= mul_fx(a.y as int, b.x as int) <= 2_250_000_000_000_000_000,
{
    lemma_dot_term_bound_one(a.x as int, b.x as int);
    lemma_dot_term_bound_one(a.y as int, b.y as int);
    lemma_dot_term_bound_one(a.z as int, b.z as int);
    lemma_dot_term_bound_one(a.w as int, b.w as int);
    lemma_dot_term_bound_one(a.y as int, b.z as int);
    lemma_dot_term_bound_one(a.z as int, b.y as int);
    lemma_dot_term_bound_one(a.z as int, b.x as int);
    lemma_dot_term_bound_one(a.x as int, b.z as int);
    lemma_dot_term_bound_one(a.x as int, b.y as int);
    lemma_dot_term_bound_one(a.y as int, b.x as int);
}

proof fn lemma_dot_term_bound_one(u: int, v: int)
    requires
        -(DOT_LIMIT as int) <= u <= DOT_LIMIT as int,
        -(DOT_LIMIT as int) <= v <= DOT_LIMIT as int,
    ensures
        mul_ok(u, v),
        -2_250_000_000_000_000_000 <= mul_fx(u, v) <= 2_250_000_000_000_000_000,
{
    lemma_mul_bounds(u, v, DOT_LIMIT as int, DOT_LIMIT as int);
    lemma_div_trunc_bound(u * v, SCALE as int, 2_250_000_000_000_000_000);
}

/// A dot product of tuples bounded by `cap` is itself bounded, term by
/// term and in total.
pub proof fn lemma_dot_fx_bound(a: Tuple, b: Tuple, cap: int)
    requires
        0 <= cap <= DOT_LIMIT as int,
        tuple_bounded(a, cap),
        tuple_bounded(b, cap),
    ensures
        -(4 * (cap * cap / (SCALE as int) + 1)) <= dot_fx(a, b) <= 4 * (cap * cap / (
        SCALE as int) + 1),
        tuple_bounded(a, DOT_LIMIT as int),
        tuple_bounded(b, DOT_LIMIT as int),
{
    assert(cap * cap <= (i64::MAX as int) * (SCALE as int)) by (nonlinear_arith)
        requires
            0 <= cap <= 15_000_000_000_000,
    {
    }
    crate::fx::lemma_mul_fx_bound(a.x as int, b.x as int, cap, cap);
    crate::fx::lemma_mul_fx_bound(a.y as int, b.y as int, cap, cap);
    crate::fx::lemma_mul_fx_bound(a.z as int, b.z as int, cap, cap);
    crate::fx::lemma_mul_fx_bound(a.w as int, b.w as int, cap, cap);
}

/// The four-term dot product of tuples bounded by `DOT_LIMIT`.
fn dot_of(a: &Tuple, b: &Tuple) -> (r: i64)
    requires
        tuple_bounded(*a, DOT_LIMIT as int),
        tuple_bounded(*b, DOT_LIMIT as int),
    ensures
        r == dot_fx(*a, *b),
{
    proof {
        lemma_dot_term_bounds(*a, *b);
    }
    fx_mul(a.x, b.x) + fx_mul(a.y, b.y) + fx_mul(a.z, b.z) + fx_mul(a.w, b.w)
}

/// A dot product of tuples within `REFL_LIMIT`, doubled and used to
/// rescale the normal, stays representable.
proof fn lemma_reflect_bounds(v: Tuple, n: Tuple)
    requires
        tuple_bounded(v, REFL_LIMIT as int),
        tuple_bounded(n, REFL_LIMIT as int),
    ensures
        tuple_bounded(v, DOT_LIMIT as int),
        tuple_bounded(n, DOT_LIMIT as int),
        -1_600_000_000_000_000 <= dot_fx(v, n) <= 1_600_000_000_000_000,
        scale_ok(n, 2 * dot_fx(v, n)),
        fits(v.x - mul_fx(n.x as int, 2 * dot_fx(v, n))),
        fits(v.y - mul_fx(n.y as int, 2 * dot_fx(v, n))),
        fits(v.z - mul_fx(n.z as int, 2 * dot_fx(v, n))),
        fits(v.w - mul_fx(n.w as int, 2 * dot_fx(v, n))),
{
    lemma_dot_bound_refl(v, n);
    lemma_reflect_term(v.x as int, n.x as int, v, n);
    lemma_reflect_term(v.y as int, n.y as int, v, n);
    lemma_reflect_term(v.z as int, n.z as int, v, n);
    lemma_reflect_term(v.w as int, n.w as int, v, n);
}

/// One component of the reflection stays representable.
proof fn lemma_reflect_term(vc: int, nc: int, v: Tuple, n: Tuple)
    requires
        tuple_bounded(v, REFL_LIMIT as int),
        tuple_bounded(n, REFL_LIMIT as int),
        -(REFL_LIMIT as int) <= vc <= REFL_LIMIT as int,
        -(REFL_LIMIT as int) <= nc <= REFL_LIMIT as int,
    ensures
        mul_ok(nc, 2 * dot_fx(v, n)),
        fits(vc - mul_fx(nc, 2 * dot_fx(v, n))),
{
    lemma_dot_bound_refl(v, n);
    let k = 2 * dot_fx(v, n);
    lemma_mul_bounds(nc, k, REFL_LIMIT as int, 3_200_000_000_000_000);
    lemma_div_trunc_bound(nc * k, SCALE as int, 6_400_000_000_000_000_000);
}

/// The dot product of tuples within `REFL_LIMIT` is itself small.
proof fn lemma_dot_bound_refl(v: Tuple, n: Tuple)
    requires
        tuple_bounded(v, REFL_LIMIT as int),
        tuple_bounded(n, REFL_LIMIT as int),
    ensures
        -1_600_000_000_000_000 <= dot_fx(v, n) <= 1_600_000_000_000_000,
{
    lemma_dot_bound_refl_term(v.x as int, n.x as int);
    lemma_dot_bound_refl_term(v.y as int, n.y as int);
    lemma_dot_bound_refl_term(v.z as int, n.z as int);
    lemma_dot_bound_refl_term(v.w as int, n.w as int);
}

proof fn lemma_dot_bound_refl_term(u: int, w: int)
    requires
        -(REFL_LIMIT as int) <= u <= REFL_LIMIT as int,
        -(REFL_LIMIT as int) <= w <= REFL_LIMIT as int,
    ensures
        -400_000_000_000_000 <= mul_fx(u, w) <= 400_000_000_000_000,
{
    lemma_mul_bounds(u, w, REFL_LIMIT as int, REFL_LIMIT as int);
    lemma_div_trunc_bound(u * w, SCALE as int, 400_000_000_000_000);
}

/// The floor square root of a tuple's raw sum of squares.
fn magnitude_of(t: &Tuple) -> (r: i64)
    requires
        tuple_bounded(*t, MAG_LIMIT as int),
    ensures
        is_sqrt(mag_sq(*t), r as int),
        r == sqrt_floor(mag_sq(*t)),
        0 <= r,
{
    proof {
        lemma_square_bound(t.x as int);
        lemma_square_bound(t.y as int);
        lemma_square_bound(t.z as int);
        lemma_square_bound(t.w as int);
    }
    let sx: i128 = (t.x as i128) * (t.x as i128);
    let sy: i128 = (t.y as i128) * (t.y as i128);
    let sz: i128 = (t.z as i128) * (t.z as i128);
    let sw: i128 = (t.w as i128) * (t.w as i128);
    let n: u128 = (sx + sy + sz + sw) as u128;
    let s: u128 = isqrt_u128(n);
    proof {
        assert((s as int) <= 0x7fffffffffffffff) by (nonlinear_arith)
            requires
                0 <= (s as int),
                (s as int) * (s as int) <= n as int,
                (n as int) <= 16_000_000_000_000_000_000_000_000_000_000_000_000,
        {
        }
        lemma_sqrt_unique(n as int, s as int);
    }
    s as i64
}

proof fn lemma_square_bound(u: int)
    requires
        -(MAG_LIMIT as int) <= u <= MAG_LIMIT as int,
    ensures
        0 <= u * u <= 4_000_000_000_000_000_000_000_000_000_000_000_000,
{
    assert(0 <= u * u <= 4_000_000_000_000_000_000_000_000_000_000_000_000) by (nonlinear_arith)
        requires
            -2_000_000_000_000_000_000 <= u <= 2_000_000_000_000_000_000,
    {
    }
}

/// A positive floor square root means a positive sum of squares.
proof fn lemma_mag_sq_pos(t: Tuple, m: int)
    requires
        is_sqrt(mag_sq(t), m),
        m >= 1,
    ensures
        mag_sq(t) >= 1,
{
    assert(m * m >= 1) by (nonlinear_arith)
        requires
            m >= 1,
    {
    }
}

/// A zero magnitude means the sum of squares is itself zero.
proof fn lemma_mag_sq_zero(t: Tuple)
    requires
        tuple_bounded(t, MAG_LIMIT as int),
        is_sqrt(mag_sq(t), 0),
    ensures
        mag_sq(t) == 0,
{
    lemma_square_bound(t.x as int);
    lemma_square_bound(t.y as int);
    lemma_square_bound(t.z as int);
    lemma_square_bound(t.w as int);
}

/// No component exceeds the floor square root of the sum of squares.
proof fn lemma_component_le_sqrt(t: Tuple, m: int)
    requires
        is_sqrt(mag_sq(t), m),
        m >= 1,
    ensures
        div_ok(t.x as int, m),
        div_ok(t.y as int, m),
        div_ok(t.z as int, m),
        -(SCALE as int) <= div_fx(t.x as int, m) <= SCALE as int,
        -(SCALE as int) <= div_fx(t.y as int, m) <= SCALE as int,
        -(SCALE as int) <= div_fx(t.z as int, m) <= SCALE as int,
{
    lemma_component_le_sqrt_one(t.x as int, t, m);
    lemma_component_le_sqrt_one(t.y as int, t, m);
    lemma_component_le_sqrt_one(t.z as int, t, m);
}

proof fn lemma_component_le_sqrt_one(u: int, t: Tuple, m: int)
    requires
        is_sqrt(mag_sq(t), m),
        m >= 1,
        u == t.x || u == t.y || u == t.z || u == t.w,
    ensures
        div_ok(u, m),
        -(SCALE as int) <= div_fx(u, m) <= SCALE as int,
{
    assert(-m <= u <= m) by (nonlinear_arith)
        requires
            (t.x as int) * (t.x as int) + (t.y as int) * (t.y as int) + (t.z as int) * (
            t.z as int) + (t.w as int) * (t.w as int) < (m + 1) * (m + 1),
            m >= 1,
            u == t.x || u == t.y || u == t.z || u == t.w,
    {
    }
    lemma_mul_bounds(u, SCALE as int, m, SCALE as int);
    assert(m * (SCALE as int) <= (i64::MAX as int) * m) by (nonlinear_arith)
        requires
            m >= 1,
            (SCALE as int) == 100_000_000,
    {
    }
    lemma_div_trunc_bound(u * (SCALE as int), m, SCALE as int);
}

} // verus!
