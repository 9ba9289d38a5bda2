//! Three-channel colors of fixed-point scalars, with componentwise
//! arithmetic.

use vstd::prelude::*;

verus! {

use crate::EPSILON;
use crate::fx::{fx_mul, mul_fx, mul_ok};
use crate::space::fits;

/// A color: red, green, and blue channels as fixed-point scalars.
#[derive(Clone, Copy, Debug, PartialEq, Eq, Structural)]
pub struct Color {
    pub r: i64,
    pub g: i64,
    pub b: i64,
}

/// Every channel within `c` of zero.
pub open spec fn color_bounded(c: Color, cap: int) -> bool {
    &&& -cap <= c.r <= cap
    &&& -cap <= c.g <= cap
    &&& -cap <= c.b <= cap
}

impl Color {
    /// A color from its three channels.
    pub fn new(r: i64, g: i64, b: i64) -> (c: Color)
        ensures
            c.r == r,
            c.g == g,
            c.b == b,
    {
        Color { r, g, b }
    }

    /// The red channel.
    pub fn red(self) -> (v: i64)
        ensures
            v == self.r,
    {
        self.r
    }

    /// The green channel.
    pub fn green(self) -> (v: i64)
        ensures
            v == self.g,
    {
        self.g
    }

    /// The blue channel.
    pub fn blue(self) -> (v: i64)
        ensures
            v == self.b,
    {
        self.b
    }

    /// Channelwise equality within `EPSILON`.
    pub fn approx_eq(&self, other: &Color) -> (eq: bool)
        ensures
            eq == {
                &&& vstd::math::abs(self.r - other.r) < EPSILON
                &&& vstd::math::abs(self.g - other.g) < EPSILON
                &&& vstd::math::abs(self.b - other.b) < EPSILON
            },
    {
        crate::approx_equal(self.r, other.r) && crate::approx_equal(self.g, other.g)
            && crate::approx_equal(self.b, other.b)
    }

    /// Channelwise sum.
    pub fn plus(&self, rhs: &Color) -> (c: Color)
        requires
            fits(self.r + rhs.r),
            fits(self.g + rhs.g),
            fits(self.b + rhs.b),
        ensures
            c.r == self.r + rhs.r,
            c.g == self.g + rhs.g,
            c.b == self.b + rhs.b,
    {
        Color { r: self.r + rhs.r, g: self.g + rhs.g, b: self.b + rhs.b }
    }

    /// Channelwise difference.
    pub fn minus(&self, rhs: &Color) -> (c: Color)
        requires
            fits(self.r - rhs.r),
            fits(self.g - rhs.g),
            fits(self.b - rhs.b),
        ensures
            c.r == self.r - rhs.r,
            c.g == self.g - rhs.g,
            c.b == self.b - rhs.b,
    {
        Color { r: self.r - rhs.r, g: self.g - rhs.g, b: self.b - rhs.b }
    }

    /// Channelwise product with a scalar.
    pub fn times(&self, s: i64) -> (c: Color)
        requires
            mul_ok(self.r as int, s as int),
            mul_ok(self.g as int, s as int),
            mul_ok(self.b as int, s as int),
        ensures
            c.r == mul_fx(self.r as int, s as int),
            c.g == mul_fx(self.g as int, s as int),
            c.b == mul_fx(self.b as int, s as int),
    {
        Color { r: fx_mul(self.r, s), g: fx_mul(self.g, s), b: fx_mul(self.b, s) }
    }

    /// Channelwise product with another color.
    pub fn times_color(&self, rhs: &Color) -> (c: Color)
        requires
            mul_ok(self.r as int, rhs.r as int),
            mul_ok(self.g as int, rhs.g as int),
            mul_ok(self.b as int, rhs.b as int),
        ensures
            c.r == mul_fx(self.r as int, rhs.r as int),
            c.g == mul_fx(self.g as int, rhs.g as int),
            c.b == mul_fx(self.b as int, rhs.b as int),
    {
        Color { r: fx_mul(self.r, rhs.r), g: fx_mul(self.g, rhs.g), b: fx_mul(self.b, rhs.b) }
    }
}

} // verus!
