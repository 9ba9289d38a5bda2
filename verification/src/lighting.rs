//! Point lights: a position and an intensity.

use vstd::prelude::*;

verus! {

use crate::color::Color;
use crate::space::Point;

/// A point light: immutable once constructed.
#[derive(Clone, Copy, Debug, PartialEq, Eq, Structural)]
pub struct PointLight {
    pub position: Point,
    pub intensity: Color,
}

impl PointLight {
    /// A light at `position` shining with `intensity`.
    pub fn new(position: Point, intensity: Color) -> (l: PointLight)
        ensures
            l.position == position,
            l.intensity == intensity,
    {
        PointLight { position, intensity }
    }

    /// The light's intensity.
    pub fn intensity(&self) -> (c: Color)
        ensures
            c == self.intensity,
    {
        self.intensity
    }

    /// The light's position.
    pub fn position(&self) -> (p: Point)
        ensures
            p == self.position,
    {
        self.position
    }
}

} // verus!
