//! A scene: its shapes and its light.

use vstd::prelude::*;

verus! {

use crate::lighting::PointLight;
use crate::shape::Shape;

/// A scene under construction: no light and no objects at first.
#[derive(Clone, Debug)]
pub struct World {
    pub light: Option<PointLight>,
    pub objects: Vec<Shape>,
}

impl World {
    /// An empty world: no light, no objects.
    pub fn new() -> (w: World)
        ensures
            w.light is None,
            w.objects@.len() == 0,
    {
        World { light: None, objects: Vec::new() }
    }
}

impl Default for World {
    /// The default world is the empty one.
    fn default() -> (w: World)
        ensures
            w.light is None,
            w.objects@.len() == 0,
    {
        World::new()
    }
}

} // verus!
