//! Rays, intersection records, and the nearest-visible-hit rule.
//!
//! Intersections are kept as a sequence in ascending order of `t`, so
//! the hit — the first record with non-negative `t` — is simply the
//! earliest visible entry of that order.

use vstd::prelude::*;

verus! {

use crate::matrix::{Matrix, MUL_LIMIT, spec_apply};
use crate::shape::Shape;
use crate::space::{Point, Tuple, Vector, add_fits, scale_ok, spec_add, spec_scale, tuple_bounded};

/// A ray: where it starts and which way it goes.
#[derive(Clone, Copy, Debug)]
pub struct Ray {
    pub origin: Point,
    pub direction: Vector,
}

impl Ray {
    /// A ray from an origin along a direction.
    pub fn new(origin: Point, direction: Vector) -> (r: Ray)
        ensures
            r.origin == origin,
            r.direction == direction,
    {
        Ray { origin, direction }
    }

    /// The point at parameter `d`: the origin plus `d` times the
    /// direction.
    pub fn position(&self, d: i64) -> (p: Point)
        requires
            scale_ok(self.direction.0, d as int),
            add_fits(self.origin.0, spec_scale(self.direction.0, d as int)),
        ensures
            p.0 == spec_add(self.origin.0, spec_scale(self.direction.0, d as int)),
    {
        let step = self.direction.0.times(d);
        Point(self.origin.0.plus(&step))
    }

    /// The ray carried into another coordinate space: the matrix moves
    /// the origin as a point and the direction as a direction, so
    /// translation cannot bend the ray.
    pub fn transform(&self, matrix: &Matrix) -> (r: Ray)
        requires
            matrix.wf(),
            matrix.rows == 4,
            matrix.cols == 4,
            matrix.entries_bounded(MUL_LIMIT as int),
            tuple_bounded(self.origin.0, MUL_LIMIT as int),
            tuple_bounded(self.direction.0, MUL_LIMIT as int),
        ensures
            r.origin.0 == spec_apply(*matrix, self.origin.0),
            r.direction.0.x == spec_apply(*matrix, self.direction.0).x,
            r.direction.0.y == spec_apply(*matrix, self.direction.0).y,
            r.direction.0.z == spec_apply(*matrix, self.direction.0).z,
            r.direction.0.w == 0,
    {
        Ray::new(matrix.times_point(&self.origin), matrix.times_vector(&self.direction))
    }
}

/// One crossing of a ray and a shape: the parametric distance, and the
/// shape that was crossed.
#[derive(Clone, Debug)]
pub struct Intersection {
    pub t: i64,
    pub shape: Shape,
}

impl Intersection {
    /// An intersection at distance `t` with `shape`.
    pub fn new(t: i64, shape: Shape) -> (i: Intersection)
        ensures
            i.t == t,
            i.shape == shape,
    {
        Intersection { t, shape }
    }
}

/// The records stand in ascending order of `t`.
pub open spec fn sorted_by_t(s: Seq<Intersection>) -> bool {
    forall|i: int, j: int| 0 <= i < j < s.len() ==> #[trigger] s[i].t <= #[trigger] s[j].t
}

/// An ordered collection of intersections for one ray, ascending by `t`.
#[derive(Clone, Debug)]
pub struct Intersections {
    pub items: Vec<Intersection>,
}

impl Intersections {
    /// The records, ascending by `t`.
    pub open spec fn wf(self) -> bool {
        sorted_by_t(self.items@)
    }

    /// An empty collection.
    pub fn new() -> (xs: Intersections)
        ensures
            xs.wf(),
            xs.items@.len() == 0,
    {
        Intersections { items: Vec::new() }
    }

    /// Insert a record, keeping the records in ascending order of `t`:
    /// the new sequence is the old one with the record put in at some
    /// position.
    pub fn add(&mut self, i: Intersection)
        requires
            old(self).wf(),
        ensures
            final(self).wf(),
            final(self).items@.len() == old(self).items@.len() + 1,
            exists|p: int|
                0 <= p <= old(self).items@.len() && final(self).items@ == old(
                    self,
                ).items@.insert(p, i),
    {
        let mut pos: usize = 0;
        while pos < self.items.len() && self.items[pos].t <= i.t
            invariant
                pos <= self.items@.len(),
                forall|k: int| 0 <= k < pos ==> #[trigger] self.items@[k].t <= i.t,
            decreases self.items@.len() - pos,
        {
            pos = pos + 1;
        }
        proof {
            assert(pos < self.items@.len() ==> self.items@[pos as int].t > i.t);
        }
        let ghost old_items = self.items@;
        self.items.insert(pos, i);
        proof {
            assert(self.items@ == old_items.insert(pos as int, i));
            assert forall|a: int, b: int|
                0 <= a < b < self.items@.len() implies #[trigger] self.items@[a].t
                <= #[trigger] self.items@[b].t by {
                if a < pos && b < pos {
                } else if a < pos && b == pos {
                } else if a < pos && b > pos {
                } else if a == pos {
                    assert(self.items@[b] == old_items[b - 1]);
                    if b - 1 > pos {
                        assert(old_items[pos as int].t <= old_items[b - 1].t);
                    }
                } else {
                    assert(self.items@[a] == old_items[a - 1]);
                    assert(self.items@[b] == old_items[b - 1]);
                }
            }
        }
    }

    /// The hit: the first record, in ascending order of `t`, whose `t`
    /// is at least zero. `None` when every record lies behind the ray.
    pub fn hit(&self) -> (r: Option<&Intersection>)
        requires
            self.wf(),
        ensures
            (r is None) <==> (forall|k: int| 0 <= k < self.items@.len() ==> self.items@[k].t < 0),
            r matches Some(i) ==> exists|k: int|
                {
                    &&& 0 <= k < self.items@.len()
                    &&& *i == self.items@[k]
                    &&& i.t >= 0
                    &&& forall|j: int| 0 <= j < k ==> self.items@[j].t < 0
                },
    {
        let mut idx: usize = 0;
        while idx < self.items.len()
            invariant
                idx <= self.items@.len(),
                forall|j: int| 0 <= j < idx ==> self.items@[j].t < 0,
            decreases self.items@.len() - idx,
        {
            if self.items[idx].t >= 0 {
                return Some(&self.items[idx]);
            }
            idx = idx + 1;
        }
        None
    }

    /// How many records the collection holds.
    pub fn len(&self) -> (n: usize)
        ensures
            n == self.items@.len(),
    {
        self.items.len()
    }

    /// Whether the collection holds no record.
    pub fn is_empty(&self) -> (e: bool)
        ensures
            e == (self.items@.len() == 0),
    {
        self.items.is_empty()
    }

    /// The record at `index`, in ascending order of `t`.
    pub fn get(&self, index: usize) -> (i: &Intersection)
        requires
            index < self.items@.len(),
        ensures
            *i == self.items@[index as int],
    {
        &self.items[index]
    }
}

} // verus!
