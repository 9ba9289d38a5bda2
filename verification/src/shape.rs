//! Shapes: the unit sphere, placed in the world by its transform.

use vstd::prelude::*;

verus! {

use crate::SCALE;
use crate::fx::{div_fx, div_ok, is_sqrt, mul_fx, mul_ok, sqrt_floor};
use crate::matrix::{
    MAT_LIMIT,
    MUL_LIMIT,
    Matrix,
    det_g,
    identity_matrix,
    inverse_entry,
    is_identity,
};
use crate::materials::Material;
use crate::ray::{Intersection, Intersections, Ray};
use crate::space::{
    Point,
    Tuple,
    Vector,
    dot_fx,
    lemma_dot_fx_bound,
    mag_sq,
    tuple_bounded,
};
use crate::fx::{fx_mul, fx_sqrt, fx_div};

/// Component cap on object-space rays, under which the quadratic for a
/// unit sphere cannot overflow: one hundred units.
pub const RAY_LIMIT: i64 = 10_000_000_000;

/// A unit sphere at the object-space origin; world placement is carried
/// entirely by `transformation`.
#[derive(Clone, Debug)]
pub struct Sphere {
    pub transformation: Matrix,
    pub material: Material,
}

impl Sphere {
    /// A unit sphere with the identity transform and default material.
    pub fn new() -> (s: Sphere)
        ensures
            is_identity(s.transformation),
            s.material == Material::new_spec(),
    {
        Sphere { transformation: identity_matrix(), material: Material::new() }
    }

    /// A unit sphere with the given transform and default material.
    pub fn with_transform(transformation: Matrix) -> (s: Sphere)
        ensures
            s.transformation == transformation,
            s.material == Material::new_spec(),
    {
        Sphere { transformation, material: Material::new() }
    }

    /// The sphere's transform.
    pub fn transformation(&self) -> (m: &Matrix)
        ensures
            m == self.transformation,
    {
        &self.transformation
    }

    /// Replace the sphere's transform.
    pub fn set_transformation(&mut self, m: Matrix)
        ensures
            final(self).transformation == m,
            final(self).material == old(self).material,
    {
        self.transformation = m;
    }

    /// The sphere's material.
    pub fn material(&self) -> (m: &Material)
        ensures
            m == self.material,
    {
        &self.material
    }

    /// Replace the sphere's material.
    pub fn set_material(&mut self, m: Material)
        ensures
            final(self).material == m,
            final(self).transformation == old(self).transformation,
    {
        self.material = m;
    }

    /// Where the ray crosses this sphere: none when the discriminant is
    /// negative, else the two roots of the quadratic, lower root first.
    pub fn intersect(&self, ray: &Ray) -> (r: Vec<i64>)
        requires
            intersect_ok(*self, *ray),
        ensures
            sphere_disc(*self, *ray) < 0 ==> r@.len() == 0,
            sphere_disc(*self, *ray) >= 0 ==> {
                &&& r@.len() == 2
                &&& r@[0] == sphere_t1(*self, *ray)
                &&& r@[1] == sphere_t2(*self, *ray)
            },
    {
        let ghost g = self.transformation.grid();
        let opt = self.transformation.inverse();
        proof {
            if opt is None {
                let (i, j) = choose|i: int, j: int|
                    0 <= i < 4 && 0 <= j < 4 && !crate::space::fits(
                        #[trigger] inverse_entry(g, i, j),
                    );
                assert(false);
            }
        }
        let inv = opt.unwrap();
        proof {
            assert forall|r2: int, c2: int|
                0 <= r2 < 4 && 0 <= c2 < 4 implies -(MUL_LIMIT as int) <= #[trigger] inv.val(
                r2,
                c2,
            ) <= MUL_LIMIT as int by {
                assert(inv.val(r2, c2) == inverse_entry(g, r2, c2));
            }
        }
        let ray2 = ray.transform(&inv);
        proof {
            assert(ray2.origin.0 == obj_origin(*self, *ray));
            assert(ray2.direction.0 == obj_direction(*self, *ray));
        }
        let p0 = Point::new(0, 0, 0);
        let sphere_to_ray = ray2.origin.minus_point(&p0);
        proof {
            assert(sphere_to_ray.0 == sphere_oc(*self, *ray));
            lemma_dot_fx_bound(ray2.direction.0, ray2.direction.0, 10_100_000_000);
            lemma_dot_fx_bound(ray2.direction.0, sphere_to_ray.0, 10_100_000_000);
            lemma_dot_fx_bound(sphere_to_ray.0, sphere_to_ray.0, 10_100_000_000);
        }
        let qa = ray2.direction.dot(&ray2.direction);
        let qb = 2 * ray2.direction.dot(&sphere_to_ray);
        let qc = sphere_to_ray.dot(&sphere_to_ray) - SCALE;
        proof {
            crate::fx::lemma_mul_fx_bound(
                qb as int,
                qb as int,
                8_200_000_000_000,
                8_200_000_000_000,
            );
            crate::fx::lemma_mul_fx_bound(
                4 * qa as int,
                qc as int,
                16_400_000_000_000,
                4_200_000_000_000,
            );
        }
        let disc = fx_mul(qb, qb) - fx_mul(4 * qa, qc);
        proof {
            assert(disc == sphere_disc(*self, *ray));
        }
        if disc >= 0 {
            let sq = fx_sqrt(disc);
            proof {
                assert((sq as int) * (sq as int) <= (disc as int) * (SCALE as int));
                assert((disc as int) * (SCALE as int) <= 1_400_000_000_000_000_000 * (
                SCALE as int)) by (nonlinear_arith)
                    requires
                        0 <= disc as int <= 1_400_000_000_000_000_000,
                        (SCALE as int) == 100_000_000,
                {
                }
                assert((sq as int) <= 12_000_000_000_000) by (nonlinear_arith)
                    requires
                        0 <= sq as int,
                        (sq as int) * (sq as int) <= 140_000_000_000_000_000_000_000_000,
                {
                }
            }
            let t1 = fx_div(-qb - sq, 2 * qa);
            let t2 = fx_div(-qb + sq, 2 * qa);
            let mut out: Vec<i64> = Vec::new();
            out.push(t1);
            out.push(t2);
            out
        } else {
            Vec::new()
        }
    }

    /// The world-space surface normal at a world point on the sphere:
    /// the point is carried into object space, the surface vector taken
    /// there, carried back through the transposed inverse, and
    /// normalized.
    pub fn normal_at(&self, p: &Point) -> (n: Vector)
        requires
            normal_ok(*self, *p),
        ensures
            ({
                let wn = sphere_wn(*self, *p);
                let m = sqrt_floor(mag_sq(wn));
                &&& n.0.x == div_fx(wn.x as int, m)
                &&& n.0.y == div_fx(wn.y as int, m)
                &&& n.0.z == div_fx(wn.z as int, m)
                &&& n.0.w == 0
                &&& tuple_bounded(n.0, SCALE as int)
            }),
    {
        let ghost g = self.transformation.grid();
        let opt = self.transformation.inverse();
        proof {
            if opt is None {
                let (i, j) = choose|i: int, j: int|
                    0 <= i < 4 && 0 <= j < 4 && !crate::space::fits(
                        #[trigger] inverse_entry(g, i, j),
                    );
                assert(false);
            }
        }
        let inv = opt.unwrap();
        proof {
            assert forall|r2: int, c2: int|
                0 <= r2 < 4 && 0 <= c2 < 4 implies -(MUL_LIMIT as int) <= #[trigger] inv.val(
                r2,
                c2,
            ) <= MUL_LIMIT as int by {
                assert(inv.val(r2, c2) == inverse_entry(g, r2, c2));
            }
        }
        let op = Point(inv.times_tuple(&p.0));
        proof {
            assert(op.0 == apply_inverse(g, p.0));
        }
        let on = op.subtract_origin();
        let invt = inv.transpose();
        proof {
            assert forall|r2: int, c2: int|
                0 <= r2 < 4 && 0 <= c2 < 4 implies -(MUL_LIMIT as int) <= #[trigger] invt.val(
                r2,
                c2,
            ) <= MUL_LIMIT as int by {
                assert(invt.val(r2, c2) == inv.val(c2, r2));
            }
        }
        let wn = invt.times_vector(&on);
        proof {
            assert(wn.0 == sphere_wn(*self, *p));
        }
        let n = wn.normalize();
        n.unwrap()
    }

    /// A fresh sphere with the same transform and material.
    pub fn duplicate(&self) -> (s: Sphere)
        ensures
            s.transformation.rows == self.transformation.rows,
            s.transformation.cols == self.transformation.cols,
            s.transformation.values@ == self.transformation.values@,
            s.material == self.material,
    {
        Sphere { transformation: self.transformation.duplicate(), material: self.material }
    }
}

impl Default for Sphere {
    /// The default sphere is the fresh unit sphere.
    fn default() -> (s: Sphere)
        ensures
            is_identity(s.transformation),
            s.material == Material::new_spec(),
    {
        Sphere::new()
    }
}

/// Row `i` of a grid's inverse, dotted with a tuple.
pub open spec fn inv_row_dot(g: Seq<Seq<int>>, i: int, t: Tuple) -> int {
    mul_fx(inverse_entry(g, i, 0), t.x as int) + mul_fx(inverse_entry(g, i, 1), t.y as int)
        + mul_fx(inverse_entry(g, i, 2), t.z as int) + mul_fx(inverse_entry(g, i, 3), t.w as int)
}

/// A grid's inverse applied to a tuple.
pub open spec fn apply_inverse(g: Seq<Seq<int>>, t: Tuple) -> Tuple {
    Tuple {
        x: inv_row_dot(g, 0, t) as i64,
        y: inv_row_dot(g, 1, t) as i64,
        z: inv_row_dot(g, 2, t) as i64,
        w: inv_row_dot(g, 3, t) as i64,
    }
}

/// Row `i` of the transposed inverse, dotted with a tuple.
pub open spec fn inv_t_row_dot(g: Seq<Seq<int>>, i: int, t: Tuple) -> int {
    mul_fx(inverse_entry(g, 0, i), t.x as int) + mul_fx(inverse_entry(g, 1, i), t.y as int)
        + mul_fx(inverse_entry(g, 2, i), t.z as int) + mul_fx(inverse_entry(g, 3, i), t.w as int)
}

/// Every entry of a grid's inverse within `MUL_LIMIT` of zero.
pub open spec fn inv_entries_bounded(g: Seq<Seq<int>>) -> bool {
    forall|i: int, j: int|
        0 <= i < 4 && 0 <= j < 4 ==> -(MUL_LIMIT as int) <= #[trigger] inverse_entry(g, i, j)
            <= MUL_LIMIT as int
}

/// The world ray's origin carried into the sphere's object space.
pub open spec fn obj_origin(s: Sphere, ray: Ray) -> Tuple {
    apply_inverse(s.transformation.grid(), ray.origin.0)
}

/// The world ray's direction carried into the sphere's object space;
/// the fourth component is cleared on the way.
pub open spec fn obj_direction(s: Sphere, ray: Ray) -> Tuple {
    let a = apply_inverse(s.transformation.grid(), ray.direction.0);
    Tuple { x: a.x, y: a.y, z: a.z, w: 0 }
}

/// The vector from the sphere's center to the object-space ray origin.
pub open spec fn sphere_oc(s: Sphere, ray: Ray) -> Tuple {
    let o = obj_origin(s, ray);
    Tuple { x: o.x, y: o.y, z: o.z, w: (o.w - SCALE) as i64 }
}

/// The quadratic coefficient `a`: the direction dotted with itself.
pub open spec fn sphere_qa(s: Sphere, ray: Ray) -> int {
    dot_fx(obj_direction(s, ray), obj_direction(s, ray))
}

/// The quadratic coefficient `b`: twice the direction dotted with the
/// center-to-origin vector.
pub open spec fn sphere_qb(s: Sphere, ray: Ray) -> int {
    2 * dot_fx(obj_direction(s, ray), sphere_oc(s, ray))
}

/// The quadratic coefficient `c`: the center-to-origin vector dotted
/// with itself, minus the unit radius.
pub open spec fn sphere_qc(s: Sphere, ray: Ray) -> int {
    dot_fx(sphere_oc(s, ray), sphere_oc(s, ray)) - SCALE
}

/// The discriminant `b * b - (4 * a) * c` of the sphere quadratic.
pub open spec fn sphere_disc(s: Sphere, ray: Ray) -> int {
    mul_fx(sphere_qb(s, ray), sphere_qb(s, ray)) - mul_fx(4 * sphere_qa(s, ray), sphere_qc(s, ray))
}

/// The lower root `(-b - sqrt(disc)) / (2 a)` of the sphere quadratic.
pub open spec fn sphere_t1(s: Sphere, ray: Ray) -> int {
    div_fx(
        -sphere_qb(s, ray) - sqrt_floor(sphere_disc(s, ray) * SCALE),
        2 * sphere_qa(s, ray),
    )
}

/// The upper root `(-b + sqrt(disc)) / (2 a)` of the sphere quadratic.
pub open spec fn sphere_t2(s: Sphere, ray: Ray) -> int {
    div_fx(
        -sphere_qb(s, ray) + sqrt_floor(sphere_disc(s, ray) * SCALE),
        2 * sphere_qa(s, ray),
    )
}

/// What the machine asks of a sphere intersection: an invertible,
/// representable transform, a ray it keeps small in object space, a
/// direction of nonzero length, and roots that fit in a scalar.
pub open spec fn intersect_ok(s: Sphere, ray: Ray) -> bool {
    &&& s.transformation.wf()
    &&& s.transformation.rows == 4
    &&& s.transformation.cols == 4
    &&& s.transformation.entries_bounded(MAT_LIMIT as int)
    &&& det_g(s.transformation.grid()) != 0
    &&& inv_entries_bounded(s.transformation.grid())
    &&& tuple_bounded(ray.origin.0, MUL_LIMIT as int)
    &&& tuple_bounded(ray.direction.0, MUL_LIMIT as int)
    &&& tuple_bounded(obj_origin(s, ray), RAY_LIMIT as int)
    &&& tuple_bounded(obj_direction(s, ray), RAY_LIMIT as int)
    &&& sphere_qa(s, ray) != 0
    &&& (sphere_disc(s, ray) >= 0 ==> div_ok(
        -sphere_qb(s, ray) - sqrt_floor(sphere_disc(s, ray) * SCALE),
        2 * sphere_qa(s, ray),
    ) && div_ok(
        -sphere_qb(s, ray) + sqrt_floor(sphere_disc(s, ray) * SCALE),
        2 * sphere_qa(s, ray),
    ))
}

/// The object-space world normal before normalization: the transposed
/// inverse applied to the object-space surface vector.
pub open spec fn sphere_wn(s: Sphere, p: Point) -> Tuple {
    let g = s.transformation.grid();
    let op = apply_inverse(g, p.0);
    let on = Tuple { x: op.x, y: op.y, z: op.z, w: 0 };
    Tuple {
        x: inv_t_row_dot(g, 0, on) as i64,
        y: inv_t_row_dot(g, 1, on) as i64,
        z: inv_t_row_dot(g, 2, on) as i64,
        w: 0,
    }
}

/// What the machine asks of a sphere normal: an invertible,
/// representable transform, a point it keeps small in object space, and
/// a nonzero pre-normalization normal.
pub open spec fn normal_ok(s: Sphere, p: Point) -> bool {
    &&& s.transformation.wf()
    &&& s.transformation.rows == 4
    &&& s.transformation.cols == 4
    &&& s.transformation.entries_bounded(MAT_LIMIT as int)
    &&& det_g(s.transformation.grid()) != 0
    &&& inv_entries_bounded(s.transformation.grid())
    &&& tuple_bounded(p.0, MUL_LIMIT as int)
    &&& tuple_bounded(apply_inverse(s.transformation.grid(), p.0), MUL_LIMIT as int)
    &&& tuple_bounded(sphere_wn(s, p), crate::space::MAG_LIMIT as int)
    &&& mag_sq(sphere_wn(s, p)) != 0
}

/// A sphere's normal is unit length after normalization: whenever the
/// pre-normalization world normal is at least a hundredth of a unit
/// long, the vector `normal_at` returns has magnitude within `EPSILON`
/// of one unit.
pub proof fn lemma_normal_unit_length(s: Sphere, p: Point)
    requires
        normal_ok(s, p),
        sqrt_floor(mag_sq(sphere_wn(s, p))) >= 1_000_000,
    ensures
        ({
            let wn = sphere_wn(s, p);
            let m = sqrt_floor(mag_sq(wn));
            let n = Tuple {
                x: div_fx(wn.x as int, m) as i64,
                y: div_fx(wn.y as int, m) as i64,
                z: div_fx(wn.z as int, m) as i64,
                w: 0,
            };
            vstd::math::abs(sqrt_floor(mag_sq(n)) - SCALE) < crate::EPSILON
        }),
{
    crate::space::lemma_normalize_unit_length(sphere_wn(s, p));
}

/// A shape: today always a sphere.
#[derive(Clone, Debug)]
pub enum Shape {
    Sphere(Sphere),
}

/// The shape is a sphere with the same transform entries and material.
pub open spec fn sphere_like(a: Shape, s: Sphere) -> bool {
    &&& a matches Shape::Sphere(s2)
    &&& a->Sphere_0.transformation.rows == s.transformation.rows
    &&& a->Sphere_0.transformation.cols == s.transformation.cols
    &&& a->Sphere_0.transformation.values@ == s.transformation.values@
    &&& a->Sphere_0.material == s.material
}

impl Shape {
    /// What the machine asks of an intersection query on this shape.
    pub open spec fn spec_intersect_ok(self, ray: Ray) -> bool {
        match self {
            Shape::Sphere(s) => intersect_ok(s, ray),
        }
    }

    /// Cross this shape with a ray, feeding each crossing into the
    /// caller's collection, tagged with a copy of the shape.
    pub fn intersect(&self, ray: &Ray, intersections: &mut Intersections)
        requires
            self.spec_intersect_ok(*ray),
            old(intersections).wf(),
        ensures
            final(intersections).wf(),
            *self matches Shape::Sphere(s) ==> {
                &&& (sphere_disc(s, *ray) < 0 ==> final(intersections).items@ == old(
                    intersections,
                ).items@)
                &&& (sphere_disc(s, *ray) >= 0 ==> {
                    &&& final(intersections).items@.len() == old(intersections).items@.len() + 2
                    &&& exists|p1: int, i1: Intersection, p2: int, i2: Intersection|
                        {
                            &&& 0 <= p1 <= old(intersections).items@.len()
                            &&& 0 <= p2 <= old(intersections).items@.len() + 1
                            &&& i1.t == sphere_t1(s, *ray)
                            &&& sphere_like(i1.shape, s)
                            &&& i2.t == sphere_t2(s, *ray)
                            &&& sphere_like(i2.shape, s)
                            &&& final(intersections).items@ == old(
                                intersections,
                            ).items@.insert(p1, i1).insert(p2, i2)
                        }
                })
            },
    {
        let ts = match self {
            Shape::Sphere(sphere) => sphere.intersect(ray),
        };
        let ghost before = intersections.items@;
        if ts.len() == 2 {
            let first = Intersection::new(ts[0], self.duplicate());
            let ghost g1 = first;
            intersections.add(first);
            let ghost mid = intersections.items@;
            let second = Intersection::new(ts[1], self.duplicate());
            let ghost g2 = second;
            intersections.add(second);
            proof {
                let p1 = choose|p: int| 0 <= p <= before.len() && mid == before.insert(p, g1);
                let p2 = choose|p: int|
                    0 <= p <= mid.len() && intersections.items@ == mid.insert(p, g2);
                assert(0 <= p1 <= before.len() && 0 <= p2 <= before.len() + 1 && g1.t
                    == sphere_t1(self->Sphere_0, *ray) && sphere_like(g1.shape, self->Sphere_0)
                    && g2.t == sphere_t2(self->Sphere_0, *ray) && sphere_like(
                    g2.shape,
                    self->Sphere_0,
                ) && intersections.items@ == before.insert(p1, g1).insert(p2, g2));
            }
        }
    }

    /// What the machine asks of a normal query on this shape.
    pub open spec fn spec_normal_ok(self, p: Point) -> bool {
        match self {
            Shape::Sphere(s) => normal_ok(s, p),
        }
    }

    /// The world-space surface normal at a world point on this shape.
    pub fn normal_at(&self, p: &Point) -> (n: Vector)
        requires
            self.spec_normal_ok(*p),
        ensures
            *self matches Shape::Sphere(s) ==> ({
                let wn = sphere_wn(s, *p);
                let m = sqrt_floor(mag_sq(wn));
                &&& n.0.x == div_fx(wn.x as int, m)
                &&& n.0.y == div_fx(wn.y as int, m)
                &&& n.0.z == div_fx(wn.z as int, m)
                &&& n.0.w == 0
                &&& tuple_bounded(n.0, SCALE as int)
            }),
    {
        match self {
            Shape::Sphere(sphere) => sphere.normal_at(p),
        }
    }
    /// The shape's material, whatever the variant.
    pub open spec fn spec_material(self) -> Material {
        match self {
            Shape::Sphere(s) => s.material,
        }
    }

    /// The shape's material.
    pub fn material(&self) -> (m: &Material)
        ensures
            m == self.spec_material(),
    {
        match self {
            Shape::Sphere(s) => s.material(),
        }
    }

    /// Replace the shape's material.
    pub fn set_material(&mut self, m: Material)
        ensures
            final(self).spec_material() == m,
            *old(self) matches Shape::Sphere(s) ==> (*final(self) matches Shape::Sphere(s2)
                && s2.transformation == s.transformation),
    {
        match self {
            Shape::Sphere(s) => s.set_material(m),
        }
    }

    /// A fresh shape with the same fields.
    pub fn duplicate(&self) -> (r: Shape)
        ensures
            self matches Shape::Sphere(s) ==> (r matches Shape::Sphere(s2)
                && s2.transformation.rows == s.transformation.rows
                && s2.transformation.cols == s.transformation.cols
                && s2.transformation.values@ == s.transformation.values@
                && s2.material == s.material),
    {
        match self {
            Shape::Sphere(s) => Shape::Sphere(s.duplicate()),
        }
    }
}

} // verus!
