use tracer_core::matrix::Matrix;
use tracer_core::ray::{Intersection, Intersections, Ray};
use tracer_core::shape::{Shape, Sphere};
use tracer_core::space::{Point, Vector};
use tracer_core::{approx_equal, SCALE};

fn fx(x: f64) -> i64 {
    (x * SCALE as f64).round() as i64
}

fn shapes_match(a: &Shape, b: &Shape) -> bool {
    let Shape::Sphere(sa) = a;
    let Shape::Sphere(sb) = b;
    sa.transformation.approx_eq(&sb.transformation) && sa.material == sb.material
}

#[test]
fn test_ray_construction() {
    let p = Point::new(fx(1.0), fx(2.0), fx(3.0));
    let v = Vector::new(fx(4.0), fx(5.0), fx(6.0));

    let r = Ray::new(p, v);
    assert!(r.origin.approx_eq(&Point::new(fx(1.0), fx(2.0), fx(3.0))));
    assert!(r.direction.approx_eq(&Vector::new(fx(4.0), fx(5.0), fx(6.0))));
}

#[test]
fn test_point_computation() {
    let p = Point::new(fx(2.0), fx(3.0), fx(4.0));
    let v = Vector::new(fx(1.0), 0, 0);
    let r = Ray::new(p, v);

    assert!(r.position(fx(0.0)).approx_eq(&Point::new(fx(2.0), fx(3.0), fx(4.0))));
    assert!(r.position(fx(1.0)).approx_eq(&Point::new(fx(3.0), fx(3.0), fx(4.0))));
    assert!(r.position(fx(-1.0)).approx_eq(&Point::new(fx(1.0), fx(3.0), fx(4.0))));
    assert!(r.position(fx(2.5)).approx_eq(&Point::new(fx(4.5), fx(3.0), fx(4.0))));
}

#[test]
fn test_intersection() {
    let s = Shape::Sphere(Sphere::new());
    let i = Intersection::new(fx(3.5), s.duplicate());
    assert_eq!(i.t, fx(3.5));
    assert!(shapes_match(&i.shape, &s));
}

#[test]
fn test_intersections_positive() {
    let s = Shape::Sphere(Sphere::new());
    let i1 = Intersection::new(fx(1.0), s.duplicate());
    let i2 = Intersection::new(fx(2.0), s.duplicate());

    let mut xs = Intersections::new();
    xs.add(i2);
    xs.add(i1);
    let hit = xs.hit().expect("a visible hit");
    assert_eq!(hit.t, fx(1.0));
    assert!(shapes_match(&hit.shape, &s));
}

#[test]
fn test_intersections_some_negative() {
    let s = Shape::Sphere(Sphere::new());
    let i1 = Intersection::new(fx(-1.0), s.duplicate());
    let i2 = Intersection::new(fx(1.0), s.duplicate());

    let mut xs = Intersections::new();
    xs.add(i2);
    xs.add(i1);
    let hit = xs.hit().expect("a visible hit");
    assert_eq!(hit.t, fx(1.0));
}

#[test]
fn test_intersections_all_negative() {
    let s = Shape::Sphere(Sphere::new());
    let i1 = Intersection::new(fx(-2.0), s.duplicate());
    let i2 = Intersection::new(fx(-1.0), s.duplicate());

    let mut xs = Intersections::new();
    xs.add(i2);
    xs.add(i1);
    assert!(xs.hit().is_none());
}

#[test]
fn test_intersections_more_values() {
    let s = Shape::Sphere(Sphere::new());
    let i1 = Intersection::new(fx(5.0), s.duplicate());
    let i2 = Intersection::new(fx(7.0), s.duplicate());
    let i3 = Intersection::new(fx(-3.0), s.duplicate());
    let i4 = Intersection::new(fx(2.0), s.duplicate());

    let mut xs = Intersections::new();
    xs.add(i1);
    xs.add(i2);
    xs.add(i3);
    xs.add(i4);
    let hit = xs.hit().expect("a visible hit");
    assert_eq!(hit.t, fx(2.0));
}

#[test]
fn test_intersections_stay_sorted() {
    let s = Shape::Sphere(Sphere::new());
    let mut xs = Intersections::new();
    for t in [5.0, 7.0, -3.0, 2.0] {
        xs.add(Intersection::new(fx(t), s.duplicate()));
    }
    assert_eq!(xs.len(), 4);
    assert!(!xs.is_empty());
    for k in 1..xs.len() {
        assert!(xs.get(k - 1).t <= xs.get(k).t);
    }
    assert_eq!(xs.get(0).t, fx(-3.0));
    assert_eq!(xs.get(3).t, fx(7.0));
}

#[test]
fn test_ray_translation() {
    let r = Ray::new(
        Point::new(fx(1.0), fx(2.0), fx(3.0)),
        Vector::new(0, fx(1.0), 0),
    );
    let m = Matrix::translation(fx(3.0), fx(4.0), fx(5.0));
    let r2 = r.transform(&m);
    assert!(r2.origin.approx_eq(&Point::new(fx(4.0), fx(6.0), fx(8.0))));
    assert!(r2.direction.approx_eq(&Vector::new(0, fx(1.0), 0)));
}

#[test]
fn test_ray_scaling() {
    let r = Ray::new(
        Point::new(fx(1.0), fx(2.0), fx(3.0)),
        Vector::new(0, fx(1.0), 0),
    );
    let m = Matrix::scaling(fx(2.0), fx(3.0), fx(4.0));
    let r2 = r.transform(&m);
    assert!(r2.origin.approx_eq(&Point::new(fx(2.0), fx(6.0), fx(12.0))));
    assert!(r2.direction.approx_eq(&Vector::new(0, fx(3.0), 0)));
}
