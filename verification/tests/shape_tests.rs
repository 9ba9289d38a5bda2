use std::f64::consts::PI;
use tracer_core::matrix::{identity_matrix, Matrix};
use tracer_core::materials::Material;
use tracer_core::ray::{Intersections, Ray};
use tracer_core::shape::{Shape, Sphere};
use tracer_core::space::{Point, Vector};
use tracer_core::SCALE;

fn fx(x: f64) -> i64 {
    (x * SCALE as f64).round() as i64
}

fn shapes_match(a: &Shape, b: &Shape) -> bool {
    let Shape::Sphere(sa) = a;
    let Shape::Sphere(sb) = b;
    sa.transformation.approx_eq(&sb.transformation) && sa.material == sb.material
}

#[test]
fn test_intersect_sphere() {
    let r = Ray::new(Point::new(0, 0, fx(-5.0)), Vector::new(0, 0, fx(1.0)));
    let s = Shape::Sphere(Sphere::new());

    let mut is = Intersections::new();
    s.intersect(&r, &mut is);
    assert_eq!(is.len(), 2);
    let i = is.get(0);
    assert_eq!(i.t, fx(4.0), "First intersection");
    assert!(shapes_match(&i.shape, &s));
    let i = is.get(1);
    assert_eq!(i.t, fx(6.0), "Second intersection");
    assert!(shapes_match(&i.shape, &s));
}

#[test]
fn test_intersect_sphere_tangent() {
    let r = Ray::new(Point::new(0, fx(1.0), fx(-5.0)), Vector::new(0, 0, fx(1.0)));
    let s = Shape::Sphere(Sphere::new());

    let mut is = Intersections::new();
    s.intersect(&r, &mut is);
    assert_eq!(is.len(), 2);

    let i = is.get(0);
    assert_eq!(i.t, fx(5.0), "First intersection");
    assert!(shapes_match(&i.shape, &s));
    let i = is.get(1);
    assert_eq!(i.t, fx(5.0), "Second intersection");
    assert!(shapes_match(&i.shape, &s));
}

#[test]
fn test_intersect_sphere_miss() {
    let r = Ray::new(Point::new(0, fx(2.0), fx(-5.0)), Vector::new(0, 0, fx(1.0)));
    let s = Shape::Sphere(Sphere::new());

    let mut is = Intersections::new();
    s.intersect(&r, &mut is);
    assert_eq!(is.len(), 0);
}

#[test]
fn test_intersect_sphere_from_inside() {
    let r = Ray::new(Point::new(0, 0, 0), Vector::new(0, 0, fx(1.0)));
    let s = Shape::Sphere(Sphere::new());
    let mut is = Intersections::new();
    s.intersect(&r, &mut is);
    assert_eq!(is.len(), 2);

    let i = is.get(0);
    assert_eq!(i.t, fx(-1.0), "First intersection");
    assert!(shapes_match(&i.shape, &s));

    let i = is.get(1);
    assert_eq!(i.t, fx(1.0), "Second intersection");
    assert!(shapes_match(&i.shape, &s));
}

#[test]
fn test_intersect_sphere_from_behind() {
    let r = Ray::new(Point::new(0, 0, fx(5.0)), Vector::new(0, 0, fx(1.0)));
    let s = Shape::Sphere(Sphere::new());

    let mut is = Intersections::new();
    s.intersect(&r, &mut is);
    assert_eq!(is.len(), 2);

    let i = is.get(0);
    assert_eq!(i.t, fx(-6.0), "First intersection");
    assert!(shapes_match(&i.shape, &s));

    let i = is.get(1);
    assert_eq!(i.t, fx(-4.0), "Second intersection");
    assert!(shapes_match(&i.shape, &s));
}

#[test]
fn test_sphere_default_transformation() {
    let s = Sphere::new();
    assert!(s.transformation.approx_eq(&identity_matrix()));
}

#[test]
fn test_new_transformation() {
    let mut s = Sphere::new();
    let t = Matrix::translation(fx(2.0), fx(3.0), fx(4.0));
    s.set_transformation(t.duplicate());
    assert!(s.transformation.approx_eq(&t));
}

#[test]
fn test_with_transformation() {
    let t = Matrix::translation(fx(2.0), fx(3.0), fx(4.0));
    let s = Sphere::with_transform(t.duplicate());
    assert!(s.transformation.approx_eq(&t));
}

#[test]
fn test_intersect_scaled_sphere() {
    let r = Ray::new(Point::new(0, 0, fx(-5.0)), Vector::new(0, 0, fx(1.0)));
    let mut s = Sphere::new();
    s.set_transformation(Matrix::scaling(fx(2.0), fx(2.0), fx(2.0)));
    let s = Shape::Sphere(s);

    let mut is = Intersections::new();
    s.intersect(&r, &mut is);
    assert_eq!(is.len(), 2);

    assert_eq!(is.get(0).t, fx(3.0), "First intersection");
    assert_eq!(is.get(1).t, fx(7.0), "Second intersection");
}

#[test]
fn test_intersect_translated_sphere() {
    let r = Ray::new(Point::new(0, 0, fx(-5.0)), Vector::new(0, 0, fx(1.0)));
    let mut s = Sphere::new();
    s.set_transformation(Matrix::translation(fx(5.0), 0, 0));
    let s = Shape::Sphere(s);

    let mut is = Intersections::new();
    s.intersect(&r, &mut is);

    assert_eq!(is.len(), 0);
}

#[test]
fn test_sphere_normal_x() {
    let s = Sphere::new();
    let n = s.normal_at(&Point::new(fx(1.0), 0, 0));
    assert!(n.approx_eq(&Vector::new(fx(1.0), 0, 0)));
}

#[test]
fn test_sphere_normal_y() {
    let s = Sphere::new();
    let n = s.normal_at(&Point::new(0, fx(1.0), 0));
    assert!(n.approx_eq(&Vector::new(0, fx(1.0), 0)));
}

#[test]
fn test_sphere_normal_z() {
    let s = Sphere::new();
    let n = s.normal_at(&Point::new(0, 0, fx(1.0)));
    assert!(n.approx_eq(&Vector::new(0, 0, fx(1.0))));
}

#[test]
fn test_sphere_normal_nonaxial() {
    let trt = fx(3.0_f64.sqrt() / 3.0);
    let s = Sphere::new();
    let n = s.normal_at(&Point::new(trt, trt, trt));
    assert!(n.approx_eq(&Vector::new(trt, trt, trt)));
}

#[test]
fn test_sphere_normal_is_normalized() {
    let trt = fx(3.0_f64.sqrt() / 3.0);
    let s = Sphere::new();
    let n = s.normal_at(&Point::new(trt, trt, trt));
    assert!(n.approx_eq(&n.normalize().unwrap()));
}

#[test]
fn test_sphere_translated_normal() {
    let s = Sphere::with_transform(Matrix::translation(0, fx(1.0), 0));
    let n = s.normal_at(&Point::new(0, fx(1.70711), fx(-0.70711)));
    assert!(n.approx_eq(&Vector::new(0, fx(0.70711), fx(-0.70711))));
}

#[test]
fn test_sphere_transformed() {
    let s = Sphere::with_transform(
        Matrix::scaling(fx(1.0), fx(0.5), fx(1.0)).times_matrix(&Matrix::rotation_z(fx(PI / 5.0))),
    );
    let hsq = fx(2.0_f64.sqrt() / 2.0);
    let n = s.normal_at(&Point::new(0, hsq, -hsq));
    assert!(n.approx_eq(&Vector::new(0, fx(0.97014), fx(-0.24254))));
}

#[test]
fn test_sphere_default_material() {
    let s = Sphere::new();
    assert_eq!(s.material, Material::new());
}

#[test]
fn test_sphere_assign_material() {
    let mut s = Sphere::new();
    let mut m = Material::new();
    m.ambient = fx(1.0);
    s.set_material(m);

    assert_eq!(s.material, m);
}
