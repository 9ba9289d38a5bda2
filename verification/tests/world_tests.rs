use tracer_core::color::Color;
use tracer_core::lighting::PointLight;
use tracer_core::matrix::Matrix;
use tracer_core::shape::{Shape, Sphere};
use tracer_core::space::Point;
use tracer_core::world::World;
use tracer_core::SCALE;

fn fx(x: f64) -> i64 {
    (x * SCALE as f64).round() as i64
}

fn shapes_match(a: &Shape, b: &Shape) -> bool {
    let Shape::Sphere(sa) = a;
    let Shape::Sphere(sb) = b;
    sa.transformation.approx_eq(&sb.transformation) && sa.material == sb.material
}

fn default_world() -> World {
    let mut world = World::new();
    let light = PointLight::new(
        Point::new(fx(-10.0), fx(10.0), fx(-10.0)),
        Color::new(fx(1.0), fx(1.0), fx(1.0)),
    );
    let mut s1 = Sphere::new();
    let mut material = *s1.material();
    material.color = Color::new(fx(0.8), fx(1.0), fx(0.6));
    material.diffuse = fx(0.7);
    material.specular = fx(0.2);
    s1.set_material(material);
    let mut s2 = Sphere::new();
    s2.set_transformation(Matrix::scaling(fx(0.5), fx(0.5), fx(0.5)));
    world.light = Some(light);
    world.objects.push(Shape::Sphere(s1));
    world.objects.push(Shape::Sphere(s2));

    world
}

#[test]
fn test_world_init() {
    let w = World::new();

    assert!(w.light.is_none());
    assert_eq!(w.objects.len(), 0);
}

#[test]
fn test_default_world() {
    let w = default_world();

    assert!(w.light.is_some());
    assert_eq!(w.objects.len(), 2);

    let light = PointLight::new(
        Point::new(fx(-10.0), fx(10.0), fx(-10.0)),
        Color::new(fx(1.0), fx(1.0), fx(1.0)),
    );
    assert_eq!(Some(light), w.light);

    let mut s1 = Sphere::new();
    let mut material = *s1.material();
    material.color = Color::new(fx(0.8), fx(1.0), fx(0.6));
    material.diffuse = fx(0.7);
    material.specular = fx(0.2);
    s1.set_material(material);

    let mut s2 = Sphere::new();
    s2.set_transformation(Matrix::scaling(fx(0.5), fx(0.5), fx(0.5)));

    assert!(shapes_match(&Shape::Sphere(s1), &w.objects[0]));
    assert!(shapes_match(&Shape::Sphere(s2), &w.objects[1]));
}
