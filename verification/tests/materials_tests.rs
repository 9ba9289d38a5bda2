use tracer_core::color::Color;
use tracer_core::lighting::PointLight;
use tracer_core::materials::Material;
use tracer_core::space::{Point, Vector};
use tracer_core::{approx_equal, SCALE};

fn fx(x: f64) -> i64 {
    (x * SCALE as f64).round() as i64
}

#[test]
fn test_point_light() {
    let intensity = Color::new(fx(1.0), fx(1.0), fx(1.0));
    let position = Point::new(0, 0, 0);

    let light = PointLight::new(position, intensity);
    assert_eq!(light.position(), position);
    assert_eq!(light.intensity(), intensity);
}

#[test]
fn test_material() {
    let m = Material::new();
    assert!(m.color.approx_eq(&Color::new(fx(1.0), fx(1.0), fx(1.0))));
    assert!(approx_equal(m.ambient, fx(0.1)));
    assert!(approx_equal(m.diffuse, fx(0.9)));
    assert!(approx_equal(m.specular, fx(0.9)));
    assert!(approx_equal(m.shininess, fx(200.0)));
}

#[test]
fn test_lighting_eye_between_light_and_surface() {
    let m = Material::new();
    let position = Point::new(0, 0, 0);

    let eyev = Vector::new(0, 0, fx(-1.0));
    let normalv = Vector::new(0, 0, fx(-1.0));
    let light = PointLight::new(
        Point::new(0, 0, fx(-10.0)),
        Color::new(fx(1.0), fx(1.0), fx(1.0)),
    );
    let result = m.lighting(&light, &position, &eyev, &normalv);
    assert!(result.approx_eq(&Color::new(fx(1.9), fx(1.9), fx(1.9))));
}

#[test]
fn test_eye_between_light_and_surface_at_45() {
    let m = Material::new();
    let position = Point::new(0, 0, 0);

    let sqt = fx(2.0_f64.sqrt() / 2.0);
    let eyev = Vector::new(0, sqt, -sqt);
    let normalv = Vector::new(0, 0, fx(-1.0));
    let light = PointLight::new(
        Point::new(0, 0, fx(-10.0)),
        Color::new(fx(1.0), fx(1.0), fx(1.0)),
    );
    let result = m.lighting(&light, &position, &eyev, &normalv);
    assert!(result.approx_eq(&Color::new(fx(1.0), fx(1.0), fx(1.0))));
}

#[test]
fn test_eye_opp_surface_light_45() {
    let m = Material::new();
    let position = Point::new(0, 0, 0);

    let eyev = Vector::new(0, 0, fx(-1.0));
    let normalv = Vector::new(0, 0, fx(-1.0));
    let light = PointLight::new(
        Point::new(0, fx(10.0), fx(-10.0)),
        Color::new(fx(1.0), fx(1.0), fx(1.0)),
    );
    let result = m.lighting(&light, &position, &eyev, &normalv);
    assert!(result.approx_eq(&Color::new(fx(0.7364), fx(0.7364), fx(0.7364))));
}

#[test]
fn test_eye_in_reflection_path() {
    let m = Material::new();
    let position = Point::new(0, 0, 0);

    let sqt = fx(2.0_f64.sqrt() / 2.0);
    let eyev = Vector::new(0, -sqt, -sqt);
    let normalv = Vector::new(0, 0, fx(-1.0));
    let light = PointLight::new(
        Point::new(0, fx(10.0), fx(-10.0)),
        Color::new(fx(1.0), fx(1.0), fx(1.0)),
    );
    let result = m.lighting(&light, &position, &eyev, &normalv);
    assert!(result.approx_eq(&Color::new(fx(1.6364), fx(1.6364), fx(1.6364))));
}

#[test]
fn test_light_behind_surface() {
    let m = Material::new();
    let position = Point::new(0, 0, 0);

    let eyev = Vector::new(0, 0, fx(-1.0));
    let normalv = Vector::new(0, 0, fx(-1.0));
    let light = PointLight::new(
        Point::new(0, 0, fx(10.0)),
        Color::new(fx(1.0), fx(1.0), fx(1.0)),
    );
    let result = m.lighting(&light, &position, &eyev, &normalv);
    assert!(result.approx_eq(&Color::new(fx(0.1), fx(0.1), fx(0.1))));
}
