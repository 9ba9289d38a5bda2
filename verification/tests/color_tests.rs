use tracer_core::color::Color;
use tracer_core::{approx_equal, SCALE};

fn fx(x: f64) -> i64 {
    (x * SCALE as f64).round() as i64
}

#[test]
fn test_color_construction() {
    let c = Color::new(fx(-0.5), fx(0.4), fx(1.7));
    assert!(approx_equal(c.red(), fx(-0.5)));
}

#[test]
fn test_color_add() {
    let c1 = Color::new(fx(0.9), fx(0.6), fx(0.75));
    let c2 = Color::new(fx(0.7), fx(0.1), fx(0.25));

    assert!(c1.plus(&c2).approx_eq(&Color::new(fx(1.6), fx(0.7), fx(1.0))));
}

#[test]
fn test_color_subtract() {
    let c1 = Color::new(fx(0.9), fx(0.6), fx(0.75));
    let c2 = Color::new(fx(0.7), fx(0.1), fx(0.25));

    assert!(c1.minus(&c2).approx_eq(&Color::new(fx(0.2), fx(0.5), fx(0.5))));
}

#[test]
fn test_color_multiply_scalar() {
    let c1 = Color::new(fx(0.2), fx(0.3), fx(0.4));

    assert!(c1.times(fx(2.0)).approx_eq(&Color::new(fx(0.4), fx(0.6), fx(0.8))));
}

#[test]
fn test_color_multiply() {
    let c1 = Color::new(fx(1.0), fx(0.2), fx(0.4));
    let c2 = Color::new(fx(0.9), fx(1.0), fx(0.1));

    assert!(c1.times_color(&c2).approx_eq(&Color::new(fx(0.9), fx(0.2), fx(0.04))));
}

#[test]
fn test_color_channels() {
    let c = Color::new(fx(0.25), fx(0.5), fx(0.75));
    assert_eq!(c.green(), fx(0.5));
    assert_eq!(c.blue(), fx(0.75));
}
