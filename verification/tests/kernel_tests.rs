use std::f64::consts::PI;
use tracer_core::fx::{fx_div, fx_mul, fx_powi, fx_sqrt};
use tracer_core::space::Tuple;
use tracer_core::trig::{fx_cos, fx_sin};
use tracer_core::{approx_equal, EPSILON, SCALE};

fn fx(x: f64) -> i64 {
    (x * SCALE as f64).round() as i64
}

#[test]
fn test_scalar_arithmetic() {
    assert_eq!(fx_mul(fx(1.5), fx(2.0)), fx(3.0));
    assert_eq!(fx_mul(fx(-1.5), fx(2.0)), fx(-3.0));
    assert_eq!(fx_div(fx(3.0), fx(2.0)), fx(1.5));
    assert_eq!(fx_div(fx(-3.0), fx(2.0)), fx(-1.5));
    assert!(approx_equal(fx_div(fx(1.0), fx(3.0)), fx(1.0 / 3.0)));
}

#[test]
fn test_square_root() {
    assert_eq!(fx_sqrt(fx(4.0)), fx(2.0));
    assert_eq!(fx_sqrt(0), 0);
    assert!(approx_equal(fx_sqrt(fx(2.0)), fx(2.0_f64.sqrt())));
    assert!(approx_equal(fx_sqrt(fx(14.0)), fx(14.0_f64.sqrt())));
}

#[test]
fn test_whole_powers() {
    assert_eq!(fx_powi(fx(0.9), 0), SCALE);
    assert_eq!(fx_powi(SCALE, 200), SCALE);
    assert!(approx_equal(fx_powi(fx(0.5), 3), fx(0.125)));
    assert!(approx_equal(fx_powi(fx(0.70710678), 200), 0));
}

#[test]
fn test_cosine_and_sine() {
    assert_eq!(fx_cos(0), SCALE);
    assert_eq!(fx_sin(0), 0);
    assert!(approx_equal(fx_cos(fx(PI)), fx(-1.0)));
    assert!(approx_equal(fx_sin(fx(PI / 2.0)), fx(1.0)));
    assert!(approx_equal(fx_cos(fx(PI / 3.0)), fx(0.5)));
    assert!(approx_equal(fx_sin(fx(PI / 6.0)), fx(0.5)));
    assert!(approx_equal(fx_sin(fx(2.0 * PI + 0.5)), fx(0.5_f64.sin())));
    assert!(approx_equal(fx_cos(fx(-0.75)), fx(0.75_f64.cos())));
}

#[test]
fn test_approx_equal_boundary() {
    assert!(approx_equal(0, EPSILON - 1));
    assert!(!approx_equal(0, EPSILON));
    assert!(approx_equal(fx(1.0), fx(1.0)));
}

#[test]
fn test_tuple_get() {
    let t = Tuple::new(fx(1.0), fx(2.0), fx(3.0), fx(4.0));
    assert_eq!(t.get(0), fx(1.0));
    assert_eq!(t.get(1), fx(2.0));
    assert_eq!(t.get(2), fx(3.0));
    assert_eq!(t.get(3), fx(4.0));
}
