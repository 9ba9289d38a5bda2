use std::f64::consts::PI;
use tracer_core::matrix::{identity_matrix, Matrix};
use tracer_core::space::{Point, Tuple, Vector};
use tracer_core::{approx_equal, SCALE};

fn fx(x: f64) -> i64 {
    (x * SCALE as f64).round() as i64
}

fn mat(rows: usize, cols: usize, values: &[f64]) -> Matrix {
    let scaled: Vec<i64> = values.iter().map(|v| fx(*v)).collect();
    Matrix::from_values(rows, cols, scaled)
}

#[test]
fn test_matrix_construction_4x4() {
    let m = mat(
        4,
        4,
        &[
            1.0, 2.0, 3.0, 4.0, 5.5, 6.5, 7.5, 8.5, 9.0, 10.0, 11.0, 12.0, 13.5, 14.5, 15.5, 16.5,
        ],
    );

    assert_eq!(m.get(0, 0), fx(1.0));
    assert_eq!(m.get(0, 3), fx(4.0));
    assert_eq!(m.get(1, 0), fx(5.5));
    assert_eq!(m.get(1, 2), fx(7.5));
    assert_eq!(m.get(2, 2), fx(11.0));
    assert_eq!(m.get(3, 0), fx(13.5));
    assert_eq!(m.get(3, 2), fx(15.5));
}

#[test]
fn test_matrix_construction_3x3() {
    let m = mat(3, 3, &[-3.0, 5.0, 0.0, 1.0, -2.0, -7.0, 0.0, 1.0, 1.0]);

    assert_eq!(m.get(0, 0), fx(-3.0));
    assert_eq!(m.get(1, 1), fx(-2.0));
    assert_eq!(m.get(2, 2), fx(1.0));
}

#[test]
fn test_matrix_construction_2x2() {
    let m = mat(2, 2, &[-3.0, 5.0, 1.0, -2.0]);
    assert_eq!(m.get(0, 0), fx(-3.0));
    assert_eq!(m.get(0, 1), fx(5.0));
    assert_eq!(m.get(1, 0), fx(1.0));
    assert_eq!(m.get(1, 1), fx(-2.0));
}

#[test]
fn test_partial_eq() {
    let m1 = mat(
        4,
        4,
        &[
            1.0, 2.0, 3.0, 4.0, 5.0, 6.0, 7.0, 8.0, 9.0, 8.0, 7.0, 6.0, 5.0, 4.0, 3.0, 2.0,
        ],
    );
    let m2 = mat(
        4,
        4,
        &[
            1.0, 2.0, 3.0, 4.0, 5.0, 6.0, 7.0, 8.0, 9.0, 8.0, 7.0, 6.0, 5.0, 4.0, 3.0, 2.0,
        ],
    );

    assert!(m1.approx_eq(&m2));
}

#[test]
fn test_multiplication() {
    let m1 = mat(
        4,
        4,
        &[
            1.0, 2.0, 3.0, 4.0, 5.0, 6.0, 7.0, 8.0, 9.0, 8.0, 7.0, 6.0, 5.0, 4.0, 3.0, 2.0,
        ],
    );
    let m2 = mat(
        4,
        4,
        &[
            -2.0, 1.0, 2.0, 3.0, 3.0, 2.0, 1.0, -1.0, 4.0, 3.0, 6.0, 5.0, 1.0, 2.0, 7.0, 8.0,
        ],
    );

    let result = mat(
        4,
        4,
        &[
            20.0, 22.0, 50.0, 48.0, 44.0, 54.0, 114.0, 108.0, 40.0, 58.0, 110.0, 102.0, 16.0,
            26.0, 46.0, 42.0,
        ],
    );

    assert!(m1.times_matrix(&m2).approx_eq(&result));
}

#[test]
fn test_tuple_multiplication() {
    let m = mat(
        4,
        4,
        &[
            1.0, 2.0, 3.0, 4.0, 2.0, 4.0, 4.0, 2.0, 8.0, 6.0, 4.0, 1.0, 0.0, 0.0, 0.0, 1.0,
        ],
    );

    let t = Tuple::point(fx(1.0), fx(2.0), fx(3.0));

    let result = Tuple::point(fx(18.0), fx(24.0), fx(33.0));

    assert!(m.times_point(&t).approx_eq(&result));
}

#[test]
fn test_multiply_by_identity() {
    let m = mat(
        4,
        4,
        &[
            0.0, 1.0, 2.0, 4.0, 1.0, 2.0, 4.0, 8.0, 2.0, 4.0, 8.0, 16.0, 4.0, 8.0, 16.0, 32.0,
        ],
    );

    assert!(m.times_matrix(&identity_matrix()).approx_eq(&m));
}

#[test]
fn test_transpose() {
    let m = mat(
        4,
        4,
        &[
            0.0, 9.0, 3.0, 0.0, 9.0, 8.0, 0.0, 8.0, 1.0, 8.0, 5.0, 3.0, 0.0, 0.0, 5.0, 8.0,
        ],
    );

    let result = mat(
        4,
        4,
        &[
            0.0, 9.0, 1.0, 0.0, 9.0, 8.0, 8.0, 0.0, 3.0, 0.0, 5.0, 5.0, 0.0, 8.0, 3.0, 8.0,
        ],
    );

    assert!(m.transpose().approx_eq(&result));

    assert!(identity_matrix().transpose().approx_eq(&identity_matrix()));
}

#[test]
fn test_transpose_twice_returns_original() {
    let m = mat(
        4,
        4,
        &[
            0.5, 9.0, 3.0, 0.0, 9.0, -8.0, 0.0, 8.0, 1.0, 8.25, 5.0, 3.0, 0.0, 0.0, -5.0, 8.0,
        ],
    );
    assert!(m.transpose().transpose().approx_eq(&m));
}

#[test]
fn test_determinant_2x2() {
    let m = mat(2, 2, &[1.0, 5.0, -3.0, 2.0]);

    assert!(approx_equal(m.determinant(), fx(17.0)));
}

#[test]
fn test_determinant_3x3() {
    let m = mat(3, 3, &[1.0, 2.0, 6.0, -5.0, 8.0, -4.0, 2.0, 6.0, 4.0]);

    assert!(approx_equal(m.cofactor(0, 0), fx(56.0)));
    assert!(approx_equal(m.cofactor(0, 1), fx(12.0)));
    assert!(approx_equal(m.cofactor(0, 2), fx(-46.0)));
    assert!(approx_equal(m.determinant(), fx(-196.0)));
}

#[test]
fn test_determinant_4x4() {
    let m = mat(
        4,
        4,
        &[
            -2.0, -8.0, 3.0, 5.0, -3.0, 1.0, 7.0, 3.0, 1.0, 2.0, -9.0, 6.0, -6.0, 7.0, 7.0, -9.0,
        ],
    );

    assert!(approx_equal(m.cofactor(0, 0), fx(690.0)));
    assert!(approx_equal(m.cofactor(0, 1), fx(447.0)));
    assert!(approx_equal(m.cofactor(0, 2), fx(210.0)));
    assert!(approx_equal(m.cofactor(0, 3), fx(51.0)));
    assert!(approx_equal(m.determinant(), fx(-4071.0)));
}

#[test]
fn test_submatrix() {
    let m1 = mat(3, 3, &[1.0, 5.0, 0.0, -3.0, 2.0, 7.0, 0.0, 6.0, -3.0]);
    let r1 = mat(2, 2, &[-3.0, 2.0, 0.0, 6.0]);

    assert!(m1.submatrix(0, 2).approx_eq(&r1));

    let m2 = mat(
        4,
        4,
        &[
            -6.0, 1.0, 1.0, 6.0, -8.0, 5.0, 8.0, 6.0, -1.0, 0.0, 8.0, 2.0, -7.0, 1.0, -1.0, 1.0,
        ],
    );
    let r2 = mat(3, 3, &[-6.0, 1.0, 6.0, -8.0, 8.0, 6.0, -7.0, -1.0, 1.0]);
    assert!(m2.submatrix(2, 1).approx_eq(&r2));
}

#[test]
fn test_minor() {
    let m = mat(3, 3, &[3.0, 5.0, 0.0, 2.0, -1.0, -7.0, 6.0, -1.0, 5.0]);

    assert!(approx_equal(m.minor(1, 0), fx(25.0)));
}

#[test]
fn test_cofactor() {
    let m = mat(3, 3, &[3.0, 5.0, 0.0, 2.0, -1.0, -7.0, 6.0, -1.0, 5.0]);

    assert!(approx_equal(m.minor(0, 0), fx(-12.0)));
    assert!(approx_equal(m.cofactor(0, 0), fx(-12.0)));
    assert!(approx_equal(m.minor(1, 0), fx(25.0)));
    assert!(approx_equal(m.cofactor(1, 0), fx(-25.0)));
}

#[test]
fn test_invertible() {
    let invertible = mat(
        4,
        4,
        &[
            6.0, 4.0, 4.0, 4.0, 5.0, 5.0, 7.0, 6.0, 4.0, -9.0, 3.0, -7.0, 9.0, 1.0, 7.0, -6.0,
        ],
    );

    let non_invertible = mat(
        4,
        4,
        &[
            -4.0, 2.0, -2.0, -3.0, 9.0, 6.0, 2.0, 6.0, 0.0, -5.0, 1.0, -5.0, 0.0, 0.0, 0.0, 0.0,
        ],
    );

    assert!(invertible.invertible());
    assert!(!non_invertible.invertible());
    assert!(non_invertible.inverse().is_none());
}

#[test]
fn test_inversion() {
    let a = mat(
        4,
        4,
        &[
            -5.0, 2.0, 6.0, -8.0, 1.0, -5.0, 1.0, 8.0, 7.0, 7.0, -6.0, -7.0, 1.0, -3.0, 7.0, 4.0,
        ],
    );
    let b = a.inverse().unwrap();

    let result = mat(
        4,
        4,
        &[
            0.21805, 0.45113, 0.2406, -0.04511, -0.80827, -1.45677, -0.44361, 0.52068, -0.07895,
            -0.22368, -0.05263, 0.19737, -0.52256, -0.81391, -0.30075, 0.30639,
        ],
    );

    assert!(approx_equal(a.determinant(), fx(532.0)));
    assert!(approx_equal(a.cofactor(2, 3), fx(-160.0)));

    assert!(approx_equal(b.get(3, 2), fx(-160.0 / 532.0)));
    assert!(approx_equal(a.cofactor(3, 2), fx(105.0)));
    assert!(approx_equal(b.get(2, 3), fx(105.0 / 532.0)));

    assert!(b.approx_eq(&result));
}

#[test]
fn test_inverse_multiplication() {
    let a = mat(
        4,
        4,
        &[
            3.0, -9.0, 7.0, 3.0, 3.0, -8.0, 2.0, -9.0, -4.0, 4.0, 4.0, 1.0, -6.0, 5.0, -1.0, 1.0,
        ],
    );
    let b = mat(
        4,
        4,
        &[
            8.0, 2.0, 2.0, 2.0, 3.0, -1.0, 7.0, 0.0, 7.0, 0.0, 5.0, 4.0, 6.0, -2.0, 0.0, 5.0,
        ],
    );

    let c = a.times_matrix(&b);
    assert!(c.times_matrix(&b.inverse().unwrap()).approx_eq(&a));
}

#[test]
fn test_inverse_times_original_is_identity() {
    let m = mat(
        4,
        4,
        &[
            -5.0, 2.0, 6.0, -8.0, 1.0, -5.0, 1.0, 8.0, 7.0, 7.0, -6.0, -7.0, 1.0, -3.0, 7.0, 4.0,
        ],
    );
    let inv = m.inverse().unwrap();
    assert!(inv.times_matrix(&m).approx_eq(&identity_matrix()));
}

#[test]
fn test_translation() {
    let transform = Matrix::translation(fx(5.0), fx(-3.0), fx(2.0));
    let p = Tuple::point(fx(-3.0), fx(4.0), fx(5.0));

    assert!(transform.times_point(&p).approx_eq(&Tuple::point(fx(2.0), fx(1.0), fx(7.0))));

    let inv = transform.inverse().unwrap();
    assert!(inv.times_point(&p).approx_eq(&Tuple::point(fx(-8.0), fx(7.0), fx(3.0))));

    let v = Tuple::vector(fx(-3.0), fx(4.0), fx(5.0));
    assert!(transform.times_vector(&v).approx_eq(&v));
}

#[test]
fn test_translation_chained() {
    let p = Tuple::point(fx(-3.0), fx(4.0), fx(5.0));
    assert!(p.translate(fx(5.0), fx(-3.0), fx(2.0)).approx_eq(&Tuple::point(
        fx(2.0),
        fx(1.0),
        fx(7.0)
    )));

    let v = Tuple::vector(fx(-3.0), fx(4.0), fx(5.0));
    assert!(v.translate(fx(5.0), fx(-3.0), fx(2.0)).approx_eq(&v));
}

#[test]
fn test_scaling() {
    let transform = Matrix::scaling(fx(2.0), fx(3.0), fx(4.0));
    let p = Tuple::point(fx(-4.0), fx(6.0), fx(8.0));
    assert!(transform.times_point(&p).approx_eq(&Tuple::point(fx(-8.0), fx(18.0), fx(32.0))));

    let v = Tuple::vector(fx(-4.0), fx(6.0), fx(8.0));
    assert!(transform.times_vector(&v).approx_eq(&Tuple::vector(fx(-8.0), fx(18.0), fx(32.0))));

    let inv = transform.inverse().unwrap();
    assert!(inv.times_vector(&v).approx_eq(&Tuple::vector(fx(-2.0), fx(2.0), fx(2.0))));
}

#[test]
fn test_scaling_chained() {
    let p = Tuple::point(fx(-4.0), fx(6.0), fx(8.0));
    assert!(p.scale(fx(2.0), fx(3.0), fx(4.0)).approx_eq(&Tuple::point(
        fx(-8.0),
        fx(18.0),
        fx(32.0)
    )));

    let v = Tuple::vector(fx(-4.0), fx(6.0), fx(8.0));
    assert!(v.scale(fx(2.0), fx(3.0), fx(4.0)).approx_eq(&Tuple::vector(
        fx(-8.0),
        fx(18.0),
        fx(32.0)
    )));
}

#[test]
fn test_reflection() {
    let transform = Matrix::scaling(fx(-1.0), fx(1.0), fx(1.0));
    let p = Tuple::point(fx(2.0), fx(3.0), fx(4.0));

    assert!(transform.times_point(&p).approx_eq(&Tuple::point(fx(-2.0), fx(3.0), fx(4.0))));
}

#[test]
fn test_rotation_x() {
    let p = Tuple::point(0, fx(1.0), 0);
    let half_quarter = Matrix::rotation_x(fx(PI / 4.0));
    let full_quarter = Matrix::rotation_x(fx(PI / 2.0));
    let hsq = fx(2.0_f64.sqrt() / 2.0);
    assert!(half_quarter.times_point(&p).approx_eq(&Tuple::point(0, hsq, hsq)));
    assert!(full_quarter.times_point(&p).approx_eq(&Tuple::point(0, 0, fx(1.0))));

    assert!(p.rotate_x(fx(PI / 4.0)).approx_eq(&Tuple::point(0, hsq, hsq)));
    assert!(p.rotate_x(fx(PI / 2.0)).approx_eq(&Tuple::point(0, 0, fx(1.0))));
}

#[test]
fn test_rotation_y() {
    let p = Tuple::point(0, 0, fx(1.0));
    let half_quarter = Matrix::rotation_y(fx(PI / 4.0));
    let full_quarter = Matrix::rotation_y(fx(PI / 2.0));
    let hsq = fx(2.0_f64.sqrt() / 2.0);
    assert!(half_quarter.times_point(&p).approx_eq(&Tuple::point(hsq, 0, hsq)));
    assert!(full_quarter.times_point(&p).approx_eq(&Tuple::point(fx(1.0), 0, 0)));

    assert!(p.rotate_y(fx(PI / 4.0)).approx_eq(&Tuple::point(hsq, 0, hsq)));
    assert!(p.rotate_y(fx(PI / 2.0)).approx_eq(&Tuple::point(fx(1.0), 0, 0)));
}

#[test]
fn test_rotation_z() {
    let p = Tuple::point(0, fx(1.0), 0);
    let half_quarter = Matrix::rotation_z(fx(PI / 4.0));
    let full_quarter = Matrix::rotation_z(fx(PI / 2.0));
    let hsq = fx(2.0_f64.sqrt() / 2.0);
    assert!(half_quarter.times_point(&p).approx_eq(&Tuple::point(-hsq, hsq, 0)));
    assert!(full_quarter.times_point(&p).approx_eq(&Tuple::point(fx(-1.0), 0, 0)));

    assert!(p.rotate_z(fx(PI / 4.0)).approx_eq(&Tuple::point(-hsq, hsq, 0)));
    assert!(p.rotate_z(fx(PI / 2.0)).approx_eq(&Tuple::point(fx(-1.0), 0, 0)));
}

#[test]
fn test_rotation_whole_turn() {
    let p = Tuple::point(fx(0.25), fx(1.0), fx(-2.0));
    assert!(p.rotate_x(fx(2.0 * PI)).approx_eq(&p));
    assert!(p.rotate_y(fx(-2.0 * PI)).approx_eq(&p));
    assert!(p.rotate_z(fx(4.0 * PI)).approx_eq(&p));
}

#[test]
fn test_shearing_moves_x_to_y() {
    let transform = Matrix::shearing(fx(1.0), 0, 0, 0, 0, 0);
    let p = Tuple::point(fx(2.0), fx(3.0), fx(4.0));

    assert!(transform.times_point(&p).approx_eq(&Tuple::point(fx(5.0), fx(3.0), fx(4.0))));

    assert!(p.shear(fx(1.0), 0, 0, 0, 0, 0).approx_eq(&Tuple::point(fx(5.0), fx(3.0), fx(4.0))));
}

#[test]
fn test_shearing_moves_x_to_z() {
    let transform = Matrix::shearing(0, fx(1.0), 0, 0, 0, 0);
    let p = Tuple::point(fx(2.0), fx(3.0), fx(4.0));

    assert!(transform.times_point(&p).approx_eq(&Tuple::point(fx(6.0), fx(3.0), fx(4.0))));
}

#[test]
fn test_shearing_moves_y_to_x() {
    let transform = Matrix::shearing(0, 0, fx(1.0), 0, 0, 0);
    let p = Tuple::point(fx(2.0), fx(3.0), fx(4.0));

    assert!(transform.times_point(&p).approx_eq(&Tuple::point(fx(2.0), fx(5.0), fx(4.0))));

    assert!(p.shear(0, 0, fx(1.0), 0, 0, 0).approx_eq(&Tuple::point(fx(2.0), fx(5.0), fx(4.0))));
}

#[test]
fn test_shearing_moves_y_to_z() {
    let transform = Matrix::shearing(0, 0, 0, fx(1.0), 0, 0);
    let p = Tuple::point(fx(2.0), fx(3.0), fx(4.0));

    assert!(transform.times_point(&p).approx_eq(&Tuple::point(fx(2.0), fx(7.0), fx(4.0))));
    assert!(p.shear(0, 0, 0, fx(1.0), 0, 0).approx_eq(&Tuple::point(fx(2.0), fx(7.0), fx(4.0))));
}

#[test]
fn test_shearing_moves_z_to_x() {
    let transform = Matrix::shearing(0, 0, 0, 0, fx(1.0), 0);
    let p = Tuple::point(fx(2.0), fx(3.0), fx(4.0));

    assert!(transform.times_point(&p).approx_eq(&Tuple::point(fx(2.0), fx(3.0), fx(6.0))));
    assert!(p.shear(0, 0, 0, 0, fx(1.0), 0).approx_eq(&Tuple::point(fx(2.0), fx(3.0), fx(6.0))));
}

#[test]
fn test_shearing_moves_z_to_y() {
    let transform = Matrix::shearing(0, 0, 0, 0, 0, fx(1.0));
    let p = Tuple::point(fx(2.0), fx(3.0), fx(4.0));

    assert!(transform.times_point(&p).approx_eq(&Tuple::point(fx(2.0), fx(3.0), fx(7.0))));
    assert!(p.shear(0, 0, 0, 0, 0, fx(1.0)).approx_eq(&Tuple::point(fx(2.0), fx(3.0), fx(7.0))));
}

#[test]
fn test_transformations_applied_in_sequence() {
    let p = Tuple::point(fx(1.0), 0, fx(1.0));
    let a = Matrix::rotation_x(fx(PI / 2.0));
    let b = Matrix::scaling(fx(5.0), fx(5.0), fx(5.0));
    let c = Matrix::translation(fx(10.0), fx(5.0), fx(7.0));

    let p2 = a.times_point(&p);
    assert!(p2.approx_eq(&Tuple::point(fx(1.0), fx(-1.0), 0)));

    let p3 = b.times_point(&p2);
    assert!(p3.approx_eq(&Tuple::point(fx(5.0), fx(-5.0), 0)));

    let p4 = c.times_point(&p3);
    assert!(p4.approx_eq(&Tuple::point(fx(15.0), 0, fx(7.0))));

    let p5 = c.times_matrix(&b).times_matrix(&a).times_point(&p);
    assert!(p5.approx_eq(&Tuple::point(fx(15.0), 0, fx(7.0))));

    assert!(p
        .rotate_x(fx(PI / 2.0))
        .scale(fx(5.0), fx(5.0), fx(5.0))
        .translate(fx(10.0), fx(5.0), fx(7.0))
        .approx_eq(&Tuple::point(fx(15.0), 0, fx(7.0))));
}
