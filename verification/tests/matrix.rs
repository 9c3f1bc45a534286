use ray_kernel::descartes::{Point3D, Vector3D};
use ray_kernel::matrix::{M1_4, M2, M3, M4};

#[test]
fn transpose_identity() {
    let identity = M4::<f64>::identity();
    let transposed = identity.clone().transpose();

    assert!(identity.approx_eq(&transposed, f64::round));
    assert_eq!(identity, transposed);
}

#[test]
fn select_m3_submatrix() {
    let m3 = M3([[1.0, 5.0, 0.0], [-3.0, 2.0, 7.0], [0.0, 6.0, -3.0]]);
    let m2 = M2([[-3.0, 2.0], [0.0, 6.0]]);
    let m2_2 = M2([[2.0, 7.0], [6.0, -3.0]]);
    assert!((m3.submatrix(0, 0)).approx_eq(&m2_2, f64::round));
    assert!((m3.submatrix(0, 2)).approx_eq(&m2, f64::round));
}

#[test]
fn select_m4_submatrix() {
    let m4 = M4([
        [-6.0, 1.0, 1.0, 6.0],
        [-8.0, 5.0, 8.0, 6.0],
        [-1.0, 0.0, 8.0, 2.0],
        [-7.0, 1.0, -1.0, 1.0],
    ]);
    let m3 = M3([[-6.0, 1.0, 6.0], [-8.0, 8.0, 6.0], [-7.0, -1.0, 1.0]]);
    assert!((m4.submatrix(2, 1)).approx_eq(&m3, f64::round));
}

#[test]
fn m3_minor() {
    let m3 = M3([[3.0, 5.0, 0.0], [2.0, -1.0, -7.0], [6.0, -1.0, 5.0]]);
    assert_eq!(m3.minor(0, 0), -12.0);
    assert_eq!(m3.minor(1, 0), 25.0)
}

#[test]
fn m3_cofactor() {
    let m3 = M3([[3.0, 5.0, 0.0], [2.0, -1.0, -7.0], [6.0, -1.0, 5.0]]);
    assert_eq!(m3.cofactor(0, 0), -12.0);
    assert_eq!(m3.cofactor(1, 0), -25.0);
}

#[test]
fn m2_determinant() {
    let m2 = M2([[1.0, 5.0], [-3.0, 2.0]]);
    assert_eq!(m2.determinant(), 17.0);
}

#[test]
fn m3_determinant() {
    let m3 = M3([[1.0, 2.0, 6.0], [-5.0, 8.0, -4.0], [2.0, 6.0, 4.0]]);
    assert_eq!(m3.cofactor(0, 0), 56.0);
    assert_eq!(m3.cofactor(0, 1), 12.0);
    assert_eq!(m3.cofactor(0, 2), -46.0);
    assert_eq!(m3.determinant(), -196.0)
}

#[test]
fn m4_determinant() {
    let m4 = M4([
        [-2.0, -8.0, 3.0, 5.0],
        [-3.0, 1.0, 7.0, 3.0],
        [1.0, 2.0, -9.0, 6.0],
        [-6.0, 7.0, 7.0, -9.0],
    ]);
    assert_eq!(m4.cofactor(0, 0), 690.0);
    assert_eq!(m4.cofactor(0, 1), 447.0);
    assert_eq!(m4.cofactor(0, 2), 210.0);
    assert_eq!(m4.cofactor(0, 3), 51.0);
    assert_eq!(m4.determinant(), -4071.0);
}

#[test]
fn m4_invertibility_check() {
    let m4_invertable = M4([
        [6.0, 4.0, 4.0, 4.0],
        [5.0, 5.0, 7.0, 6.0],
        [4.0, -9.0, 3.0, -7.0],
        [9.0, 1.0, 7.0, -6.0],
    ]);
    let m4_uninvertable = M4([
        [-4.0, 2.0, -2.0, -3.0],
        [9.0, 6.0, 2.0, 6.0],
        [0.0, -5.0, 1.0, -5.0],
        [0.0, 0.0, 0.0, 0.0],
    ]);
    assert_eq!(m4_uninvertable.inverse(), None);
    assert_ne!(m4_invertable.inverse(), None);
}

#[test]
fn m4_inverse() {
    let m4_1 = M4([
        [8.0, -5.0, 9.0, 2.0],
        [7.0, 5.0, 6.0, 1.0],
        [-6.0, 0.0, 9.0, 6.0],
        [-3.0, 0.0, -9.0, -4.0],
    ]);
    let m4_1_inverted = M4([
        [-0.15385, -0.15385, -0.28205, -0.53846],
        [-0.07692, 0.12308, 0.02564, 0.03077],
        [0.35897, 0.35897, 0.43590, 0.92308],
        [-0.69231, -0.69231, -0.76923, -1.92308],
    ]);
    let m4_2 = M4([
        [9.0, 3.0, 0.0, 9.0],
        [-5.0, -2.0, -6.0, -3.0],
        [-4.0, 9.0, 6.0, 4.0],
        [-7.0, 6.0, 6.0, 2.0],
    ]);
    let m4_2_inverted = M4([
        [-0.04074, -0.07778, 0.14444, -0.22222],
        [-0.07778, 0.03333, 0.36667, -0.33333],
        [-0.02901, -0.14630, -0.10926, 0.12963],
        [0.17778, 0.06667, -0.26667, 0.33333],
    ]);

    assert!(m4_1.inverse().unwrap().approx_eq(&m4_1_inverted, f64::round));
    assert!(m4_2.inverse().unwrap().approx_eq(&m4_2_inverted, f64::round));
}

#[test]
fn m4_inverse_detailed() {
    let m4 = M4([
        [-5.0, 2.0, 6.0, -8.0],
        [1.0, -5.0, 1.0, 8.0],
        [7.0, 7.0, -6.0, -7.0],
        [1.0, -3.0, 7.0, 4.0],
    ]);

    let m4_inverted = m4.inverse().unwrap();

    assert_eq!(m4.determinant(), 532.0);
    assert_eq!(m4.cofactor(2, 3), -160.0);
    assert_eq!(m4_inverted.idx(3, 2), -160.0 / 532.0);
    assert_eq!(m4.cofactor(3, 2), 105.0);
    assert_eq!(m4_inverted.idx(2, 3), 105.0 / 532.0);
    assert!(m4_inverted.approx_eq(&M4([
            [0.21805, 0.45113, 0.24060, -0.04511],
            [-0.80827, -1.45677, -0.44361, 0.52068],
            [-0.07895, -0.22368, -0.05263, 0.19737],
            [-0.52256, -0.81391, -0.30075, 0.30639]
        ]), f64::round))
}

#[test]
fn m4_matrix_inverse_multiplication() {
    let m4_1 = M4([
        [3.0, -9.0, 7.0, 3.0],
        [3.0, -8.0, 2.0, -9.0],
        [-4.0, 4.0, 4.0, 1.0],
        [-6.0, 5.0, -1.0, 1.0],
    ]);
    let m4_2 = M4([
        [8.0, 2.0, 2.0, 2.0],
        [3.0, -1.0, 7.0, 0.0],
        [7.0, 0.0, 5.0, 4.0],
        [6.0, -2.0, 0.0, 5.0],
    ]);

    let mult = m4_1 * m4_2;
    assert!((mult * m4_2.inverse().unwrap()).approx_eq(&m4_1, f64::round))
}

#[test]
fn new_matrices_hold_zero() {
    assert_eq!(M2::<i32>::new(), M2([[0; 2]; 2]));
    assert_eq!(M3::<i32>::new(), M3([[0; 3]; 3]));
    assert_eq!(M4::<f64>::new(), M4([[0.0; 4]; 4]));
}

#[test]
fn identities_of_each_order() {
    assert_eq!(M2::<i32>::identity(), M2([[1, 0], [0, 1]]));
    assert_eq!(M3::<i32>::identity(), M3([[1, 0, 0], [0, 1, 0], [0, 0, 1]]));
    assert_eq!(
        M4::<i32>::identity(),
        M4([[1, 0, 0, 0], [0, 1, 0, 0], [0, 0, 1, 0], [0, 0, 0, 1]])
    );
}

#[test]
fn write_then_read() {
    let mut m2 = M2::<i32>::new();
    m2.write_idx(0, 1, 7);
    assert_eq!(m2, M2([[0, 7], [0, 0]]));
    assert_eq!(m2.idx(0, 1), 7);

    let mut m3 = M3::<i32>::new();
    m3.write_idx(2, 0, -4);
    assert_eq!(m3, M3([[0, 0, 0], [0, 0, 0], [-4, 0, 0]]));
    assert_eq!(m3.idx(2, 0), -4);

    let mut m4 = M4::<i32>::identity();
    m4.write_idx(1, 3, 9);
    assert_eq!(
        m4,
        M4([[1, 0, 0, 0], [0, 1, 0, 9], [0, 0, 1, 0], [0, 0, 0, 1]])
    );
    assert_eq!(m4.idx(1, 3), 9);
}

#[test]
fn transposes_exchange_rows_and_columns() {
    assert_eq!(M2([[1, 2], [3, 4]]).transpose(), M2([[1, 3], [2, 4]]));
    assert_eq!(
        M3([[1, 2, 3], [4, 5, 6], [7, 8, 9]]).transpose(),
        M3([[1, 4, 7], [2, 5, 8], [3, 6, 9]])
    );
    assert_eq!(
        M4([[0, 9, 3, 0], [9, 8, 0, 8], [1, 8, 5, 3], [0, 0, 5, 8]]).transpose(),
        M4([[0, 9, 1, 0], [9, 8, 8, 0], [3, 0, 5, 5], [0, 8, 3, 8]])
    );
}

#[test]
fn transposing_twice_gives_the_matrix_back() {
    let m2 = M2([[1.5, -2.0], [0.0, 4.25]]);
    let m3 = M3([[1, 2, 3], [4, 5, 6], [7, 8, 9]]);
    let m4 = M4([[0, 9, 3, 0], [9, 8, 0, 8], [1, 8, 5, 3], [0, 0, 5, 8]]);

    assert_eq!(m2.transpose().transpose(), m2);
    assert_eq!(m3.transpose().transpose(), m3);
    assert_eq!(m4.transpose().transpose(), m4);
    assert_eq!(M2::<i32>::identity().transpose(), M2::<i32>::identity());
    assert_eq!(M3::<i32>::identity().transpose(), M3::<i32>::identity());
}

#[test]
fn submatrix_at_every_corner() {
    let m3 = M3([[1, 2, 3], [4, 5, 6], [7, 8, 9]]);

    assert_eq!(m3.submatrix(0, 0), M2([[5, 6], [8, 9]]));
    assert_eq!(m3.submatrix(1, 1), M2([[1, 3], [7, 9]]));
    assert_eq!(m3.submatrix(2, 2), M2([[1, 2], [4, 5]]));
    assert_eq!(m3.submatrix(2, 0), M2([[2, 3], [5, 6]]));

    let m4 = M4([[1, 2, 3, 4], [5, 6, 7, 8], [9, 10, 11, 12], [13, 14, 15, 16]]);
    assert_eq!(
        m4.submatrix(0, 0),
        M3([[6, 7, 8], [10, 11, 12], [14, 15, 16]])
    );
    assert_eq!(m4.submatrix(3, 3), M3([[1, 2, 3], [5, 6, 7], [9, 10, 11]]));
    assert_eq!(
        m4.submatrix(1, 2),
        M3([[1, 2, 4], [9, 10, 12], [13, 14, 16]])
    );
}

#[test]
fn integer_determinants() {
    assert_eq!(M2([[1_i64, 5], [-3, 2]]).determinant(), 17);
    assert_eq!(
        M3([[1_i64, 2, 6], [-5, 8, -4], [2, 6, 4]]).determinant(),
        -196
    );
    let m4 = M4([
        [-2_i64, -8, 3, 5],
        [-3, 1, 7, 3],
        [1, 2, -9, 6],
        [-6, 7, 7, -9],
    ]);
    assert_eq!(m4.minor(0, 1), -447);
    assert_eq!(m4.cofactor(0, 1), 447);
    assert_eq!(m4.determinant(), -4071);
}

#[test]
fn zero_last_row_has_no_inverse() {
    let rows = [
        [[1.0, 2.0, 3.0, 4.0], [5.0, 6.0, 7.0, 8.0], [9.0, 1.0, 2.0, 3.0]],
        [[-4.0, 2.0, -2.0, -3.0], [9.0, 6.0, 2.0, 6.0], [0.0, -5.0, 1.0, -5.0]],
        [[0.5, 0.25, 8.0, 1.0], [1.0, 1.0, 1.0, 1.0], [3.0, -3.0, 3.0, -3.0]],
    ];
    for [a, b, c] in rows {
        assert_eq!(M4([a, b, c, [0.0; 4]]).inverse(), None);
    }
    assert_eq!(
        M4([[1_i64, 2, 3, 4], [5, 6, 7, 8], [9, 1, 2, 3], [0, 0, 0, 0]]).inverse(),
        None
    );
}

#[test]
fn inverse_of_the_identity_is_the_identity() {
    assert_eq!(M4::<f64>::identity().inverse(), Some(M4::identity()));
    assert_eq!(M4::<i64>::identity().inverse(), Some(M4::identity()));
}

#[test]
fn product_with_the_identity() {
    let m = M4([[1, 2, 3, 4], [5, 6, 7, 8], [9, 8, 7, 6], [5, 4, 3, 2]]);

    assert_eq!(m * M4::identity(), m);
    assert_eq!(M4::identity() * m, m);
}

#[test]
fn product_of_two_matrices() {
    let a = M4([[1, 2, 3, 4], [5, 6, 7, 8], [9, 8, 7, 6], [5, 4, 3, 2]]);
    let b = M4([[-2, 1, 2, 3], [3, 2, 1, -1], [4, 3, 6, 5], [1, 2, 7, 8]]);

    assert_eq!(
        a * b,
        M4([
            [20, 22, 50, 48],
            [44, 54, 114, 108],
            [40, 58, 110, 102],
            [16, 26, 46, 42]
        ])
    );
}

#[test]
fn matrix_times_column() {
    let a = M4([[1, 2, 3, 4], [2, 4, 4, 2], [8, 6, 4, 1], [0, 0, 0, 1]]);

    assert_eq!(a * M1_4([[1], [2], [3], [1]]), M1_4([[18], [24], [33], [1]]));
    assert_eq!(a * Point3D::new(1, 2, 3), M1_4([[18], [24], [33], [1]]));
    assert_eq!(a * Vector3D::new(1, 2, 3), M1_4([[14], [22], [32], [0]]));
}

#[test]
fn columns_of_points_and_vectors() {
    let p: M1_4<f64> = Point3D::new(1.0, 2.0, 3.0).into();
    let v: M1_4<f64> = Vector3D::new(1.0, 2.0, 3.0).into();

    assert_eq!(p, M1_4([[1.0], [2.0], [3.0], [1.0]]));
    assert_eq!(v, M1_4([[1.0], [2.0], [3.0], [0.0]]));
    assert_eq!(p.idx(3), 1.0);
    assert_eq!(v.idx(3), 0.0);

    let mut w = v;
    w.write_idx(1, 9.0);
    assert_eq!(w, M1_4([[1.0], [9.0], [3.0], [0.0]]));
}

#[test]
fn canonical_matrices() {
    assert_eq!(
        M4::translation(5, -3, 2),
        M4([[1, 0, 0, 5], [0, 1, 0, -3], [0, 0, 1, 2], [0, 0, 0, 1]])
    );
    assert_eq!(
        M4::scaling(2, 3, 4),
        M4([[2, 0, 0, 0], [0, 3, 0, 0], [0, 0, 4, 0], [0, 0, 0, 1]])
    );
    assert_eq!(
        M4::shear(1, 2, 3, 4, 5, 6),
        M4([[1, 1, 2, 0], [3, 1, 4, 0], [5, 6, 1, 0], [0, 0, 0, 1]])
    );
    assert_eq!(
        M4::x_rotation_of(3, 4),
        M4([[1, 0, 0, 0], [0, 3, -4, 0], [0, 4, 3, 0], [0, 0, 0, 1]])
    );
    assert_eq!(
        M4::y_rotation_of(3, 4),
        M4([[3, 0, 4, 0], [0, 1, 0, 0], [-4, 0, 3, 0], [0, 0, 0, 1]])
    );
    assert_eq!(
        M4::z_rotation_of(3, 4),
        M4([[3, -4, 0, 0], [4, 3, 0, 0], [0, 0, 1, 0], [0, 0, 0, 1]])
    );
}

#[test]
fn rotations_by_an_angle() {
    let r = std::f64::consts::PI / 3.0;
    let (c, s) = (r.cos(), r.sin());

    assert_eq!(M4::x_rotation(r, f64::cos, f64::sin), M4::x_rotation_of(c, s));
    assert_eq!(M4::y_rotation(r, f64::cos, f64::sin), M4::y_rotation_of(c, s));
    assert_eq!(M4::z_rotation(r, f64::cos, f64::sin), M4::z_rotation_of(c, s));
    assert!((M4::x_rotation(std::f64::consts::PI, f64::cos, f64::sin)).approx_eq(&M4([
            [1.0, 0.0, 0.0, 0.0],
            [0.0, -1.0, 0.0, 0.0],
            [0.0, 0.0, -1.0, 0.0],
            [0.0, 0.0, 0.0, 1.0]
        ]), f64::round));
}

#[test]
fn inverse_undoes_product_of_integers() {
    let m = M4([[3_i64, -9, 7, 3], [3, -8, 2, -9], [-4, 4, 4, 1], [-6, 5, -1, 1]]);
    let unit_upper = M4([[1_i64, 2, 0, -3], [0, 1, 3, 5], [0, 0, 1, 4], [0, 0, 0, 1]]);
    let swapped = M4([[0_i64, 1, 3, 5], [1, 2, 0, -3], [0, 0, 1, 4], [0, 0, 0, 1]]);

    assert_eq!(unit_upper.determinant(), 1);
    assert_eq!(swapped.determinant(), -1);
    assert_eq!((m * unit_upper) * unit_upper.inverse().unwrap(), m);
    assert_eq!((m * swapped) * swapped.inverse().unwrap(), m);
    assert_eq!(
        unit_upper * unit_upper.inverse().unwrap(),
        M4::<i64>::identity()
    );
}

#[test]
fn inverse_undoes_product_of_reals() {
    let m = M4([
        [3.0, -9.0, 7.0, 3.0],
        [3.0, -8.0, 2.0, -9.0],
        [-4.0, 4.0, 4.0, 1.0],
        [-6.0, 5.0, -1.0, 1.0],
    ]);
    let others = [
        M4([
            [8.0, -5.0, 9.0, 2.0],
            [7.0, 5.0, 6.0, 1.0],
            [-6.0, 0.0, 9.0, 6.0],
            [-3.0, 0.0, -9.0, -4.0],
        ]),
        M4([
            [9.0, 3.0, 0.0, 9.0],
            [-5.0, -2.0, -6.0, -3.0],
            [-4.0, 9.0, 6.0, 4.0],
            [-7.0, 6.0, 6.0, 2.0],
        ]),
        M4::translation(1.5, -2.0, 0.25),
        M4::x_rotation(0.7, f64::cos, f64::sin),
    ];
    for n in others {
        assert!(((m * n) * n.inverse().unwrap()).approx_eq(&m, f64::round));
    }
}

#[test]
fn matrices_equal_to_five_decimals() {
    let m2 = M2([[1.0, 2.0], [3.0, 4.0]]);
    assert!(m2.approx_eq(&M2([[1.000004, 2.0], [3.0, 3.999996]]), f64::round));
    assert!(!m2.approx_eq(&M2([[1.0, 2.0], [3.0, 4.00001]]), f64::round));

    let m3 = M3([[1.0, 2.0, 3.0], [4.0, 5.0, 6.0], [7.0, 8.0, 9.0]]);
    assert!(m3.approx_eq(&m3, f64::round));
    assert!(!m3.approx_eq(
        &M3([[1.0, 2.0, 3.0], [4.0, 5.0, 6.0], [7.00001, 8.0, 9.0]]),
        f64::round
    ));

    let m4 = M4::<f64>::identity();
    let mut near = m4;
    near.write_idx(3, 3, 1.000001);
    let mut far = m4;
    far.write_idx(0, 3, 0.00001);
    assert!(m4.approx_eq(&near, f64::round));
    assert!(!m4.approx_eq(&far, f64::round));
}
