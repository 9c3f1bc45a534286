use ray_kernel::descartes::{Point3D, Vector3D};
use ray_kernel::scalar::{close, resolution_of};

#[test]
fn check_unit_norm() {
    let v = Vector3D::new(1, 2, 3);
    let norm = v.flt::<f64>().normalize(f64::sqrt);

    assert_eq!(norm.mag(f64::sqrt), 1.0)
}

#[test]
fn check_dot_product() {
    let v1: Vector3D<i8> = Vector3D::new(1, 2, 3);
    let v2 = Vector3D::new(2.0, 3.0, 4.0);
    let dot = v1.flt::<f64>().dot(v2);

    assert_eq!(dot, 20.0)
}

#[test]
fn check_cross_product() {
    let v1: Vector3D<i8> = Vector3D::new(1, 2, 3);
    let v2 = Vector3D::new(2.0, 3.0, 4.0);

    assert!(v1.flt::<f64>().cross(v2).approx_eq(&Vector3D::new(-1.0, 2.0, -1.0), f64::round));
    assert!(v2.cross(v1.flt::<f64>()).approx_eq(&Vector3D::new(1.0, -2.0, 1.0), f64::round));
}

#[test]
fn unit_norm_of_other_vectors() {
    for v in [
        Vector3D::new(4.0, 0.0, 0.0),
        Vector3D::new(-1.0, -2.0, -3.0),
        Vector3D::new(0.25, 1.5, -7.0),
    ] {
        let m = v.normalize(f64::sqrt).mag(f64::sqrt);
        assert!(close(m, 1.0, &f64::round));
    }
}

#[test]
fn magnitude_is_the_root_of_the_squares() {
    assert_eq!(Vector3D::new(1.0, 0.0, 0.0).mag(f64::sqrt), 1.0);
    assert_eq!(Vector3D::new(3.0, 4.0, 0.0).mag(f64::sqrt), 5.0);
    assert_eq!(Vector3D::new(1.0, 2.0, 3.0).mag(f64::sqrt), 14.0_f64.sqrt());
    assert_eq!(Vector3D::new(-1.0, -2.0, -3.0).mag(f64::sqrt), 14.0_f64.sqrt());
}

#[test]
fn cross_product_is_right_handed() {
    let x = Vector3D::new(1, 0, 0);
    let y = Vector3D::new(0, 1, 0);
    let z = Vector3D::new(0, 0, 1);

    assert_eq!(x.cross(y), z);
    assert_eq!(y.cross(z), x);
    assert_eq!(z.cross(x), y);
    assert_eq!(y.cross(x), Vector3D::new(0, 0, -1));
}

#[test]
fn getters_return_the_coordinates() {
    let p = Point3D::new(4, -4, 3);
    let v = Vector3D::new(7, 8, -9);

    assert_eq!((p.x(), p.y(), p.z()), (4, -4, 3));
    assert_eq!((v.x(), v.y(), v.z()), (7, 8, -9));
}

#[test]
fn point_minus_point_is_a_vector() {
    let a = Point3D::new(3, 2, 1);
    let b = Point3D::new(5, 6, 7);

    assert_eq!(a - b, Vector3D::new(-2, -4, -6));
}

#[test]
fn point_minus_vector_is_a_point() {
    let p = Point3D::new(3, 2, 1);
    let v = Vector3D::new(5, 6, 7);

    assert_eq!(p - v, Point3D::new(-2, -4, -6));
}

#[test]
fn vector_minus_vector_is_a_vector() {
    let a = Vector3D::new(3, 2, 1);
    let b = Vector3D::new(5, 6, 7);

    assert_eq!(a - b, Vector3D::new(-2, -4, -6));
}

#[test]
fn point_plus_vector_either_way() {
    let p = Point3D::new(3, -2, 5);
    let v = Vector3D::new(-2, 3, 1);

    assert_eq!(p + v, Point3D::new(1, 1, 6));
    assert_eq!(v + p, Point3D::new(1, 1, 6));
    assert_eq!(v + v, Vector3D::new(-4, 6, 2));
}

#[test]
fn vector_negation_and_scaling() {
    let v = Vector3D::new(1.0, -2.0, 3.0);

    assert_eq!(-v, Vector3D::new(-1.0, 2.0, -3.0));
    assert_eq!(v * 3.5, Vector3D::new(3.5, -7.0, 10.5));
    assert_eq!(v * 0.5, Vector3D::new(0.5, -1.0, 1.5));
    assert_eq!(v / 2.0, Vector3D::new(0.5, -1.0, 1.5));
}

#[test]
fn conversion_widens_each_coordinate() {
    let v: Vector3D<i16> = Vector3D::new(-300, 0, 300);

    assert_eq!(v.flt::<i64>(), Vector3D::new(-300_i64, 0, 300));
    assert_eq!(v.flt::<f64>(), Vector3D::new(-300.0, 0.0, 300.0));
}

#[test]
fn equality_to_five_decimals() {
    let p = Point3D::new(1.0, 2.0, 3.0);

    assert!(p.approx_eq(&Point3D::new(1.000001, 2.0, 3.0), f64::round));
    assert!(p.approx_eq(&Point3D::new(1.0, 1.999999, 3.000004), f64::round));
    assert!(!p.approx_eq(&Point3D::new(1.00001, 2.0, 3.0), f64::round));
    assert!(!p.approx_eq(&Point3D::new(1.0, 2.00001, 3.0), f64::round));
    assert!(!p.approx_eq(&Point3D::new(1.0, 2.0, 2.99999), f64::round));

    let v = Vector3D::new(-0.5, 0.0, 7.25);

    assert!(v.approx_eq(&Vector3D::new(-0.500004, 0.000004, 7.25), f64::round));
    assert!(!v.approx_eq(&Vector3D::new(-0.50001, 0.0, 7.25), f64::round));
    assert!(!v.approx_eq(&Vector3D::new(-0.5, 0.0, 7.25001), f64::round));
}

#[test]
fn closeness_of_two_numbers() {
    assert_eq!(resolution_of::<f64>(), 100000.0);
    assert_eq!(resolution_of::<i64>(), 100000);
    assert!(close(0.123456, 0.123457, &f64::round));
    assert!(close(0.0, -0.000004, &f64::round));
    assert!(!close(0.12345, 0.12346, &f64::round));
    assert!(!close(0.000004, 0.000006, &f64::round));
    assert!(close(12_i64, 12, &|v| v));
    assert!(!close(12_i64, 13, &|v| v));
}

#[test]
fn a_number_that_is_none_equals_nothing() {
    let p = Point3D::new(f64::NAN, 0.0, 0.0);

    assert!(!p.approx_eq(&p, f64::round));
}
