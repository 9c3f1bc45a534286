use ray_kernel::error::Error;
use ray_kernel::spatial::Spatial;

#[test]
fn point_addition() {
    let p1 = Spatial::point(0.0, 0.1, 0.2);
    let p2 = Spatial::point(0.5, 0.4, 0.3);
    let res = p1 + p2;

    assert!(res.is_err())
}

#[test]
fn point_vector_addition() {
    let p1 = Spatial::point(0.0, 0.1, 0.2);
    let p2 = Spatial::vector(0.5, 0.4, 0.3);
    let res = p1 + p2;

    assert_eq!(
        res.unwrap(),
        Spatial::Point3D {
            x: 0.5,
            y: 0.5,
            z: 0.5
        }
    )
}

#[test]
fn vector_point_addition() {
    let p1 = Spatial::point(0.0, 0.1, 0.2);
    let p2 = Spatial::vector(0.5, 0.4, 0.3);
    let res = p2 + p1;

    assert_eq!(
        res.unwrap(),
        Spatial::Point3D {
            x: 0.5,
            y: 0.5,
            z: 0.5
        }
    )
}

#[test]
fn vector_vector_addition() {
    let p1 = Spatial::vector(0.0, 0.1, 0.2);
    let p2 = Spatial::vector(0.5, 0.4, 0.3);
    let res = p1 + p2;

    assert_eq!(
        res.unwrap(),
        Spatial::Vector3D {
            x: 0.5,
            y: 0.5,
            z: 0.5
        }
    )
}

#[test]
fn point_addition_names_its_error() {
    let res = Spatial::point(1, 2, 3) + Spatial::point(4, 5, 6);

    assert_eq!(res, Err(Error::NonsensicalAddition));
    assert_eq!(
        Error::NonsensicalAddition.message(),
        "It is meaningless to add two Point3Ds"
    );
}

#[test]
fn integer_spatial_addition() {
    let p = Spatial::point(1, 2, 3);
    let v = Spatial::vector(10, 20, 30);

    assert_eq!(p + v, Ok(Spatial::Point3D { x: 11, y: 22, z: 33 }));
    assert_eq!(v + p, Ok(Spatial::Point3D { x: 11, y: 22, z: 33 }));
    assert_eq!(v + v, Ok(Spatial::Vector3D { x: 20, y: 40, z: 60 }));
}
