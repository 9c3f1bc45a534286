use ray_kernel::descartes::{Point3D, Vector3D};
use ray_kernel::raycasting::{Interaction, Intersection, Ray, Scene, Sphere};

#[test]
fn ray_position() {
    let r = Ray::new(Point3D::new(2.0, 3.0, 4.0), Vector3D::new(1.0, 0.0, 0.0));

    assert!(r.position(0.0).approx_eq(&Point3D::new(2.0, 3.0, 4.0), f64::round));
    assert!(r.position(1.0).approx_eq(&Point3D::new(3.0, 3.0, 4.0), f64::round));
    assert!(r.position(-1.0).approx_eq(&Point3D::new(1.0, 3.0, 4.0), f64::round));
    assert!(r.position(2.5).approx_eq(&Point3D::new(4.5, 3.0, 4.0), f64::round));
}

#[test]
fn equatorial_interaction() {
    let mut scene = Scene::new();
    let p = Point3D::new(0.0, 0.0, -5.0);
    let v = Vector3D::new(0.0, 0.0, 1.0);
    let r = Ray::new(p, v);
    let s = scene.sphere();
    let i = Interaction::new(s, r, f64::sqrt);

    assert_eq!(
        i,
        Interaction::Collision(vec![
            Intersection::new(4.0, s.id()),
            Intersection::new(6.0, s.id())
        ])
    )
}

#[test]
fn tangential_interaction() {
    let mut scene = Scene::new();
    let p = Point3D::new(0.0, 1.0, -5.0);
    let v = Vector3D::new(0.0, 0.0, 1.0);
    let r = Ray::new(p, v);
    let s = scene.sphere();
    let i = Interaction::new(s, r, f64::sqrt);

    assert_eq!(
        i,
        Interaction::Collision(vec![
            Intersection::new(5.0, s.id()),
            Intersection::new(5.0, s.id())
        ])
    )
}

#[test]
fn missed_interaction() {
    let mut scene = Scene::new();
    let p = Point3D::new(0.0, 2.0, -5.0);
    let v = Vector3D::new(0.0, 0.0, 1.0);
    let r = Ray::new(p, v);
    let s = scene.sphere();
    let i = Interaction::new(s, r, f64::sqrt);

    assert_eq!(i, Interaction::Miss)
}

#[test]
fn internal_origin() {
    let mut scene = Scene::new();
    let p = Point3D::new(0.0, 0.0, 0.0);
    let v = Vector3D::new(0.0, 0.0, 1.0);
    let r = Ray::new(p, v);
    let s = scene.sphere();
    let i = Interaction::new(s, r, f64::sqrt);

    assert_eq!(
        i,
        Interaction::Collision(vec![
            Intersection::new(-1.0, s.id()),
            Intersection::new(1.0, s.id())
        ])
    )
}

#[test]
fn post_origin() {
    let mut scene = Scene::new();
    let p = Point3D::new(0.0, 0.0, 5.0);
    let v = Vector3D::new(0.0, 0.0, 1.0);
    let r = Ray::new(p, v);
    let s = scene.sphere();
    let i = Interaction::new(s, r, f64::sqrt);

    assert_eq!(
        i,
        Interaction::Collision(vec![
            Intersection::new(-6.0, s.id()),
            Intersection::new(-4.0, s.id())
        ])
    )
}

#[test]
fn different_spheres() {
    let mut scene = Scene::new();
    let s1 = scene.sphere().clone();
    let s2 = scene.sphere().clone();
    let s3 = scene.sphere().clone();

    assert_ne!(s1, s2);
    assert_ne!(s2, s3);
    assert_ne!(s1, s3);
    assert_eq!(scene.len(), 3);
}

#[test]
fn spheres_are_numbered_in_order() {
    let mut scene = Scene::new();
    assert_eq!(scene.len(), 0);

    assert_eq!(scene.sphere().id(), 0);
    assert_eq!(scene.len(), 1);
    assert_eq!(scene.sphere().id(), 1);
    assert_eq!(scene.sphere().id(), 2);
    assert_eq!(scene.len(), 3);

    let mut other = Scene::new();
    assert_eq!(other.sphere().id(), 0);
    assert_eq!(scene.sphere().id(), 3);
}

#[test]
fn sphere_handle_is_the_stored_sphere() {
    let mut scene = Scene::new();
    let s = scene.sphere();

    assert_eq!(*s, Sphere::new(0));
    assert_eq!(Sphere::new(41).id(), 41);
}

#[test]
fn collision_carries_the_number_of_the_sphere() {
    let mut scene = Scene::new();
    scene.sphere();
    scene.sphere();
    let s = scene.sphere();
    let r = Ray::new(Point3D::new(0.0, 0.0, -5.0), Vector3D::new(0.0, 0.0, 1.0));

    assert_eq!(
        Interaction::new(s, r, f64::sqrt),
        Interaction::Collision(vec![Intersection::new(4.0, 2), Intersection::new(6.0, 2)])
    );
    assert_eq!(s.id(), 2);
}

#[test]
fn quadratic_of_a_ray() {
    let r = Ray::new(Point3D::new(0.0, 0.0, -5.0), Vector3D::new(0.0, 0.0, 1.0));
    assert_eq!(r.quadratic(), (1.0, -10.0, 4.0));

    let tangent = Ray::new(Point3D::new(0, 1, -5), Vector3D::new(0, 0, 1));
    assert_eq!(tangent.quadratic(), (1, -10, 0));

    let wide = Ray::new(Point3D::new(0, 2, -5), Vector3D::new(0, 0, 1));
    assert_eq!(wide.quadratic(), (1, -10, -12));
}

#[test]
fn collision_from_a_root() {
    assert_eq!(
        Interaction::from_root(7, 1.0, -10.0, 2.0),
        Interaction::Collision(vec![Intersection::new(4.0, 7), Intersection::new(6.0, 7)])
    );
    assert_eq!(
        Interaction::from_root(0, 2, -12, 4),
        Interaction::Collision(vec![Intersection::new(2, 0), Intersection::new(4, 0)])
    );
}

#[test]
fn longer_direction_gives_nearer_roots() {
    let mut scene = Scene::new();
    let s = scene.sphere();
    let r = Ray::new(Point3D::new(0.0, 0.0, -5.0), Vector3D::new(0.0, 0.0, 2.0));

    assert_eq!(
        Interaction::new(s, r, f64::sqrt),
        Interaction::Collision(vec![Intersection::new(2.0, 0), Intersection::new(3.0, 0)])
    );
}

#[test]
fn integer_ray_position() {
    let r = Ray::new(Point3D::new(2, 3, 4), Vector3D::new(1, 0, -2));

    assert_eq!(r.position(0), Point3D::new(2, 3, 4));
    assert_eq!(r.position(3), Point3D::new(5, 3, -2));
    assert_eq!(r.position(-1), Point3D::new(1, 3, 6));
}
