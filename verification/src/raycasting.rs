//! Rays, the unit sphere, and where the one meets the other; and the scene
//! that owns the spheres and numbers them.
use crate::descartes::{Point3D, Vector3D};
use crate::scalar::{below, four, is_below, number, obeys_arith, one, Scalar, two, zero};
use typed_arena::Arena;
use vstd::prelude::*;
use vstd::std_specs::ops::{AddSpec, DivSpec, MulSpec, NegSpec, SubSpec};

verus! {

/// A half-line: the points `origin + direction * t`.
#[derive(Debug, Clone, PartialEq)]
pub struct Ray<T> {
    pub origin: Point3D<T>,
    pub direction: Vector3D<T>,
}

impl<T: Scalar> Ray<T> {
    pub fn new(origin: Point3D<T>, direction: Vector3D<T>) -> (ray: Self)
        ensures
            ray.origin == origin,
            ray.direction == direction,
    {
        Ray { origin, direction }
    }

    /// The point of the ray at distance `t`, in units of the direction.
    pub open spec fn position_spec(self, t: T) -> Point3D<T> {
        self.origin.add_spec(self.direction.mul_spec(t))
    }

    /// Whether every operation of `position_spec` is allowed on its operands.
    pub open spec fn position_req(self, t: T) -> bool {
        &&& self.direction.mul_req(t)
        &&& self.origin.add_req(self.direction.mul_spec(t))
    }

    pub fn position(&self, t: T) -> (p: Point3D<T>)
        requires
            obeys_arith::<T>(),
            self.position_req(t),
        ensures
            p == self.position_spec(t),
    {
        self.origin + (self.direction * t)
    }

    /// The vector from the centre of the unit sphere, which is the origin of
    /// the coordinates, to the origin of the ray.
    pub open spec fn offset(self) -> Vector3D<T> {
        self.origin.sub_spec(Point3D { x: zero::<T>(), y: zero::<T>(), z: zero::<T>() })
    }

    /// The coefficient of `t * t` in the equation of the ray on the sphere.
    pub open spec fn quadratic_a(self) -> T {
        self.direction.dot_spec(self.direction)
    }

    /// The coefficient of `t` in the equation of the ray on the sphere.
    pub open spec fn quadratic_b(self) -> T {
        two::<T>().mul_spec(self.direction.dot_spec(self.offset()))
    }

    /// The constant of the equation of the ray on the sphere.
    pub open spec fn quadratic_c(self) -> T {
        self.offset().dot_spec(self.offset()).sub_spec(one::<T>())
    }

    /// The discriminant `b * b - 4 * a * c` of that equation.
    pub open spec fn discriminant(self) -> T {
        self.quadratic_b().mul_spec(self.quadratic_b()).sub_spec(
            four::<T>().mul_spec(self.quadratic_a()).mul_spec(self.quadratic_c()),
        )
    }

    /// Whether every operation of `discriminant` is allowed on its operands.
    pub open spec fn discriminant_req(self) -> bool {
        &&& self.origin.sub_req(Point3D { x: zero::<T>(), y: zero::<T>(), z: zero::<T>() })
        &&& self.direction.dot_req(self.direction)
        &&& self.direction.dot_req(self.offset())
        &&& two::<T>().mul_req(self.direction.dot_spec(self.offset()))
        &&& self.offset().dot_req(self.offset())
        &&& self.offset().dot_spec(self.offset()).sub_req(one::<T>())
        &&& self.quadratic_b().mul_req(self.quadratic_b())
        &&& four::<T>().mul_req(self.quadratic_a())
        &&& four::<T>().mul_spec(self.quadratic_a()).mul_req(self.quadratic_c())
        &&& self.quadratic_b().mul_spec(self.quadratic_b()).sub_req(
            four::<T>().mul_spec(self.quadratic_a()).mul_spec(self.quadratic_c()),
        )
    }

    /// The coefficients `a` and `b` of the equation of the ray on the unit
    /// sphere, and its discriminant.
    pub fn quadratic(&self) -> (abd: (T, T, T))
        requires
            obeys_arith::<T>(),
            self.discriminant_req(),
        ensures
            abd.0 == self.quadratic_a(),
            abd.1 == self.quadratic_b(),
            abd.2 == self.discriminant(),
    {
        let ro = self.origin - Point3D::new(number(0i8), number(0i8), number(0i8));
        let a = self.direction.dot(self.direction);
        let b = number::<T>(2i8) * self.direction.dot(ro);
        let c = ro.dot(ro) - number(1i8);
        let d = (b * b) - (number::<T>(4i8) * a * c);
        (a, b, d)
    }
}

/// A unit sphere about the origin, known by the number that its scene gave
/// it.
#[derive(Debug, Clone, PartialEq)]
pub struct Sphere {
    pub id: usize,
}

impl Sphere {
    pub fn new(id: usize) -> (s: Self)
        ensures
            s.id == id,
    {
        Self { id }
    }

    pub fn id(&self) -> (id: usize)
        ensures
            id == self.id,
    {
        self.id
    }
}

/// A place where a ray meets an object: the distance along the ray, and the
/// number of the object.
#[derive(Debug, Clone, PartialEq)]
pub struct Intersection<T> {
    pub t: T,
    pub object: usize,
}

impl<T> Intersection<T> {
    pub fn new(t: T, object: usize) -> (i: Self)
        ensures
            i == (Intersection { t, object }),
    {
        Self { t, object }
    }
}

/// The nearer root of the equation: `(-b - root) / (2 * a)`, where `root` is
/// the square root of the discriminant.
pub open spec fn near_root<T: Scalar>(a: T, b: T, root: T) -> T {
    b.neg_spec().sub_spec(root).div_spec(two::<T>().mul_spec(a))
}

/// The farther root of the equation: `(-b + root) / (2 * a)`.
pub open spec fn far_root<T: Scalar>(a: T, b: T, root: T) -> T {
    b.neg_spec().add_spec(root).div_spec(two::<T>().mul_spec(a))
}

/// Whether every operation of the two roots is allowed on its operands.
pub open spec fn roots_req<T: Scalar>(a: T, b: T, root: T) -> bool {
    &&& b.neg_req()
    &&& b.neg_spec().sub_req(root)
    &&& b.neg_spec().add_req(root)
    &&& two::<T>().mul_req(a)
    &&& b.neg_spec().sub_spec(root).div_req(two::<T>().mul_spec(a))
    &&& b.neg_spec().add_spec(root).div_req(two::<T>().mul_spec(a))
}

/// The two places where a ray meets object `id`, the nearer first.
pub open spec fn hits<T: Scalar>(id: usize, a: T, b: T, root: T) -> Seq<Intersection<T>> {
    seq![
        Intersection { t: near_root(a, b, root), object: id },
        Intersection { t: far_root(a, b, root), object: id },
    ]
}

/// What a ray does to a sphere: it meets it in two places, which may be one
/// and the same, or it passes by.
#[derive(Debug, Clone, PartialEq)]
pub enum Interaction<T> {
    Collision(Vec<Intersection<T>>),
    Miss,
}

impl<T> Interaction<T> {
    /// The places of a collision in their order; none for a miss.
    pub open spec fn places(self) -> Option<Seq<Intersection<T>>> {
        match self {
            Interaction::Collision(v) => Some(v@),
            Interaction::Miss => None,
        }
    }
}

impl<T: Scalar> Interaction<T> {
    /// The collision of a ray with object `id`, from the coefficients `a`
    /// and `b` of its equation and the square root of its discriminant.
    pub fn from_root(id: usize, a: T, b: T, root: T) -> (i: Self)
        requires
            obeys_arith::<T>(),
            roots_req(a, b, root),
        ensures
            i.places() == Some(hits(id, a, b, root)),
    {
        let near = (b.neg() - root) / (number::<T>(2i8) * a);
        let far = (b.neg() + root) / (number::<T>(2i8) * a);
        let mut places = Vec::new();
        places.push(Intersection::new(near, id));
        places.push(Intersection::new(far, id));
        assert(places@ =~= hits(id, a, b, root));
        Interaction::Collision(places)
    }

    /// What `ray` does to the unit sphere `sphere`. A negative discriminant
    /// is a miss. Otherwise the ray meets the sphere at the two roots of its
    /// equation, the nearer first, with `sqrt` to compute the square root of
    /// the discriminant: also where the two are equal, and where they lie
    /// behind the origin of the ray.
    pub fn new<F: Fn(T) -> T>(sphere: &mut Sphere, ray: Ray<T>, sqrt: F) -> (i: Self)
        requires
            obeys_arith::<T>(),
            ray.discriminant_req(),
            !below(ray.discriminant(), zero::<T>()) ==> {
                &&& call_requires(sqrt, (ray.discriminant(),))
                &&& forall|root: T| #[trigger]
                    call_ensures(sqrt, (ray.discriminant(),), root) ==> roots_req(
                        ray.quadratic_a(),
                        ray.quadratic_b(),
                        root,
                    )
            },
        ensures
            *final(sphere) == *old(sphere),
            below(ray.discriminant(), zero::<T>()) ==> i.places() is None,
            !below(ray.discriminant(), zero::<T>()) ==> exists|root: T|
                {
                    &&& #[trigger] call_ensures(sqrt, (ray.discriminant(),), root)
                    &&& i.places() == Some(
                        hits(old(sphere).id, ray.quadratic_a(), ray.quadratic_b(), root),
                    )
                },
    {
        let (a, b, d) = ray.quadratic();
        if is_below(d, number(0i8)) {
            return Interaction::Miss;
        }
        let root = sqrt(d);
        Interaction::from_root(sphere.id(), a, b, root)
    }
}

/// `typed_arena::Arena`, of which the kernel sees nothing but what the
/// functions below say.
#[verifier::external_type_specification]
#[verifier::external_body]
#[verifier::reject_recursive_types(T)]
pub struct ExArena<T>(Arena<T>);

/// The spheres that an arena holds, in the order in which they were put
/// there.
pub uninterp spec fn arena_items(arena: Arena<Sphere>) -> Seq<Sphere>;

/// `Arena::new`: a fresh arena holds nothing.
#[verifier::external_body]
fn arena_new() -> (arena: Arena<Sphere>)
    ensures
        arena_items(arena) == Seq::<Sphere>::empty(),
{
    Arena::new()
}

/// `Arena::len`: the number of values put into the arena so far.
#[verifier::external_body]
fn arena_len(arena: &Arena<Sphere>) -> (n: usize)
    ensures
        n == arena_items(*arena).len(),
{
    arena.len()
}

/// `Arena::alloc`: moves `value` into the arena, behind the values that it
/// holds already, and hands back a reference to where it now lives. What is
/// written through that reference is written to the arena's last value.
#[verifier::external_body]
fn arena_alloc(arena: &mut Arena<Sphere>, value: Sphere) -> (slot: &mut Sphere)
    ensures
        *slot == value,
        arena_items(*final(arena)) == arena_items(*old(arena)).push(*final(slot)),
{
    arena.alloc(value)
}

/// The owner of the spheres. It numbers them as it makes them, from zero, in
/// the order of their making, and never gives a number twice.
pub struct Scene {
    objects: Arena<Sphere>,
}

impl Scene {
    /// The spheres of the scene, in the order of their making.
    pub closed spec fn spheres(&self) -> Seq<Sphere> {
        arena_items(self.objects)
    }

    /// How many spheres the scene has made.
    pub open spec fn count(&self) -> nat {
        self.spheres().len()
    }

    /// A scene without spheres.
    pub fn new() -> (scene: Self)
        ensures
            scene.spheres() == Seq::<Sphere>::empty(),
    {
        Self { objects: arena_new() }
    }

    /// How many spheres the scene has made.
    pub fn len(&self) -> (n: usize)
        ensures
            n == self.count(),
    {
        arena_len(&self.objects)
    }

    /// Makes a sphere, whose number is the count of those made before it, and
    /// hands it out for as long as the scene is not used otherwise. The
    /// spheres made before stay as they are.
    pub fn sphere(&mut self) -> (s: &mut Sphere)
        ensures
            s.id == old(self).count(),
            final(self).spheres() == old(self).spheres().push(*final(s)),
    {
        let new_id = arena_len(&self.objects);
        let s = arena_alloc(&mut self.objects, Sphere::new(new_id));
        s
    }
}

} // verus!
