//! Points and vectors in three dimensions, as two separate types: only the
//! sums and differences that have a geometric meaning exist.
use crate::scalar::{agree, close, close_req, differ, obeys_arith, resolution_req, Scalar};
use vstd::prelude::*;
use vstd::std_specs::convert::FromSpec;
use vstd::std_specs::ops::{AddSpec, DivSpec, MulSpec, NegSpec, SubSpec};

verus! {

/// A location in space.
#[derive(Debug, Copy, Clone, PartialEq)]
pub struct Point3D<T> {
    pub x: T,
    pub y: T,
    pub z: T,
}

/// A displacement or direction in space.
#[derive(Debug, Copy, Clone, PartialEq)]
pub struct Vector3D<T> {
    pub x: T,
    pub y: T,
    pub z: T,
}

impl<T> Point3D<T> {
    /// The point at `(x, y, z)`.
    pub fn new(x: T, y: T, z: T) -> (p: Point3D<T>)
        ensures
            p == (Point3D { x, y, z }),
    {
        Point3D { x, y, z }
    }
}

impl<T: Copy> Point3D<T> {
    pub fn x(&self) -> (v: T)
        ensures
            v == self.x,
    {
        self.x
    }

    pub fn y(&self) -> (v: T)
        ensures
            v == self.y,
    {
        self.y
    }

    pub fn z(&self) -> (v: T)
        ensures
            v == self.z,
    {
        self.z
    }
}

impl<T> Vector3D<T> {
    /// The vector `(x, y, z)`.
    pub fn new(x: T, y: T, z: T) -> (v: Vector3D<T>)
        ensures
            v == (Vector3D { x, y, z }),
    {
        Vector3D { x, y, z }
    }

    /// The same vector over another element type, each coordinate converted
    /// on its own.
    pub fn flt<U: From<T>>(self) -> (v: Vector3D<U>)
        ensures
            U::obeys_from_spec() ==> v == (Vector3D {
                x: U::from_spec(self.x),
                y: U::from_spec(self.y),
                z: U::from_spec(self.z),
            }),
    {
        Vector3D { x: U::from(self.x), y: U::from(self.y), z: U::from(self.z) }
    }
}

impl<T: Copy> Vector3D<T> {
    pub fn x(&self) -> (v: T)
        ensures
            v == self.x,
    {
        self.x
    }

    pub fn y(&self) -> (v: T)
        ensures
            v == self.y,
    {
        self.y
    }

    pub fn z(&self) -> (v: T)
        ensures
            v == self.z,
    {
        self.z
    }
}

impl<T: Scalar> Point3D<T> {
    /// Whether the two points are equal to five decimals: whether each pair
    /// of matching coordinates, multiplied by ten to the fifth and rounded by
    /// `round`, compares equal.
    pub fn approx_eq<F: Fn(T) -> T>(&self, other: &Point3D<T>, round: F) -> (r: bool)
        requires
            obeys_arith::<T>(),
            resolution_req::<T>(),
            close_req(self.x, other.x, round),
            close_req(self.y, other.y, round),
            close_req(self.z, other.z, round),
        ensures
            r ==> agree(self.x, other.x, round) && agree(self.y, other.y, round) && agree(
                self.z,
                other.z,
                round,
            ),
            !r ==> differ(self.x, other.x, round) || differ(self.y, other.y, round) || differ(
                self.z,
                other.z,
                round,
            ),
    {
        close(self.x, other.x, &round) && close(self.y, other.y, &round) && close(
            self.z,
            other.z,
            &round,
        )
    }
}

impl<T: Scalar> Vector3D<T> {
    /// Whether the two vectors are equal to five decimals: whether each pair
    /// of matching coordinates, multiplied by ten to the fifth and rounded by
    /// `round`, compares equal.
    pub fn approx_eq<F: Fn(T) -> T>(&self, other: &Vector3D<T>, round: F) -> (r: bool)
        requires
            obeys_arith::<T>(),
            resolution_req::<T>(),
            close_req(self.x, other.x, round),
            close_req(self.y, other.y, round),
            close_req(self.z, other.z, round),
        ensures
            r ==> agree(self.x, other.x, round) && agree(self.y, other.y, round) && agree(
                self.z,
                other.z,
                round,
            ),
            !r ==> differ(self.x, other.x, round) || differ(self.y, other.y, round) || differ(
                self.z,
                other.z,
                round,
            ),
    {
        close(self.x, other.x, &round) && close(self.y, other.y, &round) && close(
            self.z,
            other.z,
            &round,
        )
    }
}

impl<T: Scalar> Vector3D<T> {
    /// The dot product: the sum of the products of matching coordinates,
    /// added from left to right.
    pub open spec fn dot_spec(self, other: Vector3D<T>) -> T {
        self.x.mul_spec(other.x).add_spec(self.y.mul_spec(other.y)).add_spec(
            self.z.mul_spec(other.z),
        )
    }

    /// Whether every operation of the dot product is allowed on its operands.
    pub open spec fn dot_req(self, other: Vector3D<T>) -> bool {
        &&& self.x.mul_req(other.x)
        &&& self.y.mul_req(other.y)
        &&& self.z.mul_req(other.z)
        &&& self.x.mul_spec(other.x).add_req(self.y.mul_spec(other.y))
        &&& self.x.mul_spec(other.x).add_spec(self.y.mul_spec(other.y)).add_req(
            self.z.mul_spec(other.z),
        )
    }

    /// The right-handed cross product.
    pub open spec fn cross_spec(self, other: Vector3D<T>) -> Vector3D<T> {
        Vector3D {
            x: self.y.mul_spec(other.z).sub_spec(self.z.mul_spec(other.y)),
            y: self.z.mul_spec(other.x).sub_spec(self.x.mul_spec(other.z)),
            z: self.x.mul_spec(other.y).sub_spec(self.y.mul_spec(other.x)),
        }
    }

    /// Whether every operation of the cross product is allowed on its
    /// operands.
    pub open spec fn cross_req(self, other: Vector3D<T>) -> bool {
        &&& self.y.mul_req(other.z)
        &&& self.z.mul_req(other.y)
        &&& self.z.mul_req(other.x)
        &&& self.x.mul_req(other.z)
        &&& self.x.mul_req(other.y)
        &&& self.y.mul_req(other.x)
        &&& self.y.mul_spec(other.z).sub_req(self.z.mul_spec(other.y))
        &&& self.z.mul_spec(other.x).sub_req(self.x.mul_spec(other.z))
        &&& self.x.mul_spec(other.y).sub_req(self.y.mul_spec(other.x))
    }

    /// The squared length: the dot product of the vector with itself.
    pub open spec fn norm_squared(self) -> T {
        self.dot_spec(self)
    }

    pub fn dot(self, other: Vector3D<T>) -> (d: T)
        requires
            obeys_arith::<T>(),
            self.dot_req(other),
        ensures
            d == self.dot_spec(other),
    {
        let x = self.x * other.x;
        let y = self.y * other.y;
        let z = self.z * other.z;
        x + y + z
    }

    pub fn cross(self, other: Self) -> (v: Self)
        requires
            obeys_arith::<T>(),
            self.cross_req(other),
        ensures
            v == self.cross_spec(other),
    {
        let x = (self.y * other.z) - (self.z * other.y);
        let y = (self.z * other.x) - (self.x * other.z);
        let z = (self.x * other.y) - (self.y * other.x);
        Vector3D::new(x, y, z)
    }

    /// The length of the vector: what `sqrt` returns for the squared length.
    pub fn mag<F: Fn(T) -> T>(&self, sqrt: F) -> (m: T)
        requires
            obeys_arith::<T>(),
            self.dot_req(*self),
            call_requires(sqrt, (self.norm_squared(),)),
        ensures
            call_ensures(sqrt, (self.norm_squared(),), m),
    {
        sqrt(self.dot(*self))
    }

    /// The vector divided by its own length, which `sqrt` computes from the
    /// squared length.
    pub fn normalize<F: Fn(T) -> T>(self, sqrt: F) -> (unit: Vector3D<T>)
        requires
            obeys_arith::<T>(),
            self.dot_req(self),
            call_requires(sqrt, (self.norm_squared(),)),
            forall|m: T| #[trigger]
                call_ensures(sqrt, (self.norm_squared(),), m) ==> self.div_req(m),
        ensures
            exists|m: T| #[trigger]
                call_ensures(sqrt, (self.norm_squared(),), m) && unit == self.div_spec(m),
    {
        let mag = self.mag(sqrt);
        Vector3D::new(self.x / mag, self.y / mag, self.z / mag)
    }
}

/// The displacement that leads from `rhs` to `self`.
impl<T: std::ops::Sub<Output = T>> vstd::std_specs::ops::SubSpecImpl<Point3D<T>> for Point3D<T> {
    open spec fn obeys_sub_spec() -> bool {
        T::obeys_sub_spec()
    }

    open spec fn sub_req(self, rhs: Point3D<T>) -> bool {
        &&& self.x.sub_req(rhs.x)
        &&& self.y.sub_req(rhs.y)
        &&& self.z.sub_req(rhs.z)
    }

    open spec fn sub_spec(self, rhs: Point3D<T>) -> Vector3D<T> {
        Vector3D {
            x: self.x.sub_spec(rhs.x),
            y: self.y.sub_spec(rhs.y),
            z: self.z.sub_spec(rhs.z),
        }
    }
}

impl<T: std::ops::Sub<Output = T>> std::ops::Sub<Point3D<T>> for Point3D<T> {
    type Output = Vector3D<T>;

    fn sub(self, rhs: Point3D<T>) -> Vector3D<T> {
        Vector3D::new(self.x - rhs.x, self.y - rhs.y, self.z - rhs.z)
    }
}

/// The point reached from `self` by going back along `rhs`.
impl<T: std::ops::Sub<Output = T>> vstd::std_specs::ops::SubSpecImpl<Vector3D<T>> for Point3D<T> {
    open spec fn obeys_sub_spec() -> bool {
        T::obeys_sub_spec()
    }

    open spec fn sub_req(self, rhs: Vector3D<T>) -> bool {
        &&& self.x.sub_req(rhs.x)
        &&& self.y.sub_req(rhs.y)
        &&& self.z.sub_req(rhs.z)
    }

    open spec fn sub_spec(self, rhs: Vector3D<T>) -> Point3D<T> {
        Point3D {
            x: self.x.sub_spec(rhs.x),
            y: self.y.sub_spec(rhs.y),
            z: self.z.sub_spec(rhs.z),
        }
    }
}

impl<T: std::ops::Sub<Output = T>> std::ops::Sub<Vector3D<T>> for Point3D<T> {
    type Output = Point3D<T>;

    fn sub(self, rhs: Vector3D<T>) -> Point3D<T> {
        Point3D::new(self.x - rhs.x, self.y - rhs.y, self.z - rhs.z)
    }
}

/// The difference of two displacements.
impl<T: std::ops::Sub<Output = T>> vstd::std_specs::ops::SubSpecImpl<Vector3D<T>> for Vector3D<T> {
    open spec fn obeys_sub_spec() -> bool {
        T::obeys_sub_spec()
    }

    open spec fn sub_req(self, rhs: Vector3D<T>) -> bool {
        &&& self.x.sub_req(rhs.x)
        &&& self.y.sub_req(rhs.y)
        &&& self.z.sub_req(rhs.z)
    }

    open spec fn sub_spec(self, rhs: Vector3D<T>) -> Vector3D<T> {
        Vector3D {
            x: self.x.sub_spec(rhs.x),
            y: self.y.sub_spec(rhs.y),
            z: self.z.sub_spec(rhs.z),
        }
    }
}

impl<T: std::ops::Sub<Output = T>> std::ops::Sub<Vector3D<T>> for Vector3D<T> {
    type Output = Vector3D<T>;

    fn sub(self, rhs: Vector3D<T>) -> Vector3D<T> {
        Vector3D::new(self.x - rhs.x, self.y - rhs.y, self.z - rhs.z)
    }
}

/// The opposite displacement.
impl<T: std::ops::Neg<Output = T>> vstd::std_specs::ops::NegSpecImpl for Vector3D<T> {
    open spec fn obeys_neg_spec() -> bool {
        T::obeys_neg_spec()
    }

    open spec fn neg_req(self) -> bool {
        &&& self.x.neg_req()
        &&& self.y.neg_req()
        &&& self.z.neg_req()
    }

    open spec fn neg_spec(self) -> Vector3D<T> {
        Vector3D { x: self.x.neg_spec(), y: self.y.neg_spec(), z: self.z.neg_spec() }
    }
}

impl<T: std::ops::Neg<Output = T>> std::ops::Neg for Vector3D<T> {
    type Output = Vector3D<T>;

    fn neg(self) -> Vector3D<T> {
        Vector3D::new(self.x.neg(), self.y.neg(), self.z.neg())
    }
}

/// The point reached from `self` by going along `rhs`.
impl<T: std::ops::Add<Output = T>> vstd::std_specs::ops::AddSpecImpl<Vector3D<T>> for Point3D<T> {
    open spec fn obeys_add_spec() -> bool {
        T::obeys_add_spec()
    }

    open spec fn add_req(self, rhs: Vector3D<T>) -> bool {
        &&& self.x.add_req(rhs.x)
        &&& self.y.add_req(rhs.y)
        &&& self.z.add_req(rhs.z)
    }

    open spec fn add_spec(self, rhs: Vector3D<T>) -> Point3D<T> {
        Point3D {
            x: self.x.add_spec(rhs.x),
            y: self.y.add_spec(rhs.y),
            z: self.z.add_spec(rhs.z),
        }
    }
}

impl<T: std::ops::Add<Output = T>> std::ops::Add<Vector3D<T>> for Point3D<T> {
    type Output = Point3D<T>;

    fn add(self, rhs: Vector3D<T>) -> Point3D<T> {
        Point3D::new(self.x + rhs.x, self.y + rhs.y, self.z + rhs.z)
    }
}

/// The point reached from `rhs` by going along `self`.
impl<T: std::ops::Add<Output = T>> vstd::std_specs::ops::AddSpecImpl<Point3D<T>> for Vector3D<T> {
    open spec fn obeys_add_spec() -> bool {
        T::obeys_add_spec()
    }

    open spec fn add_req(self, rhs: Point3D<T>) -> bool {
        &&& self.x.add_req(rhs.x)
        &&& self.y.add_req(rhs.y)
        &&& self.z.add_req(rhs.z)
    }

    open spec fn add_spec(self, rhs: Point3D<T>) -> Point3D<T> {
        Point3D {
            x: self.x.add_spec(rhs.x),
            y: self.y.add_spec(rhs.y),
            z: self.z.add_spec(rhs.z),
        }
    }
}

impl<T: std::ops::Add<Output = T>> std::ops::Add<Point3D<T>> for Vector3D<T> {
    type Output = Point3D<T>;

    fn add(self, rhs: Point3D<T>) -> Point3D<T> {
        Point3D::new(self.x + rhs.x, self.y + rhs.y, self.z + rhs.z)
    }
}

/// The sum of two displacements.
impl<T: std::ops::Add<Output = T>> vstd::std_specs::ops::AddSpecImpl<Vector3D<T>> for Vector3D<T> {
    open spec fn obeys_add_spec() -> bool {
        T::obeys_add_spec()
    }

    open spec fn add_req(self, rhs: Vector3D<T>) -> bool {
        &&& self.x.add_req(rhs.x)
        &&& self.y.add_req(rhs.y)
        &&& self.z.add_req(rhs.z)
    }

    open spec fn add_spec(self, rhs: Vector3D<T>) -> Vector3D<T> {
        Vector3D {
            x: self.x.add_spec(rhs.x),
            y: self.y.add_spec(rhs.y),
            z: self.z.add_spec(rhs.z),
        }
    }
}

impl<T: std::ops::Add<Output = T>> std::ops::Add<Vector3D<T>> for Vector3D<T> {
    type Output = Vector3D<T>;

    fn add(self, rhs: Vector3D<T>) -> Vector3D<T> {
        Vector3D::new(self.x + rhs.x, self.y + rhs.y, self.z + rhs.z)
    }
}

/// The vector stretched by a scalar factor.
impl<T: std::ops::Mul<Output = T> + Copy> vstd::std_specs::ops::MulSpecImpl<T> for Vector3D<T> {
    open spec fn obeys_mul_spec() -> bool {
        T::obeys_mul_spec()
    }

    open spec fn mul_req(self, scalar: T) -> bool {
        &&& self.x.mul_req(scalar)
        &&& self.y.mul_req(scalar)
        &&& self.z.mul_req(scalar)
    }

    open spec fn mul_spec(self, scalar: T) -> Vector3D<T> {
        Vector3D {
            x: self.x.mul_spec(scalar),
            y: self.y.mul_spec(scalar),
            z: self.z.mul_spec(scalar),
        }
    }
}

impl<T: std::ops::Mul<Output = T> + Copy> std::ops::Mul<T> for Vector3D<T> {
    type Output = Vector3D<T>;

    fn mul(self, scalar: T) -> Vector3D<T> {
        Vector3D::new(self.x * scalar, self.y * scalar, self.z * scalar)
    }
}

/// The vector shrunk by a scalar divisor.
impl<T: std::ops::Div<Output = T> + Copy> vstd::std_specs::ops::DivSpecImpl<T> for Vector3D<T> {
    open spec fn obeys_div_spec() -> bool {
        T::obeys_div_spec()
    }

    open spec fn div_req(self, scalar: T) -> bool {
        &&& self.x.div_req(scalar)
        &&& self.y.div_req(scalar)
        &&& self.z.div_req(scalar)
    }

    open spec fn div_spec(self, scalar: T) -> Vector3D<T> {
        Vector3D {
            x: self.x.div_spec(scalar),
            y: self.y.div_spec(scalar),
            z: self.z.div_spec(scalar),
        }
    }
}

impl<T: std::ops::Div<Output = T> + Copy> std::ops::Div<T> for Vector3D<T> {
    type Output = Vector3D<T>;

    fn div(self, scalar: T) -> Vector3D<T> {
        Vector3D::new(self.x / scalar, self.y / scalar, self.z / scalar)
    }
}

} // verus!
