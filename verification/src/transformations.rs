//! Affine transformations that remember what kind they are, so that a chain
//! of them keeps a meaningful kind and a translation leaves vectors alone.
use crate::algebra::{
    applied4, applied4_req, inverse4, inverse4_req, product4, product4_req, rotation_x,
    rotation_y, rotation_z, scaling, shear, translation,
};
use crate::descartes::{Point3D, Vector3D};
use crate::matrix::{M4, point_column, vector_column};
use crate::scalar::{obeys_arith, Scalar};
use vstd::prelude::*;
use vstd::std_specs::convert::FromSpec;
use vstd::std_specs::ops::NegSpec;

verus! {

/// A matrix of order four tagged with the kind of transformation it stands
/// for. `Matrix` is the kind of a matrix that has none.
#[derive(Debug, Copy, Clone, PartialEq)]
pub enum Transformation<T> {
    Translation(M4<T>),
    Rotation(M4<T>),
    Scaling(M4<T>),
    Shear(M4<T>),
    Matrix(M4<T>),
}

impl<T> Transformation<T> {
    /// The matrix that the transformation applies.
    pub open spec fn matrix(self) -> M4<T> {
        match self {
            Transformation::Translation(m) => m,
            Transformation::Rotation(m) => m,
            Transformation::Scaling(m) => m,
            Transformation::Shear(m) => m,
            Transformation::Matrix(m) => m,
        }
    }

    /// The transformation of the same kind as `self` that applies `m`.
    pub open spec fn with_matrix(self, m: M4<T>) -> Transformation<T> {
        match self {
            Transformation::Translation(_) => Transformation::Translation(m),
            Transformation::Rotation(_) => Transformation::Rotation(m),
            Transformation::Scaling(_) => Transformation::Scaling(m),
            Transformation::Shear(_) => Transformation::Shear(m),
            Transformation::Matrix(_) => Transformation::Matrix(m),
        }
    }

    /// Whether two transformations are of the same kind.
    pub open spec fn same_kind(self, other: Transformation<T>) -> bool {
        self.with_matrix(other.matrix()) == other
    }

    /// The product `self * rhs`: the product of the two matrices, of the
    /// kind of `self`, or of the kind of `rhs` where `self` has none.
    pub open spec fn composed(self, rhs: Transformation<T>, m: M4<T>) -> Transformation<T> {
        if self is Matrix {
            rhs.with_matrix(m)
        } else {
            self.with_matrix(m)
        }
    }
}

impl<T: Copy> Transformation<T> {
    /// The matrix that the transformation applies.
    pub fn to_matrix(&self) -> (m: M4<T>)
        ensures
            m == self.matrix(),
    {
        match self {
            Transformation::Translation(m) => *m,
            Transformation::Rotation(m) => *m,
            Transformation::Scaling(m) => *m,
            Transformation::Shear(m) => *m,
            Transformation::Matrix(m) => *m,
        }
    }

    /// The transformation of the same kind as `self` that applies `m`.
    pub fn retagged(&self, m: M4<T>) -> (t: Transformation<T>)
        ensures
            t == self.with_matrix(m),
    {
        match self {
            Transformation::Translation(_) => Transformation::Translation(m),
            Transformation::Rotation(_) => Transformation::Rotation(m),
            Transformation::Scaling(_) => Transformation::Scaling(m),
            Transformation::Shear(_) => Transformation::Shear(m),
            Transformation::Matrix(_) => Transformation::Matrix(m),
        }
    }
}

impl<T: Scalar> Transformation<T> {
    /// The transformation of the same kind that applies the inverse matrix;
    /// none where the matrix is singular.
    pub fn inverse(self) -> (inv: Option<Self>)
        requires
            obeys_arith::<T>(),
            inverse4_req(self.matrix()@),
        ensures
            inv is Some <==> inverse4(self.matrix()@) is Some,
            inv is Some ==> inv->Some_0.same_kind(self),
            inv is Some ==> Some(inv->Some_0.matrix()@) == inverse4(self.matrix()@),
    {
        match self.to_matrix().inverse() {
            Some(m) => Some(self.retagged(m)),
            None => None,
        }
    }

    /// The translation by `(x, y, z)`.
    pub fn translation(x: T, y: T, z: T) -> (t: Transformation<T>)
        ensures
            t is Translation,
            T::obeys_from_spec() ==> t.matrix()@ == translation(x, y, z),
    {
        Transformation::Translation(M4::translation(x, y, z))
    }

    /// The rotation about the x axis by `r` radians, with `cos` and `sin` to
    /// compute the cosine and the sine of the angle.
    pub fn rotation_x<C: Fn(T) -> T, S: Fn(T) -> T>(r: T, cos: C, sin: S) -> (t: Transformation<T>)
        requires
            call_requires(cos, (r,)),
            call_requires(sin, (r,)),
            forall|s: T| #[trigger] call_ensures(sin, (r,), s) ==> s.neg_req(),
        ensures
            t is Rotation,
            T::obeys_from_spec() && T::obeys_neg_spec() ==> exists|c: T, s: T|
                {
                    &&& #[trigger] call_ensures(cos, (r,), c)
                    &&& #[trigger] call_ensures(sin, (r,), s)
                    &&& t.matrix()@ == rotation_x(c, s)
                },
    {
        Transformation::Rotation(M4::x_rotation(r, cos, sin))
    }

    /// The rotation about the y axis by `r` radians, with `cos` and `sin` to
    /// compute the cosine and the sine of the angle.
    pub fn rotation_y<C: Fn(T) -> T, S: Fn(T) -> T>(r: T, cos: C, sin: S) -> (t: Transformation<T>)
        requires
            call_requires(cos, (r,)),
            call_requires(sin, (r,)),
            forall|s: T| #[trigger] call_ensures(sin, (r,), s) ==> s.neg_req(),
        ensures
            t is Rotation,
            T::obeys_from_spec() && T::obeys_neg_spec() ==> exists|c: T, s: T|
                {
                    &&& #[trigger] call_ensures(cos, (r,), c)
                    &&& #[trigger] call_ensures(sin, (r,), s)
                    &&& t.matrix()@ == rotation_y(c, s)
                },
    {
        Transformation::Rotation(M4::y_rotation(r, cos, sin))
    }

    /// The rotation about the z axis by `r` radians, with `cos` and `sin` to
    /// compute the cosine and the sine of the angle.
    pub fn rotation_z<C: Fn(T) -> T, S: Fn(T) -> T>(r: T, cos: C, sin: S) -> (t: Transformation<T>)
        requires
            call_requires(cos, (r,)),
            call_requires(sin, (r,)),
            forall|s: T| #[trigger] call_ensures(sin, (r,), s) ==> s.neg_req(),
        ensures
            t is Rotation,
            T::obeys_from_spec() && T::obeys_neg_spec() ==> exists|c: T, s: T|
                {
                    &&& #[trigger] call_ensures(cos, (r,), c)
                    &&& #[trigger] call_ensures(sin, (r,), s)
                    &&& t.matrix()@ == rotation_z(c, s)
                },
    {
        Transformation::Rotation(M4::z_rotation(r, cos, sin))
    }

    /// The scaling by `(x, y, z)`.
    pub fn scaling(x: T, y: T, z: T) -> (t: Transformation<T>)
        ensures
            t is Scaling,
            T::obeys_from_spec() ==> t.matrix()@ == scaling(x, y, z),
    {
        Transformation::Scaling(M4::scaling(x, y, z))
    }

    /// The shear with the six given shares.
    pub fn shear(xy: T, xz: T, yx: T, yz: T, zx: T, zy: T) -> (t: Self)
        ensures
            t is Shear,
            T::obeys_from_spec() ==> t.matrix()@ == shear(xy, xz, yx, yz, zx, zy),
    {
        Transformation::Shear(M4::shear(xy, xz, yx, yz, zx, zy))
    }
}

/// A transformation applied to a point: its matrix applied to the point's
/// homogeneous coordinates, the fourth of which is dropped from the result.
impl<T: Scalar> vstd::std_specs::ops::MulSpecImpl<Point3D<T>> for Transformation<T> {
    open spec fn obeys_mul_spec() -> bool {
        obeys_arith::<T>()
    }

    open spec fn mul_req(self, rhs: Point3D<T>) -> bool {
        &&& obeys_arith::<T>()
        &&& applied4_req(self.matrix()@, point_column(rhs))
    }

    open spec fn mul_spec(self, rhs: Point3D<T>) -> Point3D<T> {
        let col = applied4(self.matrix()@, point_column(rhs));
        Point3D { x: col[0], y: col[1], z: col[2] }
    }
}

impl<T: Scalar> std::ops::Mul<Point3D<T>> for Transformation<T> {
    type Output = Point3D<T>;

    fn mul(self, rhs: Point3D<T>) -> Point3D<T> {
        let col = self.to_matrix() * rhs;
        Point3D::new(col.idx(0), col.idx(1), col.idx(2))
    }
}

/// A transformation applied to a vector. A translation leaves every vector
/// as it is; any other kind applies its matrix to the vector's homogeneous
/// coordinates and drops the fourth.
impl<T: Scalar> vstd::std_specs::ops::MulSpecImpl<Vector3D<T>> for Transformation<T> {
    open spec fn obeys_mul_spec() -> bool {
        obeys_arith::<T>()
    }

    open spec fn mul_req(self, rhs: Vector3D<T>) -> bool {
        !(self is Translation) ==> {
            &&& obeys_arith::<T>()
            &&& applied4_req(self.matrix()@, vector_column(rhs))
        }
    }

    open spec fn mul_spec(self, rhs: Vector3D<T>) -> Vector3D<T> {
        if self is Translation {
            rhs
        } else {
            let col = applied4(self.matrix()@, vector_column(rhs));
            Vector3D { x: col[0], y: col[1], z: col[2] }
        }
    }
}

impl<T: Scalar> std::ops::Mul<Vector3D<T>> for Transformation<T> {
    type Output = Vector3D<T>;

    fn mul(self, rhs: Vector3D<T>) -> (v: Vector3D<T>)
        ensures
            self is Translation ==> v == rhs,
    {
        match self {
            Transformation::Translation(_) => rhs,
            _ => {
                let col = self.to_matrix() * rhs;
                Vector3D::new(col.idx(0), col.idx(1), col.idx(2))
            },
        }
    }
}

/// The composition of two transformations, which applies `rhs` first: the
/// product of the two matrices, of the kind of `self`, or of the kind of `rhs`
/// where `self` has none.
impl<T: Scalar> vstd::std_specs::ops::MulSpecImpl<Transformation<T>> for Transformation<T> {
    open spec fn obeys_mul_spec() -> bool {
        obeys_arith::<T>()
    }

    open spec fn mul_req(self, rhs: Transformation<T>) -> bool {
        &&& obeys_arith::<T>()
        &&& product4_req(self.matrix()@, rhs.matrix()@)
    }

    open spec fn mul_spec(self, rhs: Transformation<T>) -> Transformation<T> {
        self.composed(rhs, M4::from_rows(product4(self.matrix()@, rhs.matrix()@)))
    }
}

impl<T: Scalar> std::ops::Mul<Transformation<T>> for Transformation<T> {
    type Output = Transformation<T>;

    fn mul(self, rhs: Transformation<T>) -> (t: Transformation<T>)
        ensures
            t.matrix()@ == product4(self.matrix()@, rhs.matrix()@),
            !(self is Matrix) ==> t.same_kind(self),
            self is Matrix ==> t.same_kind(rhs),
    {
        let m = self.to_matrix() * rhs.to_matrix();
        match self {
            Transformation::Matrix(_) => rhs.retagged(m),
            _ => self.retagged(m),
        }
    }
}

} // verus!
