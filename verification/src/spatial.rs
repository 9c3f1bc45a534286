//! Points and vectors under one type, with an addition that is checked when
//! it runs.
use crate::error::Error;
use vstd::prelude::*;
use vstd::std_specs::ops::AddSpec;

verus! {

/// A point or a vector, told apart by its variant.
#[derive(Debug, Copy, Clone, PartialEq)]
pub enum Spatial<T> {
    Point3D { x: T, y: T, z: T },
    Vector3D { x: T, y: T, z: T },
}

impl<T> Spatial<T> {
    /// The point at `(x, y, z)`.
    pub fn point(x: T, y: T, z: T) -> (s: Self)
        ensures
            s == (Spatial::Point3D { x, y, z }),
    {
        Spatial::Point3D { x, y, z }
    }

    /// The vector `(x, y, z)`.
    pub fn vector(x: T, y: T, z: T) -> (s: Self)
        ensures
            s == (Spatial::Vector3D { x, y, z }),
    {
        Spatial::Vector3D { x, y, z }
    }

    /// Whether the value is a point.
    pub open spec fn is_point(self) -> bool {
        self is Point3D
    }

    /// The three coordinates, whichever the variant.
    pub open spec fn coords(self) -> (T, T, T) {
        match self {
            Spatial::Point3D { x, y, z } => (x, y, z),
            Spatial::Vector3D { x, y, z } => (x, y, z),
        }
    }
}

impl<T: std::ops::Add<Output = T>> vstd::std_specs::ops::AddSpecImpl for Spatial<T> {
    open spec fn obeys_add_spec() -> bool {
        T::obeys_add_spec()
    }

    /// Two points need nothing, since nothing is added; otherwise each pair
    /// of coordinates must be addable.
    open spec fn add_req(self, other: Spatial<T>) -> bool {
        !(self.is_point() && other.is_point()) ==> {
            &&& self.coords().0.add_req(other.coords().0)
            &&& self.coords().1.add_req(other.coords().1)
            &&& self.coords().2.add_req(other.coords().2)
        }
    }

    /// Point and point is refused. A point on either side gives a point, two
    /// vectors give a vector, each coordinate the sum of the operands'.
    open spec fn add_spec(self, other: Spatial<T>) -> Result<Spatial<T>, Error> {
        let x = self.coords().0.add_spec(other.coords().0);
        let y = self.coords().1.add_spec(other.coords().1);
        let z = self.coords().2.add_spec(other.coords().2);
        if self.is_point() && other.is_point() {
            Err(Error::NonsensicalAddition)
        } else if self.is_point() || other.is_point() {
            Ok(Spatial::Point3D { x, y, z })
        } else {
            Ok(Spatial::Vector3D { x, y, z })
        }
    }
}

impl<T: std::ops::Add<Output = T>> std::ops::Add for Spatial<T> {
    type Output = Result<Spatial<T>, Error>;

    fn add(self, other: Spatial<T>) -> (sum: Result<Spatial<T>, Error>)
        ensures
            sum is Err <==> self.is_point() && other.is_point(),
            sum is Ok ==> (sum->Ok_0.is_point() <==> self.is_point() || other.is_point()),
    {
        match self {
            Spatial::Point3D { x, y, z } => {
                let a = x;
                let b = y;
                let c = z;
                match other {
                    Spatial::Vector3D { x, y, z } => Ok(
                        Spatial::Point3D { x: a + x, y: b + y, z: c + z },
                    ),
                    Spatial::Point3D { .. } => Err(Error::NonsensicalAddition),
                }
            },
            Spatial::Vector3D { x, y, z } => {
                let a = x;
                let b = y;
                let c = z;
                match other {
                    Spatial::Point3D { x, y, z } => Ok(
                        Spatial::Point3D { x: a + x, y: b + y, z: c + z },
                    ),
                    Spatial::Vector3D { x, y, z } => Ok(
                        Spatial::Vector3D { x: a + x, y: b + y, z: c + z },
                    ),
                }
            },
        }
    }
}

} // verus!
