//! The element type of the kernel and the vocabulary in which contracts
//! speak of its arithmetic.
use vstd::prelude::*;
use vstd::std_specs::cmp::{PartialEqSpec, PartialOrdIs, PartialOrdSpec};
use vstd::std_specs::convert::FromSpec;
use vstd::std_specs::ops::{AddSpec, DivSpec, MulSpec, NegSpec, SubSpec};

verus! {

/// A number type that the kernel can compute with: it is copied freely, has
/// the four arithmetic operators and negation, can be compared, and can be
/// made from a small integer.
pub trait Scalar:
    Copy
    + std::ops::Add<Output = Self>
    + std::ops::Sub<Output = Self>
    + std::ops::Mul<Output = Self>
    + std::ops::Div<Output = Self>
    + std::ops::Neg<Output = Self>
    + From<i8>
    + PartialEq
    + PartialOrd
{
}

impl<T> Scalar for T where
    T: Copy
        + std::ops::Add<Output = T>
        + std::ops::Sub<Output = T>
        + std::ops::Mul<Output = T>
        + std::ops::Div<Output = T>
        + std::ops::Neg<Output = T>
        + From<i8>
        + PartialEq
        + PartialOrd,
{
}

/// Whether the operators of `T` are functions of their operands, so that a
/// contract can name what each of them returns.
pub open spec fn obeys_arith<T: Scalar>() -> bool {
    &&& T::obeys_add_spec()
    &&& T::obeys_sub_spec()
    &&& T::obeys_mul_spec()
    &&& T::obeys_div_spec()
    &&& T::obeys_neg_spec()
    &&& T::obeys_from_spec()
    &&& T::obeys_eq_spec()
    &&& T::obeys_partial_cmp_spec()
}

/// The additive identity of `T`.
pub open spec fn zero<T: Scalar>() -> T {
    T::from_spec(0i8)
}

/// The multiplicative identity of `T`.
pub open spec fn one<T: Scalar>() -> T {
    T::from_spec(1i8)
}

/// The number two in `T`.
pub open spec fn two<T: Scalar>() -> T {
    T::from_spec(2i8)
}

/// The number four in `T`.
pub open spec fn four<T: Scalar>() -> T {
    T::from_spec(4i8)
}

/// Whether `a` compares equal to `b` under the `==` of `T`.
pub open spec fn same<T: Scalar>(a: T, b: T) -> bool {
    a.eq_spec(&b)
}

/// Whether `a` compares strictly below `b` under the `<` of `T`.
pub open spec fn below<T: Scalar>(a: T, b: T) -> bool {
    a.is_lt(&b)
}

/// The element of `T` that stands for the small integer `n`.
pub fn number<T: Scalar>(n: i8) -> (v: T)
    ensures
        T::obeys_from_spec() ==> v == T::from_spec(n),
{
    T::from(n)
}

/// Tests `a == b` in `T`.
pub fn is_same<T: Scalar>(a: T, b: T) -> (r: bool)
    ensures
        T::obeys_eq_spec() ==> r == same(a, b),
{
    a == b
}

/// Tests `a < b` in `T`.
pub fn is_below<T: Scalar>(a: T, b: T) -> (r: bool)
    ensures
        T::obeys_partial_cmp_spec() ==> r == below(a, b),
{
    a < b
}

/// The operators of `i64` are functions of their operands.
pub proof fn i64_obeys_arith()
    ensures
        obeys_arith::<i64>(),
{
}

/// The factor by which a number is multiplied before it is rounded for a
/// comparison to five decimals: ten to the fifth, as `T` computes it.
pub open spec fn resolution<T: Scalar>() -> T {
    let ten = T::from_spec(10i8);
    ten.mul_spec(ten).mul_spec(ten).mul_spec(ten).mul_spec(ten)
}

/// Whether `T` allows every product that makes up `resolution`.
pub open spec fn resolution_req<T: Scalar>() -> bool {
    let ten = T::from_spec(10i8);
    &&& ten.mul_req(ten)
    &&& ten.mul_spec(ten).mul_req(ten)
    &&& ten.mul_spec(ten).mul_spec(ten).mul_req(ten)
    &&& ten.mul_spec(ten).mul_spec(ten).mul_spec(ten).mul_req(ten)
}

/// Whether `a` and `b` can each be multiplied by `resolution` and handed to
/// `round`.
pub open spec fn close_req<T: Scalar, F: Fn(T) -> T>(a: T, b: T, round: F) -> bool {
    &&& a.mul_req(resolution::<T>())
    &&& b.mul_req(resolution::<T>())
    &&& call_requires(round, (a.mul_spec(resolution::<T>()),))
    &&& call_requires(round, (b.mul_spec(resolution::<T>()),))
}

/// Whether `round` can give, for `a` and for `b` each multiplied by
/// `resolution`, two results that compare equal.
pub open spec fn agree<T: Scalar, F: Fn(T) -> T>(a: T, b: T, round: F) -> bool {
    exists|l: T, r: T|
        {
            &&& #[trigger] call_ensures(round, (a.mul_spec(resolution::<T>()),), l)
            &&& #[trigger] call_ensures(round, (b.mul_spec(resolution::<T>()),), r)
            &&& same(l, r)
        }
}

/// Whether `round` can give, for `a` and for `b` each multiplied by
/// `resolution`, two results that do not compare equal.
pub open spec fn differ<T: Scalar, F: Fn(T) -> T>(a: T, b: T, round: F) -> bool {
    exists|l: T, r: T|
        {
            &&& #[trigger] call_ensures(round, (a.mul_spec(resolution::<T>()),), l)
            &&& #[trigger] call_ensures(round, (b.mul_spec(resolution::<T>()),), r)
            &&& !same(l, r)
        }
}

/// Ten to the fifth in `T`.
pub fn resolution_of<T: Scalar>() -> (k: T)
    requires
        obeys_arith::<T>(),
        resolution_req::<T>(),
    ensures
        k == resolution::<T>(),
{
    let ten: T = number(10i8);
    ten * ten * ten * ten * ten
}

/// Tests whether `a` and `b` are equal to five decimals: whether the two,
/// each multiplied by ten to the fifth and rounded by `round`, compare equal.
pub fn close<T: Scalar, F: Fn(T) -> T>(a: T, b: T, round: &F) -> (r: bool)
    requires
        obeys_arith::<T>(),
        resolution_req::<T>(),
        close_req(a, b, *round),
    ensures
        r ==> agree(a, b, *round),
        !r ==> differ(a, b, *round),
{
    let k: T = resolution_of();
    let lhs = round(a * k);
    let rhs = round(b * k);
    is_same(lhs, rhs)
}

/// Whether zero behaves in `T` as it does among numbers: a product with
/// zero is zero, zero plus zero, zero minus zero and minus zero are zero, and
/// zero compares equal to itself.
pub open spec fn zero_absorbs<T: Scalar>() -> bool {
    &&& forall|x: T| #[trigger] x.mul_spec(zero::<T>()) == zero::<T>()
    &&& forall|x: T| #[trigger] zero::<T>().mul_spec(x) == zero::<T>()
    &&& zero::<T>().add_spec(zero::<T>()) == zero::<T>()
    &&& zero::<T>().sub_spec(zero::<T>()) == zero::<T>()
    &&& zero::<T>().neg_spec() == zero::<T>()
    &&& same(zero::<T>(), zero::<T>())
}

/// Zero behaves in `i64` as it does among numbers.
pub proof fn i64_zero_absorbs()
    ensures
        zero_absorbs::<i64>(),
{
    assert(zero::<i64>() == 0i64);
    assert forall|x: i64| #[trigger] x.mul_spec(zero::<i64>()) == zero::<i64>() by {
        assert(x * 0 == 0);
    }
    assert forall|x: i64| #[trigger] zero::<i64>().mul_spec(x) == zero::<i64>() by {
        assert(0 * x == 0);
    }
    assert(same(zero::<i64>(), zero::<i64>()));
}

} // verus!
