//! The mathematics of square matrices, over rows of elements: what the
//! matrix types compute, written down once for every order.
use crate::scalar::{agree, close_req, differ, one, same, Scalar, zero, zero_absorbs};
use vstd::prelude::*;
use vstd::std_specs::ops::{AddSpec, DivSpec, MulSpec, NegSpec, SubSpec};

verus! {

/// Whether `m` has `n` rows of `n` elements each.
pub open spec fn is_square<T>(m: Seq<Seq<T>>, n: nat) -> bool {
    &&& m.len() == n
    &&& forall|r: int| 0 <= r < n ==> (#[trigger] m[r]).len() == n
}

/// The index in a matrix that lands on index `i` once row or column `gone`
/// is deleted: indices below `gone` stay, the others move down by one.
pub open spec fn skip_index(i: int, gone: int) -> int {
    if i < gone {
        i
    } else {
        i + 1
    }
}

/// The matrix of order `n` whose element at `(r, c)` is `f(r, c)`.
pub open spec fn tabulate<T>(n: nat, f: spec_fn(int, int) -> T) -> Seq<Seq<T>> {
    Seq::new(n, |r: int| Seq::new(n, |c: int| f(r, c)))
}

/// The matrix of order `n` that holds zero everywhere.
pub open spec fn zeros<T: Scalar>(n: nat) -> Seq<Seq<T>> {
    tabulate(n, |r: int, c: int| zero::<T>())
}

/// The identity matrix of order `n`: one on the diagonal, zero elsewhere.
pub open spec fn identity<T: Scalar>(n: nat) -> Seq<Seq<T>> {
    tabulate(
        n,
        |r: int, c: int|
            if r == c {
                one::<T>()
            } else {
                zero::<T>()
            },
    )
}

/// The transpose: rows and columns change places.
pub open spec fn transposed<T>(m: Seq<Seq<T>>) -> Seq<Seq<T>> {
    tabulate(m.len(), |r: int, c: int| m[c][r])
}

/// What is left of `m` once row `r` and column `c` are deleted, the remaining
/// rows and columns closing up.
pub open spec fn submatrix<T>(m: Seq<Seq<T>>, r: int, c: int) -> Seq<Seq<T>> {
    tabulate(
        (m.len() - 1) as nat,
        |i: int, j: int| m[skip_index(i, r)][skip_index(j, c)],
    )
}

/// Whether every pair of matching elements of two matrices of order `n` can
/// be compared to five decimals with `round`.
pub open spec fn close_req_all<T: Scalar, F: Fn(T) -> T>(
    a: Seq<Seq<T>>,
    b: Seq<Seq<T>>,
    n: nat,
    round: F,
) -> bool {
    forall|r: int, c: int|
        0 <= r < n && 0 <= c < n ==> close_req(#[trigger] a[r][c], #[trigger] b[r][c], round)
}

/// Whether two matrices of order `n` agree to five decimals in every
/// element.
pub open spec fn agree_all<T: Scalar, F: Fn(T) -> T>(
    a: Seq<Seq<T>>,
    b: Seq<Seq<T>>,
    n: nat,
    round: F,
) -> bool {
    forall|r: int, c: int|
        0 <= r < n && 0 <= c < n ==> agree(#[trigger] a[r][c], #[trigger] b[r][c], round)
}

/// Whether two matrices of order `n` differ to five decimals in some
/// element.
pub open spec fn differ_somewhere<T: Scalar, F: Fn(T) -> T>(
    a: Seq<Seq<T>>,
    b: Seq<Seq<T>>,
    n: nat,
    round: F,
) -> bool {
    exists|r: int, c: int|
        0 <= r < n && 0 <= c < n && differ(#[trigger] a[r][c], #[trigger] b[r][c], round)
}

/// The determinant of a matrix of order two.
pub open spec fn det2<T: Scalar>(m: Seq<Seq<T>>) -> T {
    m[0][0].mul_spec(m[1][1]).sub_spec(m[0][1].mul_spec(m[1][0]))
}

/// Whether every operation of `det2` is allowed on its operands.
pub open spec fn det2_req<T: Scalar>(m: Seq<Seq<T>>) -> bool {
    &&& m[0][0].mul_req(m[1][1])
    &&& m[0][1].mul_req(m[1][0])
    &&& m[0][0].mul_spec(m[1][1]).sub_req(m[0][1].mul_spec(m[1][0]))
}

/// A minor with the sign of its place: kept where `r + c` is even, negated
/// where it is odd.
pub open spec fn signed<T: Scalar>(minor: T, r: int, c: int) -> T {
    if (r + c) % 2 == 0 {
        minor
    } else {
        minor.neg_spec()
    }
}

/// Whether the minor can be given the sign of its place.
pub open spec fn signed_req<T: Scalar>(minor: T, r: int, c: int) -> bool {
    (r + c) % 2 != 0 ==> minor.neg_req()
}

/// The first `k` terms of the expansion along row zero, added from left to
/// right onto zero: term `c` is cofactor `c` times the element at `(0, c)`.
pub open spec fn expansion<T: Scalar>(row: Seq<T>, cofactors: Seq<T>, k: nat) -> T
    decreases k,
{
    if k == 0 {
        zero::<T>()
    } else {
        expansion(row, cofactors, (k - 1) as nat).add_spec(
            cofactors[k - 1].mul_spec(row[k - 1]),
        )
    }
}

/// Whether every operation of the first `k` terms of the expansion is allowed
/// on its operands.
pub open spec fn expansion_req<T: Scalar>(row: Seq<T>, cofactors: Seq<T>, k: nat) -> bool
    decreases k,
{
    if k == 0 {
        true
    } else {
        &&& expansion_req(row, cofactors, (k - 1) as nat)
        &&& cofactors[k - 1].mul_req(row[k - 1])
        &&& expansion(row, cofactors, (k - 1) as nat).add_req(
            cofactors[k - 1].mul_spec(row[k - 1]),
        )
    }
}

/// The minor of a matrix of order three: the determinant of its submatrix.
pub open spec fn minor3<T: Scalar>(m: Seq<Seq<T>>, r: int, c: int) -> T {
    det2(submatrix(m, r, c))
}

/// The cofactor of a matrix of order three: its minor, signed.
pub open spec fn cofactor3<T: Scalar>(m: Seq<Seq<T>>, r: int, c: int) -> T {
    signed(minor3(m, r, c), r, c)
}

/// Whether every operation of `cofactor3` is allowed on its operands.
pub open spec fn cofactor3_req<T: Scalar>(m: Seq<Seq<T>>, r: int, c: int) -> bool {
    &&& det2_req(submatrix(m, r, c))
    &&& signed_req(minor3(m, r, c), r, c)
}

/// The cofactors of row zero of a matrix of order three.
pub open spec fn top_cofactors3<T: Scalar>(m: Seq<Seq<T>>) -> Seq<T> {
    Seq::new(3, |c: int| cofactor3(m, 0, c))
}

/// The determinant of a matrix of order three, expanded along row zero.
pub open spec fn det3<T: Scalar>(m: Seq<Seq<T>>) -> T {
    expansion(m[0], top_cofactors3(m), 3)
}

/// Whether every operation of `det3` is allowed on its operands.
pub open spec fn det3_req<T: Scalar>(m: Seq<Seq<T>>) -> bool {
    &&& forall|c: int| 0 <= c < 3 ==> #[trigger] cofactor3_req(m, 0, c)
    &&& expansion_req(m[0], top_cofactors3(m), 3)
}

/// The minor of a matrix of order four: the determinant of its submatrix.
pub open spec fn minor4<T: Scalar>(m: Seq<Seq<T>>, r: int, c: int) -> T {
    det3(submatrix(m, r, c))
}

/// The cofactor of a matrix of order four: its minor, signed.
pub open spec fn cofactor4<T: Scalar>(m: Seq<Seq<T>>, r: int, c: int) -> T {
    signed(minor4(m, r, c), r, c)
}

/// Whether every operation of `cofactor4` is allowed on its operands.
pub open spec fn cofactor4_req<T: Scalar>(m: Seq<Seq<T>>, r: int, c: int) -> bool {
    &&& det3_req(submatrix(m, r, c))
    &&& signed_req(minor4(m, r, c), r, c)
}

/// The cofactors of row zero of a matrix of order four.
pub open spec fn top_cofactors4<T: Scalar>(m: Seq<Seq<T>>) -> Seq<T> {
    Seq::new(4, |c: int| cofactor4(m, 0, c))
}

/// The determinant of a matrix of order four, expanded along row zero.
pub open spec fn det4<T: Scalar>(m: Seq<Seq<T>>) -> T {
    expansion(m[0], top_cofactors4(m), 4)
}

/// Whether every operation of `det4` is allowed on its operands.
pub open spec fn det4_req<T: Scalar>(m: Seq<Seq<T>>) -> bool {
    &&& forall|c: int| 0 <= c < 4 ==> #[trigger] cofactor4_req(m, 0, c)
    &&& expansion_req(m[0], top_cofactors4(m), 4)
}

/// Whether a matrix of order four is singular: its determinant compares
/// equal to zero.
pub open spec fn singular4<T: Scalar>(m: Seq<Seq<T>>) -> bool {
    same(det4(m), zero::<T>())
}

/// The adjugate of a matrix of order four divided by its determinant: the
/// element at `(c, r)` is cofactor `(r, c)` over the determinant.
pub open spec fn adjugate_over_det4<T: Scalar>(m: Seq<Seq<T>>) -> Seq<Seq<T>> {
    tabulate(4, |i: int, j: int| cofactor4(m, j, i).div_spec(det4(m)))
}

/// The inverse of a matrix of order four, where it has one.
pub open spec fn inverse4<T: Scalar>(m: Seq<Seq<T>>) -> Option<Seq<Seq<T>>> {
    if singular4(m) {
        None
    } else {
        Some(adjugate_over_det4(m))
    }
}

/// Whether every operation of `inverse4` is allowed on its operands.
pub open spec fn inverse4_req<T: Scalar>(m: Seq<Seq<T>>) -> bool {
    &&& det4_req(m)
    &&& !singular4(m) ==> forall|r: int, c: int|
        0 <= r < 4 && 0 <= c < 4 ==> {
            &&& #[trigger] cofactor4_req(m, r, c)
            &&& cofactor4(m, r, c).div_req(det4(m))
        }
}

/// A row times a column of four elements each: the four products, added
/// from left to right.
pub open spec fn row_times<T: Scalar>(row: Seq<T>, col: Seq<T>) -> T {
    row[0].mul_spec(col[0]).add_spec(row[1].mul_spec(col[1])).add_spec(
        row[2].mul_spec(col[2]),
    ).add_spec(row[3].mul_spec(col[3]))
}

/// Whether every operation of `row_times` is allowed on its operands.
pub open spec fn row_times_req<T: Scalar>(row: Seq<T>, col: Seq<T>) -> bool {
    &&& row[0].mul_req(col[0])
    &&& row[1].mul_req(col[1])
    &&& row[2].mul_req(col[2])
    &&& row[3].mul_req(col[3])
    &&& row[0].mul_spec(col[0]).add_req(row[1].mul_spec(col[1]))
    &&& row[0].mul_spec(col[0]).add_spec(row[1].mul_spec(col[1])).add_req(
        row[2].mul_spec(col[2]),
    )
    &&& row[0].mul_spec(col[0]).add_spec(row[1].mul_spec(col[1])).add_spec(
        row[2].mul_spec(col[2]),
    ).add_req(row[3].mul_spec(col[3]))
}

/// Column `c` of a matrix of order four.
pub open spec fn column<T>(m: Seq<Seq<T>>, c: int) -> Seq<T> {
    Seq::new(4, |k: int| m[k][c])
}

/// The product of two matrices of order four: the element at `(r, c)` is row
/// `r` of `a` times column `c` of `b`.
pub open spec fn product4<T: Scalar>(a: Seq<Seq<T>>, b: Seq<Seq<T>>) -> Seq<Seq<T>> {
    tabulate(4, |r: int, c: int| row_times(a[r], column(b, c)))
}

/// Whether every operation of `product4` is allowed on its operands.
pub open spec fn product4_req<T: Scalar>(a: Seq<Seq<T>>, b: Seq<Seq<T>>) -> bool {
    forall|r: int, c: int|
        0 <= r < 4 && 0 <= c < 4 ==> #[trigger] row_times_req(a[r], column(b, c))
}

/// A matrix of order four applied to a column of four elements.
pub open spec fn applied4<T: Scalar>(m: Seq<Seq<T>>, col: Seq<T>) -> Seq<T> {
    Seq::new(4, |r: int| row_times(m[r], col))
}

/// Whether every operation of `applied4` is allowed on its operands.
pub open spec fn applied4_req<T: Scalar>(m: Seq<Seq<T>>, col: Seq<T>) -> bool {
    forall|r: int| 0 <= r < 4 ==> row_times_req(#[trigger] m[r], col)
}

/// The operations of a shorter expansion are among those of a longer one.
pub proof fn expansion_req_prefix<T: Scalar>(row: Seq<T>, cofactors: Seq<T>, k: nat, j: nat)
    requires
        expansion_req(row, cofactors, k),
        j <= k,
    ensures
        expansion_req(row, cofactors, j),
    decreases k,
{
    if j < k {
        expansion_req_prefix(row, cofactors, (k - 1) as nat, j);
    }
}

/// The translation by `(x, y, z)`: the identity with the last column set.
pub open spec fn translation<T: Scalar>(x: T, y: T, z: T) -> Seq<Seq<T>> {
    seq![
        seq![one::<T>(), zero::<T>(), zero::<T>(), x],
        seq![zero::<T>(), one::<T>(), zero::<T>(), y],
        seq![zero::<T>(), zero::<T>(), one::<T>(), z],
        seq![zero::<T>(), zero::<T>(), zero::<T>(), one::<T>()],
    ]
}

/// The scaling by `(x, y, z)`: the identity with the diagonal set.
pub open spec fn scaling<T: Scalar>(x: T, y: T, z: T) -> Seq<Seq<T>> {
    seq![
        seq![x, zero::<T>(), zero::<T>(), zero::<T>()],
        seq![zero::<T>(), y, zero::<T>(), zero::<T>()],
        seq![zero::<T>(), zero::<T>(), z, zero::<T>()],
        seq![zero::<T>(), zero::<T>(), zero::<T>(), one::<T>()],
    ]
}

/// The right-handed rotation about the x axis by the angle whose cosine and
/// sine are given.
pub open spec fn rotation_x<T: Scalar>(cos: T, sin: T) -> Seq<Seq<T>> {
    seq![
        seq![one::<T>(), zero::<T>(), zero::<T>(), zero::<T>()],
        seq![zero::<T>(), cos, sin.neg_spec(), zero::<T>()],
        seq![zero::<T>(), sin, cos, zero::<T>()],
        seq![zero::<T>(), zero::<T>(), zero::<T>(), one::<T>()],
    ]
}

/// The right-handed rotation about the y axis by the angle whose cosine and
/// sine are given.
pub open spec fn rotation_y<T: Scalar>(cos: T, sin: T) -> Seq<Seq<T>> {
    seq![
        seq![cos, zero::<T>(), sin, zero::<T>()],
        seq![zero::<T>(), one::<T>(), zero::<T>(), zero::<T>()],
        seq![sin.neg_spec(), zero::<T>(), cos, zero::<T>()],
        seq![zero::<T>(), zero::<T>(), zero::<T>(), one::<T>()],
    ]
}

/// The right-handed rotation about the z axis by the angle whose cosine and
/// sine are given.
pub open spec fn rotation_z<T: Scalar>(cos: T, sin: T) -> Seq<Seq<T>> {
    seq![
        seq![cos, sin.neg_spec(), zero::<T>(), zero::<T>()],
        seq![sin, cos, zero::<T>(), zero::<T>()],
        seq![zero::<T>(), zero::<T>(), one::<T>(), zero::<T>()],
        seq![zero::<T>(), zero::<T>(), zero::<T>(), one::<T>()],
    ]
}

/// The shear that moves each coordinate in proportion to the two others:
/// `xy` is the share of y in x, and so on.
pub open spec fn shear<T: Scalar>(xy: T, xz: T, yx: T, yz: T, zx: T, zy: T) -> Seq<Seq<T>> {
    seq![
        seq![one::<T>(), xy, xz, zero::<T>()],
        seq![yx, one::<T>(), yz, zero::<T>()],
        seq![zx, zy, one::<T>(), zero::<T>()],
        seq![zero::<T>(), zero::<T>(), zero::<T>(), one::<T>()],
    ]
}

/// Transposing a square matrix twice gives the matrix back.
pub proof fn transpose_twice<T>(m: Seq<Seq<T>>, n: nat)
    requires
        is_square(m, n),
    ensures
        transposed(transposed(m)) == m,
{
    assert(transposed(transposed(m)) =~~= m);
}

/// The identity matrix is its own transpose.
pub proof fn identity_transposed<T: Scalar>(n: nat)
    ensures
        transposed(identity::<T>(n)) == identity::<T>(n),
{
    assert(transposed(identity::<T>(n)) =~~= identity::<T>(n));
}

/// A matrix of order two whose last row is zero has determinant zero.
pub proof fn det2_of_zero_last_row<T: Scalar>(m: Seq<Seq<T>>)
    requires
        zero_absorbs::<T>(),
        m[1][0] == zero::<T>(),
        m[1][1] == zero::<T>(),
    ensures
        det2(m) == zero::<T>(),
{
}

/// A matrix of order three whose last row is zero has determinant zero.
pub proof fn det3_of_zero_last_row<T: Scalar>(m: Seq<Seq<T>>)
    requires
        zero_absorbs::<T>(),
        is_square(m, 3),
        forall|c: int| 0 <= c < 3 ==> #[trigger] m[2][c] == zero::<T>(),
    ensures
        det3(m) == zero::<T>(),
{
    assert forall|c: int| 0 <= c < 3 implies #[trigger] top_cofactors3(m)[c] == zero::<T>() by {
        let s = submatrix(m, 0, c);
        assert(s[1][0] == m[2][skip_index(0, c)]);
        assert(s[1][1] == m[2][skip_index(1, c)]);
        det2_of_zero_last_row(s);
    }
    reveal_with_fuel(expansion, 4);
}

/// A matrix of order four whose last row is zero has determinant zero.
pub proof fn det4_of_zero_last_row<T: Scalar>(m: Seq<Seq<T>>)
    requires
        zero_absorbs::<T>(),
        is_square(m, 4),
        forall|c: int| 0 <= c < 4 ==> #[trigger] m[3][c] == zero::<T>(),
    ensures
        det4(m) == zero::<T>(),
{
    assert forall|c: int| 0 <= c < 4 implies #[trigger] top_cofactors4(m)[c] == zero::<T>() by {
        let s = submatrix(m, 0, c);
        assert(is_square(s, 3));
        assert forall|j: int| 0 <= j < 3 implies #[trigger] s[2][j] == zero::<T>() by {
            assert(s[2][j] == m[3][skip_index(j, c)]);
        }
        det3_of_zero_last_row(s);
    }
    reveal_with_fuel(expansion, 5);
}

/// A matrix of order four whose last row is zero has no inverse.
pub proof fn zero_last_row_has_no_inverse<T: Scalar>(m: Seq<Seq<T>>)
    requires
        zero_absorbs::<T>(),
        is_square(m, 4),
        forall|c: int| 0 <= c < 4 ==> #[trigger] m[3][c] == zero::<T>(),
    ensures
        inverse4(m) is None,
{
    det4_of_zero_last_row(m);
}

} // verus!
