//! Number types whose arithmetic is exact, and what the matrix algebra
//! computes over them: there the inverse undoes the product.
use crate::algebra::{
    adjugate_over_det4, cofactor3_req, cofactor4, cofactor4_req, column, det2, det2_req, det3,
    det3_req, det4, det4_req, expansion, expansion_req, inverse4, inverse4_req, is_square,
    minor3, minor4, product4, product4_req, row_times, row_times_req, signed, signed_req,
    skip_index, submatrix, top_cofactors3, top_cofactors4,
};
use crate::integers::{
    dot4, dot4_regrouped, dot4_scaled, minor2, rows3, rows3_without, rows4, rows4_repeated,
    rows4_swapped_first, rows4_swapped_last, rows4_swapped_middle, without,
};
use crate::scalar::{same, Scalar, zero};
use vstd::prelude::*;
use vstd::std_specs::ops::{AddSpec, DivSpec, MulSpec, NegSpec, SubSpec};

verus! {

/// Whether `T` computes as the integers do, `val` giving the integer that
/// each element stands for: no two elements stand for the same integer, zero
/// stands for zero, every sum, difference, product and negation that `T`
/// allows stands for that of the integers, and so does every quotient that
/// leaves no remainder.
pub open spec fn exact<T: Scalar>(val: spec_fn(T) -> int) -> bool {
    &&& forall|a: T, b: T| #[trigger] val(a) == #[trigger] val(b) ==> a == b
    &&& forall|a: T| #[trigger] same(a, a)
    &&& val(zero::<T>()) == 0
    &&& forall|a: T, b: T|
        a.add_req(b) ==> val(#[trigger] a.add_spec(b)) == val(a) + val(b)
    &&& forall|a: T, b: T|
        a.sub_req(b) ==> val(#[trigger] a.sub_spec(b)) == val(a) - val(b)
    &&& forall|a: T, b: T|
        a.mul_req(b) ==> val(#[trigger] a.mul_spec(b)) == val(a) * val(b)
    &&& forall|a: T| a.neg_req() ==> val(#[trigger] a.neg_spec()) == -val(a)
    &&& forall|a: T, b: T|
        a.div_req(b) && val(b) != 0 && val(a) % val(b) == 0 ==> val(#[trigger] a.div_spec(b))
            * val(b) == val(a)
}

/// The integers that the elements of a row stand for.
pub open spec fn read<T>(row: Seq<T>, val: spec_fn(T) -> int) -> Seq<int> {
    Seq::new(row.len(), |i: int| val(row[i]))
}

/// Over an exact type, the determinant of order two stands for the minor of
/// its two rows.
pub proof fn det2_read<T: Scalar>(s: Seq<Seq<T>>, val: spec_fn(T) -> int)
    requires
        exact(val),
        is_square(s, 2),
        det2_req(s),
    ensures
        val(det2(s)) == minor2(read(s[0], val), read(s[1], val), 0, 1),
{
}

/// Over an exact type, a signed minor stands for the minor or its negation.
pub proof fn signed_read<T: Scalar>(minor: T, r: int, c: int, val: spec_fn(T) -> int)
    requires
        exact(val),
        signed_req(minor, r, c),
    ensures
        val(signed(minor, r, c)) == if (r + c) % 2 == 0 {
            val(minor)
        } else {
            -val(minor)
        },
{
}

/// Over an exact type, the determinant of order three stands for the
/// determinant of its three rows.
pub proof fn det3_read<T: Scalar>(s: Seq<Seq<T>>, val: spec_fn(T) -> int)
    requires
        exact(val),
        is_square(s, 3),
        det3_req(s),
    ensures
        val(det3(s)) == rows3(read(s[0], val), read(s[1], val), read(s[2], val)),
{
    let a = read(s[0], val);
    let b = read(s[1], val);
    let c = read(s[2], val);
    let cofactors = top_cofactors3(s);
    assert(val(cofactors[0]) == minor2(b, c, 1, 2)) by {
        assert(cofactor3_req(s, 0, 0));
        det2_read(submatrix(s, 0, 0), val);
        signed_read(minor3(s, 0, 0), 0, 0, val);
    }
    assert(val(cofactors[1]) == -minor2(b, c, 0, 2)) by {
        assert(cofactor3_req(s, 0, 1));
        det2_read(submatrix(s, 0, 1), val);
        signed_read(minor3(s, 0, 1), 0, 1, val);
    }
    assert(val(cofactors[2]) == minor2(b, c, 0, 1)) by {
        assert(cofactor3_req(s, 0, 2));
        det2_read(submatrix(s, 0, 2), val);
        signed_read(minor3(s, 0, 2), 0, 2, val);
    }
    reveal_with_fuel(expansion, 4);
    reveal_with_fuel(expansion_req, 4);
}

/// Over an exact type, a cofactor of order four stands for the determinant
/// of the three other rows without its column, signed by its place.
pub proof fn cofactor4_read<T: Scalar>(n: Seq<Seq<T>>, r: int, c: int, val: spec_fn(T) -> int)
    requires
        exact(val),
        is_square(n, 4),
        0 <= r < 4,
        0 <= c < 4,
        cofactor4_req(n, r, c),
    ensures
        val(cofactor4(n, r, c)) == if (r + c) % 2 == 0 {
            rows3_without(
                read(n[skip_index(0, r)], val),
                read(n[skip_index(1, r)], val),
                read(n[skip_index(2, r)], val),
                c,
            )
        } else {
            -rows3_without(
                read(n[skip_index(0, r)], val),
                read(n[skip_index(1, r)], val),
                read(n[skip_index(2, r)], val),
                c,
            )
        },
{
    let s = submatrix(n, r, c);
    assert(is_square(s, 3));
    det3_read(s, val);
    signed_read(minor4(n, r, c), r, c, val);
    assert forall|i: int| 0 <= i < 3 implies read(#[trigger] s[i], val) == without(
        read(n[skip_index(i, r)], val),
        c,
    ) by {
        assert(read(s[i], val) =~= without(read(n[skip_index(i, r)], val), c));
    }
}

/// Over an exact type, the determinant of order four stands for the
/// determinant of its four rows.
pub proof fn det4_read<T: Scalar>(n: Seq<Seq<T>>, val: spec_fn(T) -> int)
    requires
        exact(val),
        is_square(n, 4),
        det4_req(n),
    ensures
        val(det4(n)) == rows4(read(n[0], val), read(n[1], val), read(n[2], val), read(n[3], val)),
{
    assert forall|k: int| 0 <= k < 4 implies val(#[trigger] top_cofactors4(n)[k]) == if k % 2
        == 0 {
        rows3_without(read(n[1], val), read(n[2], val), read(n[3], val), k)
    } else {
        -rows3_without(read(n[1], val), read(n[2], val), read(n[3], val), k)
    } by {
        assert(cofactor4_req(n, 0, k));
        cofactor4_read(n, 0, k, val);
    }
    reveal_with_fuel(expansion, 5);
    reveal_with_fuel(expansion_req, 5);
}

/// The elements of row `j`, each times the cofactor of row `c` in its
/// column, summed as integers.
pub open spec fn row_by_cofactors<T: Scalar>(
    n: Seq<Seq<T>>,
    j: int,
    c: int,
    val: spec_fn(T) -> int,
) -> int {
    val(n[j][0]) * val(cofactor4(n, c, 0)) + val(n[j][1]) * val(cofactor4(n, c, 1)) + val(
        n[j][2],
    ) * val(cofactor4(n, c, 2)) + val(n[j][3]) * val(cofactor4(n, c, 3))
}

/// Over an exact type, a row times its own cofactors gives the determinant,
/// and a row times the cofactors of another row gives zero.
pub proof fn row_by_cofactors_is<T: Scalar>(
    n: Seq<Seq<T>>,
    j: int,
    c: int,
    val: spec_fn(T) -> int,
)
    requires
        exact(val),
        is_square(n, 4),
        0 <= j < 4,
        0 <= c < 4,
        det4_req(n),
        forall|k: int| 0 <= k < 4 ==> #[trigger] cofactor4_req(n, c, k),
    ensures
        row_by_cofactors(n, j, c, val) == if j == c {
            val(det4(n))
        } else {
            0
        },
{
    let x = read(n[j], val);
    let r0 = read(n[skip_index(0, c)], val);
    let r1 = read(n[skip_index(1, c)], val);
    let r2 = read(n[skip_index(2, c)], val);
    assert forall|k: int| 0 <= k < 4 implies val(n[j][k]) * val(#[trigger] cofactor4(n, c, k))
        == if (c + k) % 2 == 0 {
        rows3_without(r0, r1, r2, k) * x[k]
    } else {
        -(rows3_without(r0, r1, r2, k) * x[k])
    } by {
        assert(cofactor4_req(n, c, k));
        cofactor4_read(n, c, k, val);
        vstd::arithmetic::mul::lemma_mul_is_commutative(x[k], rows3_without(r0, r1, r2, k));
        vstd::arithmetic::mul::lemma_mul_unary_negation(x[k], rows3_without(r0, r1, r2, k));
    }
    assert forall|k: int| 0 <= k < 4 implies (-#[trigger] rows3_without(r0, r1, r2, k)) * x[k]
        == -(rows3_without(r0, r1, r2, k) * x[k]) by {
        vstd::arithmetic::mul::lemma_mul_unary_negation(rows3_without(r0, r1, r2, k), x[k]);
    }
    assert(row_by_cofactors(n, j, c, val) == if c % 2 == 0 {
        rows4(x, r0, r1, r2)
    } else {
        -rows4(x, r0, r1, r2)
    });
    det4_read(n, val);
    let n0 = read(n[0], val);
    let n1 = read(n[1], val);
    let n2 = read(n[2], val);
    let n3 = read(n[3], val);
    if j != c {
        rows4_repeated(x, r0, r1, r2);
    } else if c == 1 {
        rows4_swapped_first(n0, n1, n2, n3);
    } else if c == 2 {
        rows4_swapped_first(n0, n2, n1, n3);
        rows4_swapped_middle(n0, n1, n2, n3);
    } else if c == 3 {
        rows4_swapped_first(n0, n3, n1, n2);
        rows4_swapped_middle(n0, n1, n3, n2);
        rows4_swapped_last(n0, n1, n2, n3);
    }
}

/// Over an exact type, a row times a column stands for the same of the
/// integers.
pub proof fn row_times_read<T: Scalar>(row: Seq<T>, col: Seq<T>, val: spec_fn(T) -> int)
    requires
        exact(val),
        row.len() == 4,
        col.len() == 4,
        row_times_req(row, col),
    ensures
        val(row_times(row, col)) == dot4(read(row, val), read(col, val)),
{
}

/// Whether every cofactor of `n` is a multiple of its determinant, so that
/// no division of the inverse leaves a remainder.
pub open spec fn divides_evenly<T: Scalar>(n: Seq<Seq<T>>, val: spec_fn(T) -> int) -> bool {
    forall|r: int, c: int|
        0 <= r < 4 && 0 <= c < 4 ==> val(#[trigger] cofactor4(n, r, c)) % val(det4(n)) == 0
}

/// Over an exact type, the inverse undoes the product: for matrices `m` and
/// `n` of order four, `n` with an inverse whose divisions leave no
/// remainder, `(m * n) * inverse(n)` is `m`.
pub proof fn inverse_undoes_product<T: Scalar>(
    m: Seq<Seq<T>>,
    n: Seq<Seq<T>>,
    val: spec_fn(T) -> int,
)
    requires
        exact(val),
        is_square(m, 4),
        is_square(n, 4),
        product4_req(m, n),
        inverse4_req(n),
        inverse4(n) is Some,
        divides_evenly(n, val),
        product4_req(product4(m, n), inverse4(n)->Some_0),
    ensures
        product4(product4(m, n), inverse4(n)->Some_0) == m,
{
    let d = val(det4(n));
    let p = product4(m, n);
    let inv = adjugate_over_det4(n);
    let l = product4(p, inv);
    assert(d != 0) by {
        if d == 0 {
            assert(det4(n) == zero::<T>());
            assert(same(det4(n), det4(n)));
        }
    }
    assert forall|r: int, c: int| 0 <= r < 4 && 0 <= c < 4 implies #[trigger] l[r][c]
        == m[r][c] by {
        let row = read(m[r], val);
        let pr = read(p[r], val);
        let e = read(column(inv, c), val);
        let cofs = Seq::new(4, |k: int| val(cofactor4(n, c, k)));
        let s = Seq::new(
            4,
            |j: int|
                if j == c {
                    d
                } else {
                    0
                },
        );
        assert(row_times_req(p[r], column(inv, c)));
        row_times_read(p[r], column(inv, c), val);
        assert forall|k: int| 0 <= k < 4 implies #[trigger] pr[k] == row[0] * read(n[0], val)[k]
            + row[1] * read(n[1], val)[k] + row[2] * read(n[2], val)[k] + row[3] * read(
            n[3],
            val,
        )[k] by {
            assert(row_times_req(m[r], column(n, k)));
            row_times_read(m[r], column(n, k), val);
        }
        assert forall|k: int| 0 <= k < 4 implies #[trigger] e[k] * d == cofs[k] by {
            assert(cofactor4_req(n, c, k));
            assert(inv[k][c] == cofactor4(n, c, k).div_spec(det4(n)));
        }
        dot4_scaled(pr, e, cofs, d);
        assert forall|j: int| 0 <= j < 4 implies #[trigger] s[j] == dot4(read(n[j], val), cofs) by {
            assert forall|k: int| 0 <= k < 4 implies #[trigger] cofactor4_req(n, c, k) by {}
            row_by_cofactors_is(n, j, c, val);
        }
        dot4_regrouped(
            row,
            read(n[0], val),
            read(n[1], val),
            read(n[2], val),
            read(n[3], val),
            cofs,
            pr,
            s,
        );
        assert(dot4(row, s) == row[c] * d) by {
            vstd::arithmetic::mul::lemma_mul_basics(row[0]);
            vstd::arithmetic::mul::lemma_mul_basics(row[1]);
            vstd::arithmetic::mul::lemma_mul_basics(row[2]);
            vstd::arithmetic::mul::lemma_mul_basics(row[3]);
        }
        assert(val(l[r][c]) * d == val(m[r][c]) * d);
        vstd::arithmetic::mul::lemma_mul_is_commutative(val(l[r][c]), d);
        vstd::arithmetic::mul::lemma_mul_is_commutative(val(m[r][c]), d);
        vstd::arithmetic::mul::lemma_mul_equality_converse(d, val(l[r][c]), val(m[r][c]));
    }
    assert(l =~~= m);
}

/// Where `y` divides `x`, the quotient times `y` is `x`, and the quotient of
/// `-x` is the negated quotient.
proof fn quotient_without_remainder(x: int, y: int)
    requires
        y != 0,
        x % y == 0,
    ensures
        y * (x / y) == x,
        (-x) / y == -(x / y),
{
    let q = x / y;
    let q2 = (-x) / y;
    let r2 = (-x) % y;
    vstd::arithmetic::div_mod::lemma_fundamental_div_mod(x, y);
    vstd::arithmetic::div_mod::lemma_fundamental_div_mod(-x, y);
    assert(0 <= r2 && (r2 < y || r2 < -y)) by (nonlinear_arith)
        requires
            y != 0,
            r2 == (-x) % y,
    ;
    vstd::arithmetic::mul::lemma_mul_is_distributive_add(y, q, q2);
    let t = q + q2;
    assert(t == 0) by (nonlinear_arith)
        requires
            y * t + r2 == 0,
            0 <= r2,
            r2 < y || r2 < -y,
    ;
}

/// The integer that an `i64` stands for.
pub open spec fn i64_val() -> spec_fn(i64) -> int {
    |x: i64| x as int
}

/// `i64` computes as the integers do wherever it computes at all.
pub proof fn i64_is_exact()
    ensures
        exact(i64_val()),
{
    let val = i64_val();
    assert(val(zero::<i64>()) == 0);
    assert forall|a: i64, b: i64|
        a.div_req(b) && val(b) != 0 && val(a) % val(b) == 0 implies val(#[trigger] a.div_spec(b))
        * val(b) == val(a) by {
        let (x, y) = (a as int, b as int);
        quotient_without_remainder(x, y);
        assert(i64::MIN <= x / y <= i64::MAX) by (nonlinear_arith)
            requires
                y * (x / y) == x,
                y != 0,
                i64::MIN <= x <= i64::MAX,
                i64::MIN <= y <= i64::MAX,
                !(x == i64::MIN && y == -1),
        ;
        vstd::arithmetic::mul::lemma_mul_is_commutative(x / y, y);
    }
}

} // verus!
