//! Determinants of integer rows, expanded as the matrix types expand theirs,
//! and the fact that such a determinant changes sign when two rows change
//! places.
use crate::algebra::skip_index;
use vstd::prelude::*;

verus! {

/// The determinant of columns `u` and `v` of the two rows `b` and `c`.
pub open spec fn minor2(b: Seq<int>, c: Seq<int>, u: int, v: int) -> int {
    b[u] * c[v] - b[v] * c[u]
}

/// The determinant of three rows of three, expanded along the first.
pub open spec fn rows3(a: Seq<int>, b: Seq<int>, c: Seq<int>) -> int {
    minor2(b, c, 1, 2) * a[0] + (-minor2(b, c, 0, 2)) * a[1] + minor2(b, c, 0, 1) * a[2]
}

/// A row of four without its element `k`.
pub open spec fn without(row: Seq<int>, k: int) -> Seq<int> {
    Seq::new(3, |i: int| row[skip_index(i, k)])
}

/// The determinant of the three rows `a`, `b`, `c` of four, without column `k`.
pub open spec fn rows3_without(a: Seq<int>, b: Seq<int>, c: Seq<int>, k: int) -> int {
    rows3(without(a, k), without(b, k), without(c, k))
}

/// The determinant of four rows of four, expanded along the first.
pub open spec fn rows4(x: Seq<int>, a: Seq<int>, b: Seq<int>, c: Seq<int>) -> int {
    rows3_without(a, b, c, 0) * x[0] + (-rows3_without(a, b, c, 1)) * x[1] + rows3_without(
        a,
        b,
        c,
        2,
    ) * x[2] + (-rows3_without(a, b, c, 3)) * x[3]
}

/// A minor of two rows changes sign when the rows change places.
pub proof fn minor2_swapped(b: Seq<int>, c: Seq<int>, u: int, v: int)
    ensures
        minor2(c, b, u, v) == -minor2(b, c, u, v),
{
    let (bu, bv, cu, cv) = (b[u], b[v], c[u], c[v]);
    assert(cu * bv - cv * bu == -(bu * cv - bv * cu)) by (nonlinear_arith);
}

/// A product with a negated factor is the negated product.
pub proof fn negated_factor(p: int, q: int)
    ensures
        (-p) * q == -(p * q),
        p * (-q) == -(p * q),
{
    assert((-p) * q == -(p * q)) by (nonlinear_arith);
    assert(p * (-q) == -(p * q)) by (nonlinear_arith);
}

/// A determinant of three rows changes sign when the last two change places.
pub proof fn rows3_swapped_below(a: Seq<int>, b: Seq<int>, c: Seq<int>)
    ensures
        rows3(a, c, b) == -rows3(a, b, c),
{
    minor2_swapped(b, c, 1, 2);
    minor2_swapped(b, c, 0, 2);
    minor2_swapped(b, c, 0, 1);
    negated_factor(minor2(b, c, 1, 2), a[0]);
    negated_factor(minor2(b, c, 0, 2), a[1]);
    negated_factor(-minor2(b, c, 0, 2), a[1]);
    negated_factor(minor2(b, c, 0, 1), a[2]);
}

/// The product of a minor of two rows with an element of a third, as two
/// products of three elements, one from each row.
proof fn minor2_times(a: int, bu: int, bv: int, cu: int, cv: int)
    ensures
        (bu * cv - bv * cu) * a == a * bu * cv - a * bv * cu,
        (-(bu * cv - bv * cu)) * a == a * bv * cu - a * bu * cv,
{
    assert((bu * cv - bv * cu) * a == a * bu * cv - a * bv * cu) by (nonlinear_arith);
    assert((-(bu * cv - bv * cu)) * a == a * bv * cu - a * bu * cv) by (nonlinear_arith);
}

/// The same products with the first two factors exchanged.
proof fn first_two_exchanged(a: int, b: int, c: int)
    ensures
        a * b * c == b * a * c,
{
    assert(a * b * c == b * a * c) by (nonlinear_arith);
}

/// A determinant of three rows changes sign when the first two change
/// places.
pub proof fn rows3_swapped_above(a: Seq<int>, b: Seq<int>, c: Seq<int>)
    ensures
        rows3(b, a, c) == -rows3(a, b, c),
{
    minor2_times(a[0], b[1], b[2], c[1], c[2]);
    minor2_times(a[1], b[0], b[2], c[0], c[2]);
    minor2_times(a[2], b[0], b[1], c[0], c[1]);
    minor2_times(b[0], a[1], a[2], c[1], c[2]);
    minor2_times(b[1], a[0], a[2], c[0], c[2]);
    minor2_times(b[2], a[0], a[1], c[0], c[1]);
    first_two_exchanged(a[0], b[1], c[2]);
    first_two_exchanged(a[0], b[2], c[1]);
    first_two_exchanged(a[1], b[0], c[2]);
    first_two_exchanged(a[1], b[2], c[0]);
    first_two_exchanged(a[2], b[0], c[1]);
    first_two_exchanged(a[2], b[1], c[0]);
}

/// A determinant of four rows changes sign when the last two change places.
pub proof fn rows4_swapped_last(x: Seq<int>, a: Seq<int>, b: Seq<int>, c: Seq<int>)
    ensures
        rows4(x, a, c, b) == -rows4(x, a, b, c),
{
    assert forall|k: int| 0 <= k < 4 implies rows3_without(a, c, b, k) == -#[trigger] rows3_without(
        a,
        b,
        c,
        k,
    ) by {
        rows3_swapped_below(without(a, k), without(b, k), without(c, k));
    }
    negated_factor(rows3_without(a, b, c, 0), x[0]);
    negated_factor(rows3_without(a, b, c, 1), x[1]);
    negated_factor(-rows3_without(a, b, c, 1), x[1]);
    negated_factor(rows3_without(a, b, c, 2), x[2]);
    negated_factor(rows3_without(a, b, c, 3), x[3]);
    negated_factor(-rows3_without(a, b, c, 3), x[3]);
}

/// A determinant of four rows changes sign when the two in the middle change
/// places.
pub proof fn rows4_swapped_middle(x: Seq<int>, a: Seq<int>, b: Seq<int>, c: Seq<int>)
    ensures
        rows4(x, b, a, c) == -rows4(x, a, b, c),
{
    assert forall|k: int| 0 <= k < 4 implies rows3_without(b, a, c, k) == -#[trigger] rows3_without(
        a,
        b,
        c,
        k,
    ) by {
        rows3_swapped_above(without(a, k), without(b, k), without(c, k));
    }
    negated_factor(rows3_without(a, b, c, 0), x[0]);
    negated_factor(rows3_without(a, b, c, 1), x[1]);
    negated_factor(-rows3_without(a, b, c, 1), x[1]);
    negated_factor(rows3_without(a, b, c, 2), x[2]);
    negated_factor(rows3_without(a, b, c, 3), x[3]);
    negated_factor(-rows3_without(a, b, c, 3), x[3]);
}

/// One term of the expansion of four rows, as three products of a minor of
/// the last two rows with one element of each of the first two.
proof fn term_expanded(p: int, u: int, q: int, v: int, r: int, w: int, x: int)
    ensures
        (p * u + (-q) * v + r * w) * x == p * (u * x) - q * (v * x) + r * (w * x),
        (-(p * u + (-q) * v + r * w)) * x == q * (v * x) - p * (u * x) - r * (w * x),
{
    let sum = p * u + (-q) * v + r * w;
    vstd::arithmetic::mul::lemma_mul_is_distributive_add_other_way(x, p * u + (-q) * v, r * w);
    vstd::arithmetic::mul::lemma_mul_is_distributive_add_other_way(x, p * u, (-q) * v);
    vstd::arithmetic::mul::lemma_mul_is_associative(p, u, x);
    vstd::arithmetic::mul::lemma_mul_is_associative(-q, v, x);
    vstd::arithmetic::mul::lemma_mul_is_associative(r, w, x);
    vstd::arithmetic::mul::lemma_mul_unary_negation(q, v * x);
    vstd::arithmetic::mul::lemma_mul_unary_negation(sum, x);
}

/// The four terms of the expansion of `rows4(x, a, b, c)`, each expanded.
proof fn rows4_expanded(x: Seq<int>, a: Seq<int>, b: Seq<int>, c: Seq<int>)
    ensures
        rows4(x, a, b, c) == minor2(b, c, 2, 3) * (a[1] * x[0]) - minor2(b, c, 1, 3) * (a[2]
            * x[0]) + minor2(b, c, 1, 2) * (a[3] * x[0]) + minor2(b, c, 0, 3) * (a[2] * x[1])
            - minor2(b, c, 2, 3) * (a[0] * x[1]) - minor2(b, c, 0, 2) * (a[3] * x[1]) + minor2(
            b,
            c,
            1,
            3,
        ) * (a[0] * x[2]) - minor2(b, c, 0, 3) * (a[1] * x[2]) + minor2(b, c, 0, 1) * (a[3]
            * x[2]) + minor2(b, c, 0, 2) * (a[1] * x[3]) - minor2(b, c, 1, 2) * (a[0] * x[3])
            - minor2(b, c, 0, 1) * (a[2] * x[3]),
{
    let q01 = minor2(b, c, 0, 1);
    let q02 = minor2(b, c, 0, 2);
    let q03 = minor2(b, c, 0, 3);
    let q12 = minor2(b, c, 1, 2);
    let q13 = minor2(b, c, 1, 3);
    let q23 = minor2(b, c, 2, 3);
    assert(rows3_without(a, b, c, 0) == q23 * a[1] + (-q13) * a[2] + q12 * a[3]);
    assert(rows3_without(a, b, c, 1) == q23 * a[0] + (-q03) * a[2] + q02 * a[3]);
    assert(rows3_without(a, b, c, 2) == q13 * a[0] + (-q03) * a[1] + q01 * a[3]);
    assert(rows3_without(a, b, c, 3) == q12 * a[0] + (-q02) * a[1] + q01 * a[2]);
    term_expanded(q23, a[1], q13, a[2], q12, a[3], x[0]);
    term_expanded(q23, a[0], q03, a[2], q02, a[3], x[1]);
    term_expanded(q13, a[0], q03, a[1], q01, a[3], x[2]);
    term_expanded(q12, a[0], q02, a[1], q01, a[2], x[3]);
}

/// A determinant of four rows changes sign when the first two change places.
pub proof fn rows4_swapped_first(x: Seq<int>, a: Seq<int>, b: Seq<int>, c: Seq<int>)
    ensures
        rows4(a, x, b, c) == -rows4(x, a, b, c),
{
    rows4_expanded(x, a, b, c);
    rows4_expanded(a, x, b, c);
    assert forall|i: int, j: int| a[i] * x[j] == x[j] * a[i] by {
        vstd::arithmetic::mul::lemma_mul_is_commutative(a[i], x[j]);
    }
}

/// A determinant of four rows is zero when the first equals another.
pub proof fn rows4_repeated(x: Seq<int>, a: Seq<int>, b: Seq<int>, c: Seq<int>)
    requires
        x == a || x == b || x == c,
    ensures
        rows4(x, a, b, c) == 0,
{
    if x == a {
        rows4_swapped_first(x, a, b, c);
    } else if x == b {
        rows4_swapped_middle(x, a, b, c);
        rows4_swapped_first(x, b, a, c);
    } else {
        rows4_swapped_last(x, a, b, c);
        rows4_swapped_middle(x, a, c, b);
        rows4_swapped_first(x, c, a, b);
    }
}

/// A row times a column of four integers.
pub open spec fn dot4(a: Seq<int>, b: Seq<int>) -> int {
    a[0] * b[0] + a[1] * b[1] + a[2] * b[2] + a[3] * b[3]
}

/// A sum of four times a factor, term by term.
proof fn sum4_times(a: int, b: int, c: int, d: int, x: int)
    ensures
        (a + b + c + d) * x == a * x + b * x + c * x + d * x,
        x * (a + b + c + d) == x * a + x * b + x * c + x * d,
{
    vstd::arithmetic::mul::lemma_mul_is_distributive_add_other_way(x, a + b + c, d);
    vstd::arithmetic::mul::lemma_mul_is_distributive_add_other_way(x, a + b, c);
    vstd::arithmetic::mul::lemma_mul_is_distributive_add_other_way(x, a, b);
    vstd::arithmetic::mul::lemma_mul_is_distributive_add(x, a + b + c, d);
    vstd::arithmetic::mul::lemma_mul_is_distributive_add(x, a + b, c);
    vstd::arithmetic::mul::lemma_mul_is_distributive_add(x, a, b);
}

/// A row times a matrix times a column may be grouped either way: with `p`
/// the row `m` times each column of the rows `n0` to `n3`, and `s` each of
/// these rows times the column `c`, `p` times `c` is `m` times `s`.
pub proof fn dot4_regrouped(
    m: Seq<int>,
    n0: Seq<int>,
    n1: Seq<int>,
    n2: Seq<int>,
    n3: Seq<int>,
    c: Seq<int>,
    p: Seq<int>,
    s: Seq<int>,
)
    requires
        forall|k: int|
            0 <= k < 4 ==> #[trigger] p[k] == m[0] * n0[k] + m[1] * n1[k] + m[2] * n2[k] + m[3]
                * n3[k],
        s[0] == dot4(n0, c),
        s[1] == dot4(n1, c),
        s[2] == dot4(n2, c),
        s[3] == dot4(n3, c),
    ensures
        dot4(p, c) == dot4(m, s),
{
    assert forall|k: int| 0 <= k < 4 implies #[trigger] p[k] * c[k] == m[0] * (n0[k] * c[k])
        + m[1] * (n1[k] * c[k]) + m[2] * (n2[k] * c[k]) + m[3] * (n3[k] * c[k]) by {
        sum4_times(m[0] * n0[k], m[1] * n1[k], m[2] * n2[k], m[3] * n3[k], c[k]);
        vstd::arithmetic::mul::lemma_mul_is_associative(m[0], n0[k], c[k]);
        vstd::arithmetic::mul::lemma_mul_is_associative(m[1], n1[k], c[k]);
        vstd::arithmetic::mul::lemma_mul_is_associative(m[2], n2[k], c[k]);
        vstd::arithmetic::mul::lemma_mul_is_associative(m[3], n3[k], c[k]);
    }
    sum4_times(n0[0] * c[0], n0[1] * c[1], n0[2] * c[2], n0[3] * c[3], m[0]);
    sum4_times(n1[0] * c[0], n1[1] * c[1], n1[2] * c[2], n1[3] * c[3], m[1]);
    sum4_times(n2[0] * c[0], n2[1] * c[1], n2[2] * c[2], n2[3] * c[3], m[2]);
    sum4_times(n3[0] * c[0], n3[1] * c[1], n3[2] * c[2], n3[3] * c[3], m[3]);
}

/// Where each element of `e` times `d` is the matching element of `c`, a row
/// times `e`, times `d`, is the row times `c`.
pub proof fn dot4_scaled(p: Seq<int>, e: Seq<int>, c: Seq<int>, d: int)
    requires
        forall|k: int| 0 <= k < 4 ==> #[trigger] e[k] * d == c[k],
    ensures
        dot4(p, e) * d == dot4(p, c),
{
    sum4_times(p[0] * e[0], p[1] * e[1], p[2] * e[2], p[3] * e[3], d);
    assert forall|k: int| 0 <= k < 4 implies (p[k] * #[trigger] e[k]) * d == p[k] * c[k] by {
        vstd::arithmetic::mul::lemma_mul_is_associative(p[k], e[k], d);
    }
}

} // verus!
