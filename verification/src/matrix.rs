//! Square matrices of order two, three and four, and the column of four
//! elements that a matrix of order four is applied to.
use crate::algebra::{
    adjugate_over_det4, agree_all, applied4, applied4_req, close_req_all, cofactor3,
    cofactor3_req, cofactor4, cofactor4_req, column, det2, det2_req, det3, det3_req, det4,
    det4_req, differ_somewhere, expansion, expansion_req_prefix, identity, inverse4,
    inverse4_req, minor3, minor4, product4, product4_req, rotation_x, rotation_y, rotation_z,
    row_times, row_times_req, scaling, shear, singular4, skip_index, submatrix, top_cofactors3,
    top_cofactors4, translation, transpose_twice, transposed, zeros,
};
use crate::descartes::{Point3D, Vector3D};
use crate::scalar::{
    agree, close, close_req, differ, is_same, number, obeys_arith, one, resolution_req, Scalar,
    zero,
};
use vstd::prelude::*;
use vstd::std_specs::convert::FromSpec;
use vstd::std_specs::ops::{AddSpec, DivSpec, MulSpec, NegSpec, SubSpec};

verus! {

/// A matrix of order two, held by rows.
#[derive(Debug, Copy, Clone, PartialEq)]
pub struct M2<T>(pub [[T; 2]; 2]);

impl<T> View for M2<T> {
    type V = Seq<Seq<T>>;

    /// The rows of the matrix, each a sequence of its elements.
    open spec fn view(&self) -> Seq<Seq<T>> {
        Seq::new(2, |r: int| self.0[r]@)
    }
}

impl<T: Copy> M2<T> {
    /// The element at row `r` and column `c`.
    pub fn idx(&self, r: usize, c: usize) -> (v: T)
        requires
            r < 2,
            c < 2,
        ensures
            v == self@[r as int][c as int],
    {
        self.0[r][c]
    }

    /// Replaces the element at row `r` and column `c` by `v`.
    pub fn write_idx(&mut self, r: usize, c: usize, v: T)
        requires
            r < 2,
            c < 2,
        ensures
            final(self)@ == old(self)@.update(r as int, old(self)@[r as int].update(c as int, v)),
    {
        self.0[r][c] = v;
        assert(self@ =~~= old(self)@.update(r as int, old(self)@[r as int].update(c as int, v)));
    }

    /// The matrix with rows and columns exchanged.
    pub fn transpose(self) -> (t: Self)
        ensures
            t@ == transposed(self@),
    {
        let mut result = self;
        for r in 0..2usize
            invariant
                forall|i: int, j: int|
                    0 <= i < r && 0 <= j < 2 ==> #[trigger] result@[j][i] == self@[i][j],
        {
            for c in 0..2usize
                invariant
                    r < 2,
                    forall|i: int, j: int|
                        0 <= i < r && 0 <= j < 2 ==> #[trigger] result@[j][i] == self@[i][j],
                    forall|j: int|
                        0 <= j < c ==> #[trigger] result@[j][r as int] == self@[r as int][j],
            {
                result.write_idx(c, r, self.0[r][c]);
            }
        }
        assert(result@ =~~= transposed(self@));
        result
    }

    /// Transposing the matrix twice gives it back.
    pub proof fn transposed_twice(self)
        ensures
            transposed(transposed(self@)) == self@,
    {
        transpose_twice(self@, 2);
    }
}

impl<T: Scalar> M2<T> {
    /// Whether the two matrices are equal to five decimals: whether each pair
    /// of matching elements, multiplied by ten to the fifth and rounded by
    /// `round`, compares equal.
    pub fn approx_eq<F: Fn(T) -> T>(&self, other: &M2<T>, round: F) -> (same: bool)
        requires
            obeys_arith::<T>(),
            resolution_req::<T>(),
            close_req_all(self@, other@, 2, round),
        ensures
            same ==> agree_all(self@, other@, 2, round),
            !same ==> differ_somewhere(self@, other@, 2, round),
    {
        for r in 0..2usize
            invariant
                obeys_arith::<T>(),
                resolution_req::<T>(),
                close_req_all(self@, other@, 2, round),
                forall|i: int, j: int|
                    0 <= i < r && 0 <= j < 2 ==> agree(
                        #[trigger] self@[i][j],
                        #[trigger] other@[i][j],
                        round,
                    ),
        {
            for c in 0..2usize
                invariant
                    r < 2,
                    obeys_arith::<T>(),
                    resolution_req::<T>(),
                    close_req_all(self@, other@, 2, round),
                    forall|i: int, j: int|
                        0 <= i < r && 0 <= j < 2 ==> agree(
                            #[trigger] self@[i][j],
                            #[trigger] other@[i][j],
                            round,
                        ),
                    forall|j: int|
                        0 <= j < c ==> agree(
                            #[trigger] self@[r as int][j],
                            #[trigger] other@[r as int][j],
                            round,
                        ),
            {
                assert(close_req(
                    self@[r as int][c as int],
                    other@[r as int][c as int],
                    round,
                ));
                if !close(self.0[r][c], other.0[r][c], &round) {
                    assert(differ(
                        self@[r as int][c as int],
                        other@[r as int][c as int],
                        round,
                    ));
                    return false;
                }
            }
        }
        true
    }
}

impl<T: Scalar> M2<T> {
    /// The matrix that holds zero everywhere.
    pub fn new() -> (m: Self)
        ensures
            T::obeys_from_spec() ==> m@ == zeros::<T>(2),
    {
        let z: T = number(0i8);
        let m = M2([[z; 2]; 2]);
        assert(T::obeys_from_spec() ==> m@ =~~= zeros::<T>(2));
        m
    }

    /// The identity matrix.
    pub fn identity() -> (m: Self)
        ensures
            T::obeys_from_spec() ==> m@ == identity::<T>(2),
    {
        let z: T = number(0i8);
        let o: T = number(1i8);
        let m = M2([[o, z], [z, o]]);
        assert(T::obeys_from_spec() ==> m@ =~~= identity::<T>(2));
        m
    }

    /// The determinant.
    pub fn determinant(self) -> (d: T)
        requires
            obeys_arith::<T>(),
            det2_req(self@),
        ensures
            d == det2(self@),
    {
        (self.idx(0, 0) * self.idx(1, 1)) - (self.idx(0, 1) * self.idx(1, 0))
    }
}

/// A matrix of order three, held by rows.
#[derive(Debug, Copy, Clone, PartialEq)]
pub struct M3<T>(pub [[T; 3]; 3]);

impl<T> View for M3<T> {
    type V = Seq<Seq<T>>;

    /// The rows of the matrix, each a sequence of its elements.
    open spec fn view(&self) -> Seq<Seq<T>> {
        Seq::new(3, |r: int| self.0[r]@)
    }
}

impl<T: Copy> M3<T> {
    /// The element at row `r` and column `c`.
    pub fn idx(&self, r: usize, c: usize) -> (v: T)
        requires
            r < 3,
            c < 3,
        ensures
            v == self@[r as int][c as int],
    {
        self.0[r][c]
    }

    /// Replaces the element at row `r` and column `c` by `v`.
    pub fn write_idx(&mut self, r: usize, c: usize, v: T)
        requires
            r < 3,
            c < 3,
        ensures
            final(self)@ == old(self)@.update(r as int, old(self)@[r as int].update(c as int, v)),
    {
        self.0[r][c] = v;
        assert(self@ =~~= old(self)@.update(r as int, old(self)@[r as int].update(c as int, v)));
    }

    /// The matrix with rows and columns exchanged.
    pub fn transpose(self) -> (t: Self)
        ensures
            t@ == transposed(self@),
    {
        let mut result = self;
        for r in 0..3usize
            invariant
                forall|i: int, j: int|
                    0 <= i < r && 0 <= j < 3 ==> #[trigger] result@[j][i] == self@[i][j],
        {
            for c in 0..3usize
                invariant
                    r < 3,
                    forall|i: int, j: int|
                        0 <= i < r && 0 <= j < 3 ==> #[trigger] result@[j][i] == self@[i][j],
                    forall|j: int|
                        0 <= j < c ==> #[trigger] result@[j][r as int] == self@[r as int][j],
            {
                result.write_idx(c, r, self.0[r][c]);
            }
        }
        assert(result@ =~~= transposed(self@));
        result
    }

    /// Transposing the matrix twice gives it back.
    pub proof fn transposed_twice(self)
        ensures
            transposed(transposed(self@)) == self@,
    {
        transpose_twice(self@, 3);
    }
}

impl<T: Scalar> M3<T> {
    /// Whether the two matrices are equal to five decimals: whether each pair
    /// of matching elements, multiplied by ten to the fifth and rounded by
    /// `round`, compares equal.
    pub fn approx_eq<F: Fn(T) -> T>(&self, other: &M3<T>, round: F) -> (same: bool)
        requires
            obeys_arith::<T>(),
            resolution_req::<T>(),
            close_req_all(self@, other@, 3, round),
        ensures
            same ==> agree_all(self@, other@, 3, round),
            !same ==> differ_somewhere(self@, other@, 3, round),
    {
        for r in 0..3usize
            invariant
                obeys_arith::<T>(),
                resolution_req::<T>(),
                close_req_all(self@, other@, 3, round),
                forall|i: int, j: int|
                    0 <= i < r && 0 <= j < 3 ==> agree(
                        #[trigger] self@[i][j],
                        #[trigger] other@[i][j],
                        round,
                    ),
        {
            for c in 0..3usize
                invariant
                    r < 3,
                    obeys_arith::<T>(),
                    resolution_req::<T>(),
                    close_req_all(self@, other@, 3, round),
                    forall|i: int, j: int|
                        0 <= i < r && 0 <= j < 3 ==> agree(
                            #[trigger] self@[i][j],
                            #[trigger] other@[i][j],
                            round,
                        ),
                    forall|j: int|
                        0 <= j < c ==> agree(
                            #[trigger] self@[r as int][j],
                            #[trigger] other@[r as int][j],
                            round,
                        ),
            {
                assert(close_req(
                    self@[r as int][c as int],
                    other@[r as int][c as int],
                    round,
                ));
                if !close(self.0[r][c], other.0[r][c], &round) {
                    assert(differ(
                        self@[r as int][c as int],
                        other@[r as int][c as int],
                        round,
                    ));
                    return false;
                }
            }
        }
        true
    }
}

impl<T: Scalar> M3<T> {
    /// The matrix that holds zero everywhere.
    pub fn new() -> (m: Self)
        ensures
            T::obeys_from_spec() ==> m@ == zeros::<T>(3),
    {
        let z: T = number(0i8);
        let m = M3([[z; 3]; 3]);
        assert(T::obeys_from_spec() ==> m@ =~~= zeros::<T>(3));
        m
    }

    /// The identity matrix.
    pub fn identity() -> (m: Self)
        ensures
            T::obeys_from_spec() ==> m@ == identity::<T>(3),
    {
        let z: T = number(0i8);
        let o: T = number(1i8);
        let m = M3([[o, z, z], [z, o, z], [z, z, o]]);
        assert(T::obeys_from_spec() ==> m@ =~~= identity::<T>(3));
        m
    }

    /// The matrix of order 2 that is left once row `r` and column `c` are
    /// deleted.
    pub fn submatrix(&self, r: usize, c: usize) -> (s: M2<T>)
        requires
            r < 3,
            c < 3,
        ensures
            s@ == submatrix(self@, r as int, c as int),
    {
        let mut result = M2::new();
        for row in 0..3usize
            invariant
                r < 3,
                c < 3,
                forall|i: int, j: int|
                    0 <= i < 2 && 0 <= j < 2 && skip_index(i, r as int) < row
                        ==> #[trigger] result@[i][j] == self@[skip_index(i, r as int)][skip_index(
                        j,
                        c as int,
                    )],
        {
            // The deleted row is passed over; rows beyond it move up by one.
            if row != r {
                let nrow: usize = if row > r {
                    row - 1
                } else {
                    row
                };
                for col in 0..3usize
                    invariant
                        r < 3,
                        c < 3,
                        row < 3,
                        nrow < 2,
                        skip_index(nrow as int, r as int) == row,
                        forall|i: int, j: int|
                            0 <= i < 2 && 0 <= j < 2 && skip_index(i, r as int) < row
                                ==> #[trigger] result@[i][j] == self@[skip_index(
                                i,
                                r as int,
                            )][skip_index(j, c as int)],
                        forall|j: int|
                            0 <= j < 2 && skip_index(j, c as int) < col
                                ==> #[trigger] result@[nrow as int][j]
                                == self@[row as int][skip_index(j, c as int)],
                {
                    // Likewise for the deleted column.
                    if col != c {
                        let ncol: usize = if col > c {
                            col - 1
                        } else {
                            col
                        };
                        result.write_idx(nrow, ncol, self.idx(row, col));
                    }
                }
            }
        }
        assert(result@ =~~= submatrix(self@, r as int, c as int));
        result
    }

    /// The determinant of the submatrix at `(r, c)`.
    pub fn minor(&self, r: usize, c: usize) -> (v: T)
        requires
            obeys_arith::<T>(),
            r < 3,
            c < 3,
            det2_req(submatrix(self@, r as int, c as int)),
        ensures
            v == minor3(self@, r as int, c as int),
    {
        self.submatrix(r, c).determinant()
    }

    /// The minor at `(r, c)`, negated where `r + c` is odd.
    pub fn cofactor(&self, r: usize, c: usize) -> (v: T)
        requires
            obeys_arith::<T>(),
            r < 3,
            c < 3,
            cofactor3_req(self@, r as int, c as int),
        ensures
            v == cofactor3(self@, r as int, c as int),
    {
        let m = self.minor(r, c);
        if (r + c) % 2 == 0 {
            return m;
        }
        m.neg()
    }

    /// The determinant, expanded along row zero.
    pub fn determinant(&self) -> (d: T)
        requires
            obeys_arith::<T>(),
            det3_req(self@),
        ensures
            d == det3(self@),
    {
        let mut det: T = number(0i8);
        for idx in 0..3usize
            invariant
                obeys_arith::<T>(),
                det3_req(self@),
                det == expansion(self@[0], top_cofactors3(self@), idx as nat),
        {
            proof {
                expansion_req_prefix(self@[0], top_cofactors3(self@), 3, (idx + 1) as nat);
                assert(cofactor3_req(self@, 0, idx as int));
            }
            let cf = self.cofactor(0, idx);
            det = det + cf * self.0[0][idx];
        }
        det
    }
}

/// A matrix of order four, held by rows.
#[derive(Debug, Copy, Clone, PartialEq)]
pub struct M4<T>(pub [[T; 4]; 4]);

impl<T> View for M4<T> {
    type V = Seq<Seq<T>>;

    /// The rows of the matrix, each a sequence of its elements.
    open spec fn view(&self) -> Seq<Seq<T>> {
        Seq::new(4, |r: int| self.0[r]@)
    }
}

impl<T: Copy> M4<T> {
    /// The element at row `r` and column `c`.
    pub fn idx(&self, r: usize, c: usize) -> (v: T)
        requires
            r < 4,
            c < 4,
        ensures
            v == self@[r as int][c as int],
    {
        self.0[r][c]
    }

    /// Replaces the element at row `r` and column `c` by `v`.
    pub fn write_idx(&mut self, r: usize, c: usize, v: T)
        requires
            r < 4,
            c < 4,
        ensures
            final(self)@ == old(self)@.update(r as int, old(self)@[r as int].update(c as int, v)),
    {
        self.0[r][c] = v;
        assert(self@ =~~= old(self)@.update(r as int, old(self)@[r as int].update(c as int, v)));
    }

    /// The matrix with rows and columns exchanged.
    pub fn transpose(self) -> (t: Self)
        ensures
            t@ == transposed(self@),
    {
        let mut result = self;
        for r in 0..4usize
            invariant
                forall|i: int, j: int|
                    0 <= i < r && 0 <= j < 4 ==> #[trigger] result@[j][i] == self@[i][j],
        {
            for c in 0..4usize
                invariant
                    r < 4,
                    forall|i: int, j: int|
                        0 <= i < r && 0 <= j < 4 ==> #[trigger] result@[j][i] == self@[i][j],
                    forall|j: int|
                        0 <= j < c ==> #[trigger] result@[j][r as int] == self@[r as int][j],
            {
                result.write_idx(c, r, self.0[r][c]);
            }
        }
        assert(result@ =~~= transposed(self@));
        result
    }

    /// Transposing the matrix twice gives it back.
    pub proof fn transposed_twice(self)
        ensures
            transposed(transposed(self@)) == self@,
    {
        transpose_twice(self@, 4);
    }
}

impl<T: Scalar> M4<T> {
    /// Whether the two matrices are equal to five decimals: whether each pair
    /// of matching elements, multiplied by ten to the fifth and rounded by
    /// `round`, compares equal.
    pub fn approx_eq<F: Fn(T) -> T>(&self, other: &M4<T>, round: F) -> (same: bool)
        requires
            obeys_arith::<T>(),
            resolution_req::<T>(),
            close_req_all(self@, other@, 4, round),
        ensures
            same ==> agree_all(self@, other@, 4, round),
            !same ==> differ_somewhere(self@, other@, 4, round),
    {
        for r in 0..4usize
            invariant
                obeys_arith::<T>(),
                resolution_req::<T>(),
                close_req_all(self@, other@, 4, round),
                forall|i: int, j: int|
                    0 <= i < r && 0 <= j < 4 ==> agree(
                        #[trigger] self@[i][j],
                        #[trigger] other@[i][j],
                        round,
                    ),
        {
            for c in 0..4usize
                invariant
                    r < 4,
                    obeys_arith::<T>(),
                    resolution_req::<T>(),
                    close_req_all(self@, other@, 4, round),
                    forall|i: int, j: int|
                        0 <= i < r && 0 <= j < 4 ==> agree(
                            #[trigger] self@[i][j],
                            #[trigger] other@[i][j],
                            round,
                        ),
                    forall|j: int|
                        0 <= j < c ==> agree(
                            #[trigger] self@[r as int][j],
                            #[trigger] other@[r as int][j],
                            round,
                        ),
            {
                assert(close_req(
                    self@[r as int][c as int],
                    other@[r as int][c as int],
                    round,
                ));
                if !close(self.0[r][c], other.0[r][c], &round) {
                    assert(differ(
                        self@[r as int][c as int],
                        other@[r as int][c as int],
                        round,
                    ));
                    return false;
                }
            }
        }
        true
    }
}

impl<T: Scalar> M4<T> {
    /// The matrix that holds zero everywhere.
    pub fn new() -> (m: Self)
        ensures
            T::obeys_from_spec() ==> m@ == zeros::<T>(4),
    {
        let z: T = number(0i8);
        let m = M4([[z; 4]; 4]);
        assert(T::obeys_from_spec() ==> m@ =~~= zeros::<T>(4));
        m
    }

    /// The identity matrix.
    pub fn identity() -> (m: Self)
        ensures
            T::obeys_from_spec() ==> m@ == identity::<T>(4),
    {
        let z: T = number(0i8);
        let o: T = number(1i8);
        let m = M4([[o, z, z, z], [z, o, z, z], [z, z, o, z], [z, z, z, o]]);
        assert(T::obeys_from_spec() ==> m@ =~~= identity::<T>(4));
        m
    }

    /// The matrix of order 3 that is left once row `r` and column `c` are
    /// deleted.
    pub fn submatrix(&self, r: usize, c: usize) -> (s: M3<T>)
        requires
            r < 4,
            c < 4,
        ensures
            s@ == submatrix(self@, r as int, c as int),
    {
        let mut result = M3::new();
        for row in 0..4usize
            invariant
                r < 4,
                c < 4,
                forall|i: int, j: int|
                    0 <= i < 3 && 0 <= j < 3 && skip_index(i, r as int) < row
                        ==> #[trigger] result@[i][j] == self@[skip_index(i, r as int)][skip_index(
                        j,
                        c as int,
                    )],
        {
            // The deleted row is passed over; rows beyond it move up by one.
            if row != r {
                let nrow: usize = if row > r {
                    row - 1
                } else {
                    row
                };
                for col in 0..4usize
                    invariant
                        r < 4,
                        c < 4,
                        row < 4,
                        nrow < 3,
                        skip_index(nrow as int, r as int) == row,
                        forall|i: int, j: int|
                            0 <= i < 3 && 0 <= j < 3 && skip_index(i, r as int) < row
                                ==> #[trigger] result@[i][j] == self@[skip_index(
                                i,
                                r as int,
                            )][skip_index(j, c as int)],
                        forall|j: int|
                            0 <= j < 3 && skip_index(j, c as int) < col
                                ==> #[trigger] result@[nrow as int][j]
                                == self@[row as int][skip_index(j, c as int)],
                {
                    // Likewise for the deleted column.
                    if col != c {
                        let ncol: usize = if col > c {
                            col - 1
                        } else {
                            col
                        };
                        result.write_idx(nrow, ncol, self.idx(row, col));
                    }
                }
            }
        }
        assert(result@ =~~= submatrix(self@, r as int, c as int));
        result
    }

    /// The determinant of the submatrix at `(r, c)`.
    pub fn minor(&self, r: usize, c: usize) -> (v: T)
        requires
            obeys_arith::<T>(),
            r < 4,
            c < 4,
            det3_req(submatrix(self@, r as int, c as int)),
        ensures
            v == minor4(self@, r as int, c as int),
    {
        self.submatrix(r, c).determinant()
    }

    /// The minor at `(r, c)`, negated where `r + c` is odd.
    pub fn cofactor(&self, r: usize, c: usize) -> (v: T)
        requires
            obeys_arith::<T>(),
            r < 4,
            c < 4,
            cofactor4_req(self@, r as int, c as int),
        ensures
            v == cofactor4(self@, r as int, c as int),
    {
        let m = self.minor(r, c);
        if (r + c) % 2 == 0 {
            return m;
        }
        m.neg()
    }

    /// The determinant, expanded along row zero.
    pub fn determinant(&self) -> (d: T)
        requires
            obeys_arith::<T>(),
            det4_req(self@),
        ensures
            d == det4(self@),
    {
        let mut det: T = number(0i8);
        for idx in 0..4usize
            invariant
                obeys_arith::<T>(),
                det4_req(self@),
                det == expansion(self@[0], top_cofactors4(self@), idx as nat),
        {
            proof {
                expansion_req_prefix(self@[0], top_cofactors4(self@), 4, (idx + 1) as nat);
                assert(cofactor4_req(self@, 0, idx as int));
            }
            let cf = self.cofactor(0, idx);
            det = det + cf * self.0[0][idx];
        }
        det
    }
}

/// The views of an optional matrix: none, or the rows of the one it holds.
pub open spec fn rows_of<T>(m: Option<M4<T>>) -> Option<Seq<Seq<T>>> {
    match m {
        None => None,
        Some(m) => Some(m@),
    }
}

impl<T: Scalar> M4<T> {
    /// The inverse by the adjugate: the element at `(c, r)` is the cofactor
    /// at `(r, c)` over the determinant. A matrix whose determinant compares
    /// equal to zero has none.
    pub fn inverse(&self) -> (inv: Option<Self>)
        requires
            obeys_arith::<T>(),
            inverse4_req(self@),
        ensures
            rows_of(inv) == inverse4(self@),
    {
        let det = self.determinant();
        if is_same(det, number(0i8)) {
            return None;
        }
        let mut result = Self::new();
        for r in 0..4usize
            invariant
                obeys_arith::<T>(),
                inverse4_req(self@),
                !singular4(self@),
                det == det4(self@),
                forall|i: int, j: int|
                    0 <= i < r && 0 <= j < 4 ==> #[trigger] result@[j][i] == cofactor4(
                        self@,
                        i,
                        j,
                    ).div_spec(det),
        {
            for c in 0..4usize
                invariant
                    r < 4,
                    obeys_arith::<T>(),
                    inverse4_req(self@),
                    !singular4(self@),
                    det == det4(self@),
                    forall|i: int, j: int|
                        0 <= i < r && 0 <= j < 4 ==> #[trigger] result@[j][i] == cofactor4(
                            self@,
                            i,
                            j,
                        ).div_spec(det),
                    forall|j: int|
                        0 <= j < c ==> #[trigger] result@[j][r as int] == cofactor4(
                            self@,
                            r as int,
                            j,
                        ).div_spec(det),
            {
                assert(cofactor4_req(self@, r as int, c as int));
                result.write_idx(c, r, self.cofactor(r, c) / det);
            }
        }
        assert(result@ =~~= adjugate_over_det4(self@));
        Some(result)
    }
}

impl<T> M4<T> {
    /// The matrix whose rows are `rows`.
    pub open spec fn from_rows(rows: Seq<Seq<T>>) -> M4<T> {
        M4(
            [
                [rows[0][0], rows[0][1], rows[0][2], rows[0][3]],
                [rows[1][0], rows[1][1], rows[1][2], rows[1][3]],
                [rows[2][0], rows[2][1], rows[2][2], rows[2][3]],
                [rows[3][0], rows[3][1], rows[3][2], rows[3][3]],
            ],
        )
    }

    /// Two matrices with the same rows are the same matrix.
    pub proof fn same_rows(self, other: M4<T>)
        requires
            self@ == other@,
        ensures
            self == other,
    {
        assert forall|r: int| 0 <= r < 4 implies self.0[r] == other.0[r] by {
            assert(self.0[r]@ == self@[r]);
            assert(other.0[r]@ == other@[r]);
            assert(self.0[r] =~= other.0[r]);
        }
        assert(self.0 =~= other.0);
    }
}

impl<T: Scalar> M4<T> {
    /// The translation by `(x, y, z)`.
    pub fn translation(x: T, y: T, z: T) -> (m: Self)
        ensures
            T::obeys_from_spec() ==> m@ == translation(x, y, z),
    {
        let mut v = Self::identity();
        v.write_idx(0, 3, x);
        v.write_idx(1, 3, y);
        v.write_idx(2, 3, z);
        assert(T::obeys_from_spec() ==> v@ =~~= translation(x, y, z));
        v
    }

    /// The scaling by `(x, y, z)`.
    pub fn scaling(x: T, y: T, z: T) -> (m: Self)
        ensures
            T::obeys_from_spec() ==> m@ == scaling(x, y, z),
    {
        let mut v = Self::identity();
        v.write_idx(0, 0, x);
        v.write_idx(1, 1, y);
        v.write_idx(2, 2, z);
        assert(T::obeys_from_spec() ==> v@ =~~= scaling(x, y, z));
        v
    }

    /// The rotation about the x axis by the angle with the given cosine and
    /// sine.
    pub fn x_rotation_of(cos: T, sin: T) -> (m: Self)
        requires
            sin.neg_req(),
        ensures
            T::obeys_from_spec() && T::obeys_neg_spec() ==> m@ == rotation_x(cos, sin),
    {
        let z: T = number(0i8);
        let o: T = number(1i8);
        let m = M4([[o, z, z, z], [z, cos, sin.neg(), z], [z, sin, cos, z], [z, z, z, o]]);
        assert(T::obeys_from_spec() && T::obeys_neg_spec() ==> m@ =~~= rotation_x(cos, sin));
        m
    }

    /// The rotation about the y axis by the angle with the given cosine and
    /// sine.
    pub fn y_rotation_of(cos: T, sin: T) -> (m: Self)
        requires
            sin.neg_req(),
        ensures
            T::obeys_from_spec() && T::obeys_neg_spec() ==> m@ == rotation_y(cos, sin),
    {
        let z: T = number(0i8);
        let o: T = number(1i8);
        let m = M4([[cos, z, sin, z], [z, o, z, z], [sin.neg(), z, cos, z], [z, z, z, o]]);
        assert(T::obeys_from_spec() && T::obeys_neg_spec() ==> m@ =~~= rotation_y(cos, sin));
        m
    }

    /// The rotation about the z axis by the angle with the given cosine and
    /// sine.
    pub fn z_rotation_of(cos: T, sin: T) -> (m: Self)
        requires
            sin.neg_req(),
        ensures
            T::obeys_from_spec() && T::obeys_neg_spec() ==> m@ == rotation_z(cos, sin),
    {
        let z: T = number(0i8);
        let o: T = number(1i8);
        let m = M4([[cos, sin.neg(), z, z], [sin, cos, z, z], [z, z, o, z], [z, z, z, o]]);
        assert(T::obeys_from_spec() && T::obeys_neg_spec() ==> m@ =~~= rotation_z(cos, sin));
        m
    }

    /// The rotation about the x axis by `r` radians, with `cos` and `sin` to
    /// compute the cosine and the sine of the angle.
    pub fn x_rotation<C: Fn(T) -> T, S: Fn(T) -> T>(r: T, cos: C, sin: S) -> (m: Self)
        requires
            call_requires(cos, (r,)),
            call_requires(sin, (r,)),
            forall|s: T| #[trigger] call_ensures(sin, (r,), s) ==> s.neg_req(),
        ensures
            T::obeys_from_spec() && T::obeys_neg_spec() ==> exists|c: T, s: T|
                {
                    &&& #[trigger] call_ensures(cos, (r,), c)
                    &&& #[trigger] call_ensures(sin, (r,), s)
                    &&& m@ == rotation_x(c, s)
                },
    {
        let c = cos(r);
        let s = sin(r);
        Self::x_rotation_of(c, s)
    }

    /// The rotation about the y axis by `r` radians, with `cos` and `sin` to
    /// compute the cosine and the sine of the angle.
    pub fn y_rotation<C: Fn(T) -> T, S: Fn(T) -> T>(r: T, cos: C, sin: S) -> (m: Self)
        requires
            call_requires(cos, (r,)),
            call_requires(sin, (r,)),
            forall|s: T| #[trigger] call_ensures(sin, (r,), s) ==> s.neg_req(),
        ensures
            T::obeys_from_spec() && T::obeys_neg_spec() ==> exists|c: T, s: T|
                {
                    &&& #[trigger] call_ensures(cos, (r,), c)
                    &&& #[trigger] call_ensures(sin, (r,), s)
                    &&& m@ == rotation_y(c, s)
                },
    {
        let c = cos(r);
        let s = sin(r);
        Self::y_rotation_of(c, s)
    }

    /// The rotation about the z axis by `r` radians, with `cos` and `sin` to
    /// compute the cosine and the sine of the angle.
    pub fn z_rotation<C: Fn(T) -> T, S: Fn(T) -> T>(r: T, cos: C, sin: S) -> (m: Self)
        requires
            call_requires(cos, (r,)),
            call_requires(sin, (r,)),
            forall|s: T| #[trigger] call_ensures(sin, (r,), s) ==> s.neg_req(),
        ensures
            T::obeys_from_spec() && T::obeys_neg_spec() ==> exists|c: T, s: T|
                {
                    &&& #[trigger] call_ensures(cos, (r,), c)
                    &&& #[trigger] call_ensures(sin, (r,), s)
                    &&& m@ == rotation_z(c, s)
                },
    {
        let c = cos(r);
        let s = sin(r);
        Self::z_rotation_of(c, s)
    }

    /// The shear with the six given shares.
    pub fn shear(xy: T, xz: T, yx: T, yz: T, zx: T, zy: T) -> (m: Self)
        ensures
            T::obeys_from_spec() ==> m@ == shear(xy, xz, yx, yz, zx, zy),
    {
        let z: T = number(0i8);
        let o: T = number(1i8);
        let m = M4([[o, xy, xz, z], [yx, o, yz, z], [zx, zy, o, z], [z, z, z, o]]);
        assert(T::obeys_from_spec() ==> m@ =~~= shear(xy, xz, yx, yz, zx, zy));
        m
    }
}

/// A column of four elements: a point or a vector in homogeneous
/// coordinates, the fourth being one for a point and zero for a vector.
#[derive(Debug, Copy, Clone, PartialEq)]
pub struct M1_4<T>(pub [[T; 1]; 4]);

impl<T> View for M1_4<T> {
    type V = Seq<T>;

    /// The four elements, from the top.
    open spec fn view(&self) -> Seq<T> {
        Seq::new(4, |r: int| self.0[r][0])
    }
}

impl<T> M1_4<T> {
    /// The column that holds `items`.
    pub open spec fn from_items(items: Seq<T>) -> M1_4<T> {
        M1_4([[items[0]], [items[1]], [items[2]], [items[3]]])
    }

    /// Two columns with the same elements are the same column.
    pub proof fn same_items(self, other: M1_4<T>)
        requires
            self@ == other@,
        ensures
            self == other,
    {
        assert forall|r: int| 0 <= r < 4 implies self.0[r] == other.0[r] by {
            assert(self.0[r][0] == self@[r]);
            assert(other.0[r][0] == other@[r]);
            assert(self.0[r] =~= other.0[r]);
        }
        assert(self.0 =~= other.0);
    }
}

impl<T: Copy> M1_4<T> {
    /// The element in row `r`.
    pub fn idx(&self, r: usize) -> (v: T)
        requires
            r < 4,
        ensures
            v == self@[r as int],
    {
        self.0[r][0]
    }

    /// Replaces the element in row `r` by `v`.
    pub fn write_idx(&mut self, r: usize, v: T)
        requires
            r < 4,
        ensures
            final(self)@ == old(self)@.update(r as int, v),
    {
        self.0[r][0] = v;
        assert(self@ =~= old(self)@.update(r as int, v));
    }
}

/// The homogeneous coordinates of a vector: its own three, then zero.
pub open spec fn vector_column<T: Scalar>(v: Vector3D<T>) -> Seq<T> {
    seq![v.x, v.y, v.z, zero::<T>()]
}

/// The homogeneous coordinates of a point: its own three, then one.
pub open spec fn point_column<T: Scalar>(p: Point3D<T>) -> Seq<T> {
    seq![p.x, p.y, p.z, one::<T>()]
}

impl<T: Scalar> vstd::std_specs::convert::FromSpecImpl<Vector3D<T>> for M1_4<T> {
    open spec fn obeys_from_spec() -> bool {
        <T as FromSpec<i8>>::obeys_from_spec()
    }

    open spec fn from_spec(vector: Vector3D<T>) -> M1_4<T> {
        M1_4::from_items(vector_column(vector))
    }
}

impl<T: Scalar> From<Vector3D<T>> for M1_4<T> {
    fn from(vector: Vector3D<T>) -> (col: M1_4<T>)
        ensures
            <T as FromSpec<i8>>::obeys_from_spec() ==> col@ == vector_column(vector),
    {
        let col = M1_4([[vector.x()], [vector.y()], [vector.z()], [number(0i8)]]);
        proof {
            if <T as FromSpec<i8>>::obeys_from_spec() {
                assert(col@ =~= vector_column(vector));
                assert(M1_4::from_items(vector_column(vector))@ =~= vector_column(vector));
                col.same_items(M1_4::from_items(vector_column(vector)));
            }
        }
        col
    }
}

impl<T: Scalar> vstd::std_specs::convert::FromSpecImpl<Point3D<T>> for M1_4<T> {
    open spec fn obeys_from_spec() -> bool {
        <T as FromSpec<i8>>::obeys_from_spec()
    }

    open spec fn from_spec(point: Point3D<T>) -> M1_4<T> {
        M1_4::from_items(point_column(point))
    }
}

impl<T: Scalar> From<Point3D<T>> for M1_4<T> {
    fn from(point: Point3D<T>) -> (col: M1_4<T>)
        ensures
            <T as FromSpec<i8>>::obeys_from_spec() ==> col@ == point_column(point),
    {
        let col = M1_4([[point.x()], [point.y()], [point.z()], [number(1i8)]]);
        proof {
            if <T as FromSpec<i8>>::obeys_from_spec() {
                assert(col@ =~= point_column(point));
                assert(M1_4::from_items(point_column(point))@ =~= point_column(point));
                col.same_items(M1_4::from_items(point_column(point)));
            }
        }
        col
    }
}

/// The product of two matrices of order four.
impl<T: Scalar> vstd::std_specs::ops::MulSpecImpl<M4<T>> for M4<T> {
    open spec fn obeys_mul_spec() -> bool {
        obeys_arith::<T>()
    }

    open spec fn mul_req(self, other: M4<T>) -> bool {
        &&& obeys_arith::<T>()
        &&& product4_req(self@, other@)
    }

    open spec fn mul_spec(self, other: M4<T>) -> M4<T> {
        M4::from_rows(product4(self@, other@))
    }
}

impl<T: Scalar> std::ops::Mul<M4<T>> for M4<T> {
    type Output = M4<T>;

    fn mul(self, other: M4<T>) -> (result: M4<T>)
        ensures
            result@ == product4(self@, other@),
    {
        let mut result = M4::new();
        for r in 0..4usize
            invariant
                obeys_arith::<T>(),
                product4_req(self@, other@),
                forall|i: int, j: int|
                    0 <= i < r && 0 <= j < 4 ==> #[trigger] result@[i][j] == row_times(
                        self@[i],
                        column(other@, j),
                    ),
        {
            for c in 0..4usize
                invariant
                    r < 4,
                    obeys_arith::<T>(),
                    product4_req(self@, other@),
                    forall|i: int, j: int|
                        0 <= i < r && 0 <= j < 4 ==> #[trigger] result@[i][j] == row_times(
                            self@[i],
                            column(other@, j),
                        ),
                    forall|j: int|
                        0 <= j < c ==> #[trigger] result@[r as int][j] == row_times(
                            self@[r as int],
                            column(other@, j),
                        ),
            {
                assert(row_times_req(self@[r as int], column(other@, c as int)));
                result.write_idx(
                    r,
                    c,
                    (self.0[r][0] * other.0[0][c]) + (self.0[r][1] * other.0[1][c]) + (self.0[r][2]
                        * other.0[2][c]) + (self.0[r][3] * other.0[3][c]),
                );
            }
        }
        proof {
            assert(result@ =~~= product4(self@, other@));
            assert(M4::from_rows(product4(self@, other@))@ =~~= product4(self@, other@));
            result.same_rows(M4::from_rows(product4(self@, other@)));
        }
        result
    }
}

/// A matrix of order four applied to a column.
impl<T: Scalar> vstd::std_specs::ops::MulSpecImpl<M1_4<T>> for M4<T> {
    open spec fn obeys_mul_spec() -> bool {
        obeys_arith::<T>()
    }

    open spec fn mul_req(self, other: M1_4<T>) -> bool {
        &&& obeys_arith::<T>()
        &&& applied4_req(self@, other@)
    }

    open spec fn mul_spec(self, other: M1_4<T>) -> M1_4<T> {
        M1_4::from_items(applied4(self@, other@))
    }
}

impl<T: Scalar> std::ops::Mul<M1_4<T>> for M4<T> {
    type Output = M1_4<T>;

    fn mul(self, other: M1_4<T>) -> (result: M1_4<T>)
        ensures
            result@ == applied4(self@, other@),
    {
        let mut result = other;
        for r in 0..4usize
            invariant
                obeys_arith::<T>(),
                applied4_req(self@, other@),
                forall|i: int| 0 <= i < r ==> #[trigger] result@[i] == row_times(self@[i], other@),
        {
            assert(row_times_req(self@[r as int], other@));
            result.write_idx(
                r,
                (self.0[r][0] * other.0[0][0]) + (self.0[r][1] * other.0[1][0]) + (self.0[r][2]
                    * other.0[2][0]) + (self.0[r][3] * other.0[3][0]),
            );
        }
        proof {
            assert(result@ =~= applied4(self@, other@));
            assert(M1_4::from_items(applied4(self@, other@))@ =~= applied4(self@, other@));
            result.same_items(M1_4::from_items(applied4(self@, other@)));
        }
        result
    }
}

/// A matrix of order four applied to a vector, whose fourth coordinate is
/// zero.
impl<T: Scalar> vstd::std_specs::ops::MulSpecImpl<Vector3D<T>> for M4<T> {
    open spec fn obeys_mul_spec() -> bool {
        obeys_arith::<T>()
    }

    open spec fn mul_req(self, other: Vector3D<T>) -> bool {
        &&& obeys_arith::<T>()
        &&& applied4_req(self@, vector_column(other))
    }

    open spec fn mul_spec(self, other: Vector3D<T>) -> M1_4<T> {
        M1_4::from_items(applied4(self@, vector_column(other)))
    }
}

impl<T: Scalar> std::ops::Mul<Vector3D<T>> for M4<T> {
    type Output = M1_4<T>;

    fn mul(self, other: Vector3D<T>) -> (result: M1_4<T>)
        ensures
            result@ == applied4(self@, vector_column(other)),
    {
        let o: M1_4<T> = M1_4::from(other);
        self * o
    }
}

/// A matrix of order four applied to a point, whose fourth coordinate is
/// one.
impl<T: Scalar> vstd::std_specs::ops::MulSpecImpl<Point3D<T>> for M4<T> {
    open spec fn obeys_mul_spec() -> bool {
        obeys_arith::<T>()
    }

    open spec fn mul_req(self, other: Point3D<T>) -> bool {
        &&& obeys_arith::<T>()
        &&& applied4_req(self@, point_column(other))
    }

    open spec fn mul_spec(self, other: Point3D<T>) -> M1_4<T> {
        M1_4::from_items(applied4(self@, point_column(other)))
    }
}

impl<T: Scalar> std::ops::Mul<Point3D<T>> for M4<T> {
    type Output = M1_4<T>;

    fn mul(self, other: Point3D<T>) -> (result: M1_4<T>)
        ensures
            result@ == applied4(self@, point_column(other)),
    {
        let o: M1_4<T> = M1_4::from(other);
        self * o
    }
}

} // verus!
