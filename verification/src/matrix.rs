//! Integer vectors and matrices.
//!
//! A `Vector` holds machine integers; a `Matrix` is a sequence of rows.
//! The arithmetic operations are specified against the mathematical dot
//! product [`dot_spec`], and every operation is proved free of overflow
//! under its stated preconditions.

use vstd::prelude::*;

verus! {

/// A vector of unsigned machine integers.
pub struct Vector {
    pub data: Vec<usize>,
}

/// The mathematical dot product of two sequences, summing from the front.
pub open spec fn dot_spec(a: Seq<usize>, b: Seq<usize>) -> int
    recommends
        a.len() == b.len(),
    decreases a.len(),
{
    if a.len() == 0 || b.len() == 0 {
        0
    } else {
        dot_spec(a.drop_last(), b.drop_last()) + a.last() * b.last()
    }
}

/// The dot product of a prefix never exceeds the dot product of the whole
/// sequence, because every term is non-negative.
pub proof fn lemma_dot_prefix_le(a: Seq<usize>, b: Seq<usize>, i: int)
    requires
        a.len() == b.len(),
        0 <= i <= a.len(),
    ensures
        dot_spec(a.take(i), b.take(i)) <= dot_spec(a, b),
    decreases a.len() - i,
{
    if i == a.len() {
        assert(a.take(i) =~= a);
        assert(b.take(i) =~= b);
    } else {
        lemma_dot_step(a, b, i);
        let x = a[i] as int;
        let y = b[i] as int;
        assert(x * y >= 0) by (nonlinear_arith)
            requires
                x >= 0,
                y >= 0,
        ;
        lemma_dot_prefix_le(a, b, i + 1);
    }
}

/// Extending a prefix by one element adds exactly that element's product.
pub proof fn lemma_dot_step(a: Seq<usize>, b: Seq<usize>, i: int)
    requires
        a.len() == b.len(),
        0 <= i < a.len(),
    ensures
        dot_spec(a.take(i + 1), b.take(i + 1)) == dot_spec(a.take(i), b.take(i)) + a[i] * b[i],
{
    assert(a.take(i + 1).drop_last() =~= a.take(i));
    assert(b.take(i + 1).drop_last() =~= b.take(i));
    assert(a.take(i + 1).last() == a[i]);
    assert(b.take(i + 1).last() == b[i]);
}

impl Vector {
    /// Number of entries.
    pub open spec fn len_spec(self) -> int {
        self.data@.len() as int
    }

    /// The dot product with another vector of the same length.
    pub fn dot(&self, rhs: &Vector) -> (r: usize)
        requires
            self.data@.len() == rhs.data@.len(),
            dot_spec(self.data@, rhs.data@) <= usize::MAX,
        ensures
            r == dot_spec(self.data@, rhs.data@),
    {
        let n = self.data.len();
        let mut acc: usize = 0;
        let mut i: usize = 0;
        while i < n
            invariant
                n == self.data@.len(),
                n == rhs.data@.len(),
                i <= n,
                dot_spec(self.data@, rhs.data@) <= usize::MAX,
                acc == dot_spec(self.data@.take(i as int), rhs.data@.take(i as int)),
            decreases n - i,
        {
            proof {
                lemma_dot_step(self.data@, rhs.data@, i as int);
                lemma_dot_prefix_le(self.data@, rhs.data@, i + 1);
                let x = self.data@[i as int] as int;
                let y = rhs.data@[i as int] as int;
                assert(x * y >= 0) by (nonlinear_arith)
                    requires
                        x >= 0,
                        y >= 0,
                ;
                let pre = self.data@.take(i as int);
                let preb = rhs.data@.take(i as int);
                assert(dot_spec(pre, preb) >= 0) by {
                    lemma_dot_nonneg(pre, preb);
                }
            }
            acc = acc + self.data[i] * rhs.data[i];
            i = i + 1;
        }
        proof {
            assert(self.data@.take(n as int) =~= self.data@);
            assert(rhs.data@.take(n as int) =~= rhs.data@);
        }
        acc
    }

    /// Copies the vector into one of length `m`, truncating or
    /// zero-filling at the tail.
    pub fn fit(&self, m: usize) -> (r: Vector)
        ensures
            r.data@.len() == m,
            forall|i: int|
                0 <= i < m ==> r.data@[i] == (if i < self.data@.len() {
                    self.data@[i]
                } else {
                    0usize
                }),
    {
        let n = self.data.len();
        let mut out: Vec<usize> = Vec::new();
        let mut i: usize = 0;
        while i < m
            invariant
                n == self.data@.len(),
                i <= m,
                out@.len() == i,
                forall|k: int|
                    0 <= k < i ==> out@[k] == (if k < self.data@.len() {
                        self.data@[k]
                    } else {
                        0usize
                    }),
            decreases m - i,
        {
            if i < n {
                let v = self.data[i];
                out.push(v);
            } else {
                out.push(0);
            }
            i = i + 1;
        }
        Vector { data: out }
    }

    /// Element-wise sum of two vectors of the same length.
    pub fn add(self, rhs: Vector) -> (r: Vector)
        requires
            self.data@.len() == rhs.data@.len(),
            forall|i: int|
                0 <= i < self.data@.len() ==> self.data@[i] + rhs.data@[i] <= usize::MAX,
        ensures
            r.data@.len() == self.data@.len(),
            forall|i: int|
                0 <= i < r.data@.len() ==> r.data@[i] == self.data@[i] + rhs.data@[i],
    {
        let n = self.data.len();
        let mut out: Vec<usize> = Vec::new();
        let mut i: usize = 0;
        while i < n
            invariant
                n == self.data@.len(),
                n == rhs.data@.len(),
                i <= n,
                out@.len() == i,
                forall|k: int|
                    0 <= k < self.data@.len() ==> self.data@[k] + rhs.data@[k] <= usize::MAX,
                forall|k: int| 0 <= k < i ==> out@[k] == self.data@[k] + rhs.data@[k],
            decreases n - i,
        {
            let v = self.data[i] + rhs.data[i];
            out.push(v);
            i = i + 1;
        }
        Vector { data: out }
    }
}

/// A matrix of unsigned machine integers, kept as a sequence of rows.
pub struct Matrix {
    pub data: Vec<Vector>,
}

impl Matrix {
    /// Number of rows.
    pub open spec fn rows(self) -> int {
        self.data@.len() as int
    }

    /// Number of columns: the length of the first row (0 for an empty
    /// matrix).
    pub open spec fn cols(self) -> int {
        if self.data@.len() == 0 {
            0
        } else {
            self.data@[0].data@.len() as int
        }
    }

    /// Every row has the same length.
    pub open spec fn rect(self) -> bool {
        forall|i: int| 0 <= i < self.rows() ==> (#[trigger] self.data@[i]).data@.len() == self.cols()
    }

    /// The entry at row `i`, column `j`.
    pub open spec fn entry(self, i: int, j: int) -> usize {
        self.data@[i].data@[j]
    }

    /// Column `j` as a sequence.
    pub open spec fn col_seq(self, j: int) -> Seq<usize> {
        Seq::new(self.rows() as nat, |i: int| self.entry(i, j))
    }

    /// The matrix with rows and columns exchanged.  An empty matrix
    /// transposes to an empty one.
    pub fn transpose(&self) -> (r: Matrix)
        requires
            self.rect(),
        ensures
            r.rows() == self.cols(),
            r.rect(),
            r.rows() > 0 ==> r.cols() == self.rows(),
            forall|i: int, j: int|
                0 <= i < self.cols() && 0 <= j < self.rows() ==> #[trigger] r.entry(i, j)
                    == self.entry(j, i),
            forall|i: int|
                0 <= i < self.cols() ==> (#[trigger] r.data@[i]).data@ == self.col_seq(i),
    {
        let n = self.data.len();
        let m = if n == 0 {
            0
        } else {
            self.data[0].data.len()
        };
        let mut out: Vec<Vector> = Vec::new();
        let mut i: usize = 0;
        while i < m
            invariant
                n == self.data@.len(),
                m == self.cols(),
                self.rect(),
                i <= m,
                out@.len() == i,
                forall|a: int|
                    0 <= a < i ==> (#[trigger] out@[a]).data@ =~= self.col_seq(a),
            decreases m - i,
        {
            let mut row: Vec<usize> = Vec::new();
            let mut j: usize = 0;
            while j < n
                invariant
                    n == self.data@.len(),
                    m == self.cols(),
                    self.rect(),
                    i < m,
                    j <= n,
                    row@.len() == j,
                    forall|b: int| 0 <= b < j ==> row@[b] == self.entry(b, i as int),
                decreases n - j,
            {
                let v = self.data[j].data[i];
                row.push(v);
                j = j + 1;
            }
            proof {
                assert(row@ =~= self.col_seq(i as int));
            }
            out.push(Vector { data: row });
            i = i + 1;
        }
        Matrix { data: out }
    }

    /// The matrix-vector product: entry `i` is the dot product of row
    /// `i` with the vector.
    pub fn mul_vec(&self, rhs: &Vector) -> (r: Vector)
        requires
            self.rect(),
            self.cols() == rhs.data@.len(),
            forall|i: int|
                0 <= i < self.rows() ==> dot_spec((#[trigger] self.data@[i]).data@, rhs.data@)
                    <= usize::MAX,
        ensures
            r.data@.len() == self.rows(),
            forall|i: int|
                0 <= i < self.rows() ==> r.data@[i] == dot_spec(
                    (#[trigger] self.data@[i]).data@,
                    rhs.data@,
                ),
    {
        let n = self.data.len();
        let mut out: Vec<usize> = Vec::new();
        let mut i: usize = 0;
        while i < n
            invariant
                n == self.data@.len(),
                self.rect(),
                self.cols() == rhs.data@.len(),
                i <= n,
                out@.len() == i,
                forall|k: int|
                    0 <= k < n ==> dot_spec((#[trigger] self.data@[k]).data@, rhs.data@)
                        <= usize::MAX,
                forall|k: int|
                    0 <= k < i ==> out@[k] == dot_spec(
                        (#[trigger] self.data@[k]).data@,
                        rhs.data@,
                    ),
            decreases n - i,
        {
            let v = self.data[i].dot(rhs);
            out.push(v);
            i = i + 1;
        }
        Vector { data: out }
    }

    /// The matrix product: entry `(i, j)` is the dot product of row `i`
    /// of `self` with column `j` of `rhs`.
    pub fn mul(&self, rhs: &Matrix) -> (r: Matrix)
        requires
            self.rect(),
            rhs.rect(),
            self.cols() == rhs.rows(),
            forall|i: int, j: int|
                0 <= i < self.rows() && 0 <= j < rhs.cols() ==> dot_spec(
                    (#[trigger] self.data@[i]).data@,
                    #[trigger] rhs.col_seq(j),
                ) <= usize::MAX,
        ensures
            r.rows() == self.rows(),
            r.rect(),
            r.rows() > 0 ==> r.cols() == rhs.cols(),
            forall|i: int, j: int|
                0 <= i < self.rows() && 0 <= j < rhs.cols() ==> #[trigger] r.entry(i, j)
                    == dot_spec(self.data@[i].data@, rhs.col_seq(j)),
    {
        let right_transpose = rhs.transpose();
        let n = self.data.len();
        let p = right_transpose.data.len();
        let mut out: Vec<Vector> = Vec::new();
        let mut i: usize = 0;
        while i < n
            invariant
                n == self.data@.len(),
                p == rhs.cols(),
                self.rect(),
                rhs.rect(),
                self.cols() == rhs.rows(),
                right_transpose.rows() == rhs.cols(),
                right_transpose.rect(),
                right_transpose.rows() > 0 ==> right_transpose.cols() == rhs.rows(),
                forall|a: int|
                    0 <= a < rhs.cols() ==> (#[trigger] right_transpose.data@[a]).data@
                        == rhs.col_seq(a),
                forall|a: int, b: int|
                    0 <= a < self.rows() && 0 <= b < rhs.cols() ==> dot_spec(
                        (#[trigger] self.data@[a]).data@,
                        #[trigger] rhs.col_seq(b),
                    ) <= usize::MAX,
                i <= n,
                out@.len() == i,
                forall|a: int|
                    0 <= a < i ==> (#[trigger] out@[a]).data@.len() == rhs.cols(),
                forall|a: int, b: int|
                    0 <= a < i && 0 <= b < rhs.cols() ==> #[trigger] out@[a].data@[b]
                        == dot_spec(self.data@[a].data@, rhs.col_seq(b)),
            decreases n - i,
        {
            let mut row: Vec<usize> = Vec::new();
            let mut j: usize = 0;
            while j < p
                invariant
                    n == self.data@.len(),
                    p == rhs.cols(),
                    self.rect(),
                    rhs.rect(),
                    self.cols() == rhs.rows(),
                    right_transpose.rows() == rhs.cols(),
                    right_transpose.rect(),
                    right_transpose.rows() > 0 ==> right_transpose.cols() == rhs.rows(),
                    forall|a: int|
                        0 <= a < rhs.cols() ==> (#[trigger] right_transpose.data@[a]).data@
                            == rhs.col_seq(a),
                    forall|a: int, b: int|
                        0 <= a < self.rows() && 0 <= b < rhs.cols() ==> dot_spec(
                            (#[trigger] self.data@[a]).data@,
                            #[trigger] rhs.col_seq(b),
                        ) <= usize::MAX,
                    i < n,
                    j <= p,
                    row@.len() == j,
                    forall|b: int|
                        0 <= b < j ==> row@[b] == dot_spec(
                            self.data@[i as int].data@,
                            #[trigger] rhs.col_seq(b),
                        ),
                decreases p - j,
            {
                let v = self.data[i].dot(&right_transpose.data[j]);
                row.push(v);
                j = j + 1;
            }
            out.push(Vector { data: row });
            i = i + 1;
        }
        Matrix { data: out }
    }
}

/// The dot product of sequences of unsigned integers is non-negative.
pub proof fn lemma_dot_nonneg(a: Seq<usize>, b: Seq<usize>)
    ensures
        dot_spec(a, b) >= 0,
    decreases a.len(),
{
    if a.len() == 0 || b.len() == 0 {
    } else {
        lemma_dot_nonneg(a.drop_last(), b.drop_last());
        let x = a.last() as int;
        let y = b.last() as int;
        assert(x * y >= 0) by (nonlinear_arith)
            requires
                x >= 0,
                y >= 0,
        ;
    }
}

} // verus!
