//! Matrix quantities: a rectangular, row-major array of binary64 magnitudes
//! (carried as bit patterns) with one dimension vector shared by every
//! element, with scaling, contraction (matrix product), Euclidean magnitude,
//! and the per-unit derivation operators.

use vstd::prelude::*;

use crate::dim::add_ok;
use crate::dim::added;
use crate::dim::dec_ok;
use crate::dim::decrement;
use crate::dim::dim_decremented;
use crate::dim::dim_scaled;
use crate::dim::length_dim;
use crate::dim::scale_dims;
use crate::dim::scale_ok;
use crate::dim::subtracted;
use crate::dim::time_dim;
use crate::dim::zero_dim;
use crate::dim::Axis;
use crate::dim::Dim;
use crate::dim::UnitError;
use crate::dim::add_dims;
use crate::magnitude::cos_bits;
use crate::magnitude::prod_bits;
use crate::magnitude::sin_bits;
use crate::magnitude::sqrt_bits;
use crate::magnitude::sum_bits;
use crate::magnitude::add_mag;
use crate::magnitude::cos_mag;
use crate::magnitude::mul_mag;
use crate::magnitude::sin_mag;
use crate::magnitude::sqrt_mag;

verus! {

/// A matrix quantity: `rows * cols` binary64 magnitudes stored row-major in a
/// flat buffer (the element at row `i`, column `j` is `vals[i * cols + j]`),
/// with one dimension vector shared by every element. Values are immutable;
/// every operator returns a new matrix.
#[derive(Clone, Debug)]
pub struct Matrix {
    pub rows: usize,
    pub cols: usize,
    pub vals: Vec<u64>,
    pub dim: Dim,
}

/// The accumulated contraction cell: the value the row-by-column sum of
/// products reaches after its first `n` terms, starting from positive zero
/// and accumulating `a[i * acols + k] * b[k * bcols + j]` for `k` ascending.
pub open spec fn cell_acc(
    a: Seq<u64>,
    b: Seq<u64>,
    acols: int,
    bcols: int,
    i: int,
    j: int,
    n: nat,
) -> u64
    decreases n,
{
    if n == 0 {
        0u64
    } else {
        sum_bits(
            cell_acc(a, b, acols, bcols, i, j, (n - 1) as nat),
            prod_bits(a[i * acols + (n - 1)], b[(n - 1) * bcols + j]),
        )
    }
}

/// The accumulated sum of squares: the value the Euclidean-norm accumulator
/// reaches after the first `n` elements, starting from positive zero and
/// accumulating `s[k] * s[k]` for `k` ascending.
pub open spec fn norm_acc(s: Seq<u64>, n: nat) -> u64
    decreases n,
{
    if n == 0 {
        0u64
    } else {
        sum_bits(norm_acc(s, (n - 1) as nat), prod_bits(s[n - 1], s[n - 1]))
    }
}

/// A row-major index lies inside the flat buffer.
pub(crate) proof fn lemma_row_major_bound(p: int, q: int, rows: int, cols: int)
    requires
        0 <= p < rows,
        0 <= q < cols,
    ensures
        0 <= p * cols + q < rows * cols,
{
    assert(0 <= p * cols + q < rows * cols) by (nonlinear_arith)
        requires
            0 <= p < rows,
            0 <= q < cols,
    ;
}

impl Matrix {
    /// Well-formed: the flat buffer holds exactly `rows * cols` elements.
    pub open spec fn wf(self) -> bool {
        self.vals@.len() == self.rows * self.cols
    }

    /// A dimensionless matrix from its shape and its row-major elements.
    /// Rejected with `ShapeMismatch` exactly when the element count does not
    /// equal `rows * cols`.
    pub fn new(rows: usize, cols: usize, vals: Vec<u64>) -> (r: Result<Matrix, UnitError>)
        ensures
            r is Ok <==> vals@.len() == rows * cols,
            r is Err ==> r->Err_0 == UnitError::ShapeMismatch,
            r is Ok ==> r->Ok_0 == (Matrix { rows, cols, vals, dim: zero_dim() }),
    {
        Matrix::with_dim(rows, cols, vals, Dim::unitless())
    }

    /// A matrix from its shape, its row-major elements, and an explicit
    /// shared dimension vector. Rejected with `ShapeMismatch` exactly when
    /// the element count does not equal `rows * cols`.
    pub fn with_dim(rows: usize, cols: usize, vals: Vec<u64>, dim: Dim) -> (r: Result<
        Matrix,
        UnitError,
    >)
        ensures
            r is Ok <==> vals@.len() == rows * cols,
            r is Err ==> r->Err_0 == UnitError::ShapeMismatch,
            r is Ok ==> r->Ok_0 == (Matrix { rows, cols, vals, dim }),
    {
        let len = vals.len();
        match rows.checked_mul(cols) {
            Some(n) => {
                if n == len {
                    Ok(Matrix { rows, cols, vals, dim })
                } else {
                    Err(UnitError::ShapeMismatch)
                }
            },
            None => Err(UnitError::ShapeMismatch),
        }
    }

    /// The element at row `i`, column `j`, or `None` exactly when the
    /// position lies outside the shape.
    pub fn get(&self, i: usize, j: usize) -> (r: Option<u64>)
        requires
            self.wf(),
        ensures
            r is Some <==> i < self.rows && j < self.cols,
            r is Some ==> r->0 == self.vals@[i as int * self.cols + j],
    {
        if i < self.rows && j < self.cols {
            let n = self.vals.len();
            proof {
                lemma_row_major_bound(i as int, j as int, self.rows as int, self.cols as int);
                assert(i as int * self.cols + j < n);
            }
            Some(self.vals[i * self.cols + j])
        } else {
            None
        }
    }

    /// Every element scaled by a raw (dimensionless) binary64 scalar, given
    /// as its bit pattern; shape and dimension vector are unchanged.
    pub fn mul_raw(&self, k: u64) -> (r: Matrix)
        requires
            self.wf(),
        ensures
            r.wf(),
            r.rows == self.rows,
            r.cols == self.cols,
            r.dim == self.dim,
            r.vals@.len() == self.vals@.len(),
            forall|t: int| 0 <= t < self.vals@.len() ==> r.vals@[t] == prod_bits(self.vals@[t], k),
    {
        let n = self.vals.len();
        let mut out: Vec<u64> = Vec::new();
        let mut t: usize = 0;
        while t < n
            invariant
                t <= n,
                n == self.vals@.len(),
                out@.len() == t,
                forall|u: int| 0 <= u < t ==> out@[u] == prod_bits(self.vals@[u], k),
            decreases n - t,
        {
            out.push(mul_mag(self.vals[t], k));
            t += 1;
        }
        Matrix { rows: self.rows, cols: self.cols, vals: out, dim: self.dim }
    }

    /// Matrix contraction: the numeric row-by-column product combined with
    /// dimension-exponent addition. Rejected with `ShapeMismatch` exactly
    /// when the left column count differs from the right row count; on
    /// success the element at row `i`, column `j` is the sum over `k` of
    /// `self[i, k] * rhs[k, j]`, accumulated for `k` ascending, and the
    /// dimension vector is the component-wise sum of the operands'.
    pub fn mul(&self, rhs: &Matrix) -> (r: Result<Matrix, UnitError>)
        requires
            self.wf(),
            rhs.wf(),
            add_ok(self.dim, rhs.dim),
            self.rows * rhs.cols <= usize::MAX,
        ensures
            r is Ok <==> self.cols == rhs.rows,
            r is Err ==> r->Err_0 == UnitError::ShapeMismatch,
            r is Ok ==> ({
                let m = r->Ok_0;
                &&& m.wf()
                &&& m.rows == self.rows
                &&& m.cols == rhs.cols
                &&& added(self.dim, rhs.dim, m.dim)
                &&& forall|i: int, j: int|
                    0 <= i < self.rows && 0 <= j < rhs.cols ==> m.vals@[i * rhs.cols + j]
                        == cell_acc(
                        self.vals@,
                        rhs.vals@,
                        self.cols as int,
                        rhs.cols as int,
                        i,
                        j,
                        self.cols as nat,
                    )
            }),
    {
        if self.cols != rhs.rows {
            return Err(UnitError::ShapeMismatch);
        }
        let x = self.rows;
        let y = self.cols;
        let w = rhs.cols;
        let an = self.vals.len();
        let bn = rhs.vals.len();
        let mut vals: Vec<u64> = Vec::new();
        let mut i: usize = 0;
        while i < x
            invariant
                i <= x,
                x == self.rows,
                y == self.cols,
                w == rhs.cols,
                y == rhs.rows,
                self.wf(),
                rhs.wf(),
                an == self.vals@.len(),
                bn == rhs.vals@.len(),
                x * w <= usize::MAX,
                vals@.len() == i * w,
                forall|p: int, q: int|
                    0 <= p < i && 0 <= q < w ==> vals@[p * w + q] == cell_acc(
                        self.vals@,
                        rhs.vals@,
                        y as int,
                        w as int,
                        p,
                        q,
                        y as nat,
                    ),
            decreases x - i,
        {
            let mut j: usize = 0;
            while j < w
                invariant
                    i < x,
                    j <= w,
                    x == self.rows,
                    y == self.cols,
                    w == rhs.cols,
                    y == rhs.rows,
                    self.wf(),
                    rhs.wf(),
                    an == self.vals@.len(),
                    bn == rhs.vals@.len(),
                    x * w <= usize::MAX,
                    vals@.len() == i * w + j,
                    forall|p: int, q: int|
                        0 <= p < i && 0 <= q < w ==> vals@[p * w + q] == cell_acc(
                            self.vals@,
                            rhs.vals@,
                            y as int,
                            w as int,
                            p,
                            q,
                            y as nat,
                        ),
                    forall|q: int|
                        0 <= q < j ==> vals@[i * w + q] == cell_acc(
                            self.vals@,
                            rhs.vals@,
                            y as int,
                            w as int,
                            i as int,
                            q,
                            y as nat,
                        ),
                decreases w - j,
            {
                let mut acc: u64 = 0;
                let mut k: usize = 0;
                while k < y
                    invariant
                        i < x,
                        j < w,
                        k <= y,
                        x == self.rows,
                        y == self.cols,
                        w == rhs.cols,
                        y == rhs.rows,
                        self.wf(),
                        rhs.wf(),
                        an == self.vals@.len(),
                        bn == rhs.vals@.len(),
                        acc == cell_acc(
                            self.vals@,
                            rhs.vals@,
                            y as int,
                            w as int,
                            i as int,
                            j as int,
                            k as nat,
                        ),
                    decreases y - k,
                {
                    proof {
                        lemma_row_major_bound(i as int, k as int, x as int, y as int);
                        lemma_row_major_bound(k as int, j as int, y as int, w as int);
                        assert(i as int * y + k < an);
                        assert(k as int * w + j < bn);
                    }
                    let p = mul_mag(self.vals[i * y + k], rhs.vals[k * w + j]);
                    acc = add_mag(acc, p);
                    k += 1;
                }
                proof {
                    lemma_row_major_bound(i as int, j as int, x as int, w as int);
                }
                vals.push(acc);
                j += 1;
                proof {
                    assert forall|p: int, q: int| 0 <= p < i && 0 <= q < w implies vals@[p * w + q]
                        == cell_acc(
                        self.vals@,
                        rhs.vals@,
                        y as int,
                        w as int,
                        p,
                        q,
                        y as nat,
                    ) by {
                        lemma_row_major_bound(p, q, i as int, w as int);
                    }
                }
            }
            proof {
                assert((i as int + 1) * w == i as int * w + w) by (nonlinear_arith);
            }
            i += 1;
        }
        Ok(Matrix { rows: x, cols: w, vals, dim: add_dims(self.dim, rhs.dim) })
    }

    /// The Euclidean norm of all elements — the square root of the sum of
    /// their squares, accumulated in row-major order — as a one-by-one matrix
    /// with the dimension vector unchanged. A matrix of all-zero elements has
    /// magnitude exactly zero.
    pub fn magnitude(&self) -> (r: Matrix)
        requires
            self.wf(),
        ensures
            r.wf(),
            r.rows == 1,
            r.cols == 1,
            r.dim == self.dim,
            r.vals@.len() == 1,
            r.vals@[0] == sqrt_bits(norm_acc(self.vals@, self.vals@.len())),
            (forall|t: int| 0 <= t < self.vals@.len() ==> self.vals@[t] == 0u64) ==> r.vals@[0]
                == 0u64,
    {
        let n = self.vals.len();
        let mut acc: u64 = 0;
        let mut t: usize = 0;
        while t < n
            invariant
                t <= n,
                n == self.vals@.len(),
                acc == norm_acc(self.vals@, t as nat),
                (forall|u: int| 0 <= u < t ==> self.vals@[u] == 0u64) ==> acc == 0u64,
            decreases n - t,
        {
            let v = self.vals[t];
            let p = mul_mag(v, v);
            acc = add_mag(acc, p);
            t += 1;
        }
        let out = sqrt_mag(acc);
        let mut vals: Vec<u64> = Vec::new();
        vals.push(out);
        Matrix { rows: 1, cols: 1, vals, dim: self.dim }
    }

    /// Reinterprets the matrix as a rate per second: the time exponent drops
    /// by one; shape and stored magnitudes are unchanged.
    pub fn per_second(self) -> (r: Matrix)
        requires
            dec_ok(self.dim, Axis::Time),
        ensures
            r.rows == self.rows,
            r.cols == self.cols,
            r.vals@ == self.vals@,
            dim_decremented(self.dim, Axis::Time, r.dim),
            subtracted(self.dim, time_dim(), r.dim),
    {
        let d = decrement(self.dim, Axis::Time);
        Matrix { dim: d, ..self }
    }

    /// Reinterprets the matrix as a rate per meter: the length exponent drops
    /// by one; shape and stored magnitudes are unchanged.
    pub fn per_meter(self) -> (r: Matrix)
        requires
            dec_ok(self.dim, Axis::Length),
        ensures
            r.rows == self.rows,
            r.cols == self.cols,
            r.vals@ == self.vals@,
            dim_decremented(self.dim, Axis::Length, r.dim),
            subtracted(self.dim, length_dim(), r.dim),
    {
        let d = decrement(self.dim, Axis::Length);
        Matrix { dim: d, ..self }
    }

    /// Reinterprets the matrix as a rate per hour. This applies the same
    /// dimension transform as `per_second` — the time exponent drops by one —
    /// and, like every derivation operator, applies no numeric time-scale
    /// conversion to the stored magnitudes.
    pub fn per_hour(self) -> (r: Matrix)
        requires
            dec_ok(self.dim, Axis::Time),
        ensures
            r.rows == self.rows,
            r.cols == self.cols,
            r.vals@ == self.vals@,
            dim_decremented(self.dim, Axis::Time, r.dim),
            subtracted(self.dim, time_dim(), r.dim),
    {
        let d = decrement(self.dim, Axis::Time);
        Matrix { dim: d, ..self }
    }

    /// Reinterprets the matrix with every dimension exponent doubled. Like
    /// the per-unit derivations, this changes only the interpreted unit:
    /// shape and stored magnitudes are unchanged.
    pub fn squared(self) -> (r: Matrix)
        requires
            scale_ok(self.dim, 2),
        ensures
            r.rows == self.rows,
            r.cols == self.cols,
            r.vals@ == self.vals@,
            dim_scaled(self.dim, 2, r.dim),
    {
        let d = scale_dims(self.dim, 2);
        Matrix { dim: d, ..self }
    }

    /// The element-wise sine. Trigonometric operators are only meaningful on
    /// dimensionless operands, so any other dimension vector is rejected with
    /// `DimensionMismatch`.
    pub fn sin(&self) -> (r: Result<Matrix, UnitError>)
        requires
            self.wf(),
        ensures
            r is Ok <==> self.dim == zero_dim(),
            r is Err ==> r->Err_0 == UnitError::DimensionMismatch,
            r is Ok ==> ({
                let m = r->Ok_0;
                &&& m.wf()
                &&& m.rows == self.rows
                &&& m.cols == self.cols
                &&& m.dim == self.dim
                &&& m.vals@.len() == self.vals@.len()
                &&& forall|t: int|
                    0 <= t < self.vals@.len() ==> m.vals@[t] == sin_bits(self.vals@[t])
            }),
    {
        if !(self.dim == Dim::unitless()) {
            return Err(UnitError::DimensionMismatch);
        }
        let n = self.vals.len();
        let mut out: Vec<u64> = Vec::new();
        let mut t: usize = 0;
        while t < n
            invariant
                t <= n,
                n == self.vals@.len(),
                out@.len() == t,
                forall|u: int| 0 <= u < t ==> out@[u] == sin_bits(self.vals@[u]),
            decreases n - t,
        {
            out.push(sin_mag(self.vals[t]));
            t += 1;
        }
        Ok(Matrix { rows: self.rows, cols: self.cols, vals: out, dim: self.dim })
    }

    /// The element-wise cosine. Trigonometric operators are only meaningful
    /// on dimensionless operands, so any other dimension vector is rejected
    /// with `DimensionMismatch`.
    pub fn cos(&self) -> (r: Result<Matrix, UnitError>)
        requires
            self.wf(),
        ensures
            r is Ok <==> self.dim == zero_dim(),
            r is Err ==> r->Err_0 == UnitError::DimensionMismatch,
            r is Ok ==> ({
                let m = r->Ok_0;
                &&& m.wf()
                &&& m.rows == self.rows
                &&& m.cols == self.cols
                &&& m.dim == self.dim
                &&& m.vals@.len() == self.vals@.len()
                &&& forall|t: int|
                    0 <= t < self.vals@.len() ==> m.vals@[t] == cos_bits(self.vals@[t])
            }),
    {
        if !(self.dim == Dim::unitless()) {
            return Err(UnitError::DimensionMismatch);
        }
        let n = self.vals.len();
        let mut out: Vec<u64> = Vec::new();
        let mut t: usize = 0;
        while t < n
            invariant
                t <= n,
                n == self.vals@.len(),
                out@.len() == t,
                forall|u: int| 0 <= u < t ==> out@[u] == cos_bits(self.vals@[u]),
            decreases n - t,
        {
            out.push(cos_mag(self.vals[t]));
            t += 1;
        }
        Ok(Matrix { rows: self.rows, cols: self.cols, vals: out, dim: self.dim })
    }
}

/// The shape-and-dimension relation of a contraction: `r` has `a`'s row
/// count, `b`'s column count, and the component-wise sum of their dimension
/// vectors.
pub open spec fn contract_shape(a: Matrix, b: Matrix, r: Matrix) -> bool {
    r.rows == a.rows && r.cols == b.cols && added(a.dim, b.dim, r.dim)
}

/// Contraction is associative in shape and dimension: contracting `a` with
/// `b` and then with `c` yields the same shape and the same dimension vector
/// as contracting `b` with `c` first and then `a` with that result.
pub proof fn lemma_contract_shape_associative(
    a: Matrix,
    b: Matrix,
    c: Matrix,
    ab: Matrix,
    ab_c: Matrix,
    bc: Matrix,
    a_bc: Matrix,
)
    requires
        a.cols == b.rows,
        b.cols == c.rows,
        contract_shape(a, b, ab),
        contract_shape(ab, c, ab_c),
        contract_shape(b, c, bc),
        contract_shape(a, bc, a_bc),
    ensures
        ab_c.rows == a_bc.rows,
        ab_c.cols == a_bc.cols,
        ab_c.dim == a_bc.dim,
{
}

} // verus!
