//! Dense row-major matrices of fixed-point scalars.
//!
//! The model of a matrix is its grid: a sequence of rows, each a sequence
//! of mathematical integers. The determinant is defined on grids by
//! recursive cofactor expansion, exactly as the executable code computes
//! it, and the inverse divides cofactors by the determinant.

use vstd::prelude::*;

verus! {

use crate::{EPSILON, SCALE};
use crate::fx::{
    div_fx,
    div_trunc,
    fx_mul,
    lemma_div_trunc_bound,
    lemma_mul_bounds,
    mul_fx,
    mul_ok,
};
use crate::space::{Point, Tuple, Vector, tuple_bounded};

/// Entry cap under which a four-by-four determinant cannot overflow:
/// two hundred units.
pub const MAT_LIMIT: i64 = 20_000_000_000;

/// A dense row-major matrix of fixed-point scalars.
#[derive(Clone, Debug)]
pub struct Matrix {
    pub rows: usize,
    pub cols: usize,
    pub values: Vec<i64>,
}

impl Matrix {
    /// The backing storage holds exactly one scalar per cell.
    pub open spec fn wf(self) -> bool {
        self.values.len() == self.rows * self.cols
    }

    /// The entry in row `r`, column `c`, as a mathematical integer.
    pub open spec fn val(self, r: int, c: int) -> int {
        self.values[r * (self.cols as int) + c] as int
    }

    /// The grid of entries: a sequence of rows.
    pub open spec fn grid(self) -> Seq<Seq<int>> {
        Seq::new(self.rows as nat, |r: int| Seq::new(self.cols as nat, |c: int| self.val(r, c)))
    }

    /// Every entry within `b` of zero.
    pub open spec fn entries_bounded(self, b: int) -> bool {
        forall|r: int, c: int|
            0 <= r < self.rows && 0 <= c < self.cols ==> -b <= #[trigger] self.val(r, c) <= b
    }

    /// A matrix of zeros.
    pub fn new(rows: usize, cols: usize) -> (m: Matrix)
        requires
            rows * cols <= usize::MAX,
        ensures
            m.wf(),
            m.rows == rows,
            m.cols == cols,
            forall|r: int, c: int| 0 <= r < rows && 0 <= c < cols ==> #[trigger] m.val(r, c) == 0,
    {
        let n: usize = rows * cols;
        let values: Vec<i64> = vec![0i64; n];
        let m = Matrix { rows, cols, values };
        proof {
            assert forall|r: int, c: int| 0 <= r < rows && 0 <= c < cols implies #[trigger] m.val(
                r,
                c,
            ) == 0 by {
                lemma_index_in_bounds(r, c, rows as int, cols as int);
            }
        }
        m
    }

    /// A fresh matrix with the same dimensions and entries.
    pub fn duplicate(&self) -> (m: Matrix)
        ensures
            m.rows == self.rows,
            m.cols == self.cols,
            m.values@ == self.values@,
    {
        let values = self.values.clone();
        proof {
            assert(values@ =~= self.values@);
        }
        Matrix { rows: self.rows, cols: self.cols, values }
    }

    /// A matrix over the given row-major values.
    pub fn from_values(rows: usize, cols: usize, values: Vec<i64>) -> (m: Matrix)
        requires
            values.len() == rows * cols,
        ensures
            m.wf(),
            m.rows == rows,
            m.cols == cols,
            forall|r: int, c: int|
                0 <= r < rows && 0 <= c < cols ==> #[trigger] m.val(r, c) == values[r * (
                cols as int) + c],
    {
        Matrix { rows, cols, values }
    }

    /// The entry in row `row`, column `col`.
    pub fn get(&self, row: usize, col: usize) -> (r: i64)
        requires
            self.wf(),
            row < self.rows,
            col < self.cols,
        ensures
            r == self.val(row as int, col as int),
    {
        proof {
            lemma_index_in_bounds(row as int, col as int, self.rows as int, self.cols as int);
        }
        let idx: usize = row * self.cols + col;
        self.values[idx]
    }

    /// Write the entry in row `row`, column `col`.
    pub fn set(&mut self, row: usize, col: usize, value: i64)
        requires
            old(self).wf(),
            row < old(self).rows,
            col < old(self).cols,
        ensures
            final(self).wf(),
            final(self).rows == old(self).rows,
            final(self).cols == old(self).cols,
            final(self).val(row as int, col as int) == value,
            forall|r: int, c: int|
                0 <= r < old(self).rows && 0 <= c < old(self).cols && !(r == row && c == col)
                    ==> #[trigger] final(self).val(r, c) == old(self).val(r, c),
    {
        proof {
            lemma_index_in_bounds(row as int, col as int, self.rows as int, self.cols as int);
        }
        let idx: usize = row * self.cols + col;
        self.values[idx] = value;
        proof {
            assert forall|r: int, c: int|
                0 <= r < self.rows && 0 <= c < self.cols && !(r == row && c == col) implies #[trigger] self
                .val(r, c) == old(self).val(r, c) by {
                lemma_index_in_bounds(r, c, self.rows as int, self.cols as int);
                lemma_index_distinct(r, c, row as int, col as int, self.cols as int);
            }
        }
    }

    /// The matrix with rows and columns swapped.
    pub fn transpose(&self) -> (m: Matrix)
        requires
            self.wf(),
            self.rows * self.cols <= usize::MAX,
        ensures
            m.wf(),
            m.rows == self.cols,
            m.cols == self.rows,
            forall|r: int, c: int|
                0 <= r < self.cols && 0 <= c < self.rows ==> #[trigger] m.val(r, c) == self.val(
                    c,
                    r,
                ),
    {
        proof {
            assert((self.cols as int) * (self.rows as int) == (self.rows as int) * (
            self.cols as int)) by (nonlinear_arith) {}
        }
        let mut result = Matrix::new(self.cols, self.rows);
        let mut row: usize = 0;
        while row < self.rows
            invariant
                self.wf(),
                result.wf(),
                result.rows == self.cols,
                result.cols == self.rows,
                row <= self.rows,
                forall|r: int, c: int|
                    0 <= r < self.cols && 0 <= c < row ==> #[trigger] result.val(r, c)
                        == self.val(c, r),
            decreases self.rows - row,
        {
            let mut col: usize = 0;
            while col < self.cols
                invariant
                    self.wf(),
                    result.wf(),
                    result.rows == self.cols,
                    result.cols == self.rows,
                    row < self.rows,
                    col <= self.cols,
                    forall|r: int, c: int|
                        0 <= r < self.cols && 0 <= c < row ==> #[trigger] result.val(r, c)
                            == self.val(c, r),
                    forall|r: int|
                        0 <= r < col ==> #[trigger] result.val(r, row as int) == self.val(
                            row as int,
                            r,
                        ),
                decreases self.cols - col,
            {
                let v = self.get(row, col);
                result.set(col, row, v);
                col = col + 1;
            }
            row = row + 1;
        }
        result
    }

    /// Componentwise equality within `EPSILON`, on matching dimensions.
    pub fn approx_eq(&self, other: &Matrix) -> (r: bool)
        requires
            self.wf(),
            other.wf(),
        ensures
            r == (self.rows == other.rows && self.cols == other.cols && forall|i: int, j: int|
                0 <= i < self.rows && 0 <= j < self.cols ==> vstd::math::abs(
                    #[trigger] self.val(i, j) - other.val(i, j),
                ) < EPSILON),
    {
        if self.rows != other.rows || self.cols != other.cols {
            return false;
        }
        let mut row: usize = 0;
        while row < self.rows
            invariant
                self.wf(),
                other.wf(),
                self.rows == other.rows,
                self.cols == other.cols,
                row <= self.rows,
                forall|i: int, j: int|
                    0 <= i < row && 0 <= j < self.cols ==> vstd::math::abs(
                        #[trigger] self.val(i, j) - other.val(i, j),
                    ) < EPSILON,
            decreases self.rows - row,
        {
            let mut col: usize = 0;
            while col < self.cols
                invariant
                    self.wf(),
                    other.wf(),
                    self.rows == other.rows,
                    self.cols == other.cols,
                    row < self.rows,
                    col <= self.cols,
                    forall|i: int, j: int|
                        0 <= i < row && 0 <= j < self.cols ==> vstd::math::abs(
                            #[trigger] self.val(i, j) - other.val(i, j),
                        ) < EPSILON,
                    forall|j: int|
                        0 <= j < col ==> vstd::math::abs(
                            #[trigger] self.val(row as int, j) - other.val(row as int, j),
                        ) < EPSILON,
                decreases self.cols - col,
            {
                if !crate::approx_equal(self.get(row, col), other.get(row, col)) {
                    return false;
                }
                col = col + 1;
            }
            row = row + 1;
        }
        true
    }
}

/// The fixed-point dot product of row `r` of a transform with a tuple.
pub open spec fn row_dot(m: Matrix, t: Tuple, r: int) -> int {
    mul_fx(m.val(r, 0), t.x as int) + mul_fx(m.val(r, 1), t.y as int) + mul_fx(
        m.val(r, 2),
        t.z as int,
    ) + mul_fx(m.val(r, 3), t.w as int)
}

/// A four-by-four transform applied to a tuple, componentwise.
pub open spec fn spec_apply(m: Matrix, t: Tuple) -> Tuple {
    Tuple {
        x: row_dot(m, t, 0) as i64,
        y: row_dot(m, t, 1) as i64,
        z: row_dot(m, t, 2) as i64,
        w: row_dot(m, t, 3) as i64,
    }
}

/// The first `k` terms of the product cell in row `r`, column `c`.
pub open spec fn mul_cell(a: Matrix, b: Matrix, r: int, c: int, k: nat) -> int
    decreases k,
{
    if k == 0 {
        0
    } else {
        mul_cell(a, b, r, c, (k - 1) as nat) + mul_fx(a.val(r, k - 1), b.val(k - 1, c))
    }
}

/// Entry cap under which row-times-column sums cannot overflow:
/// the same cap as a four-term dot product.
pub const MUL_LIMIT: i64 = 15_000_000_000_000;

/// One product term of two operands within `MUL_LIMIT` is admissible
/// and small.
proof fn lemma_mul_term(u: int, v: int)
    requires
        -(MUL_LIMIT as int) <= u <= MUL_LIMIT as int,
        -(MUL_LIMIT as int) <= v <= MUL_LIMIT as int,
    ensures
        mul_ok(u, v),
        -2_250_000_000_000_000_001 <= mul_fx(u, v) <= 2_250_000_000_000_000_001,
{
    crate::fx::lemma_mul_fx_bound(u, v, MUL_LIMIT as int, MUL_LIMIT as int);
}

impl Matrix {
    /// The matrix product, with row-times-column fixed-point dot
    /// products in every cell.
    pub fn times_matrix(&self, rhs: &Matrix) -> (m: Matrix)
        requires
            self.wf(),
            rhs.wf(),
            self.cols == rhs.rows,
            self.rows <= 4,
            self.cols <= 4,
            rhs.cols <= 4,
            self.entries_bounded(MUL_LIMIT as int),
            rhs.entries_bounded(MUL_LIMIT as int),
        ensures
            m.wf(),
            m.rows == self.rows,
            m.cols == rhs.cols,
            forall|r: int, c: int|
                0 <= r < self.rows && 0 <= c < rhs.cols ==> #[trigger] m.val(r, c) == mul_cell(
                    *self,
                    *rhs,
                    r,
                    c,
                    self.cols as nat,
                ),
    {
        proof {
            assert((self.rows as int) * (rhs.cols as int) <= 16) by (nonlinear_arith)
                requires
                    self.rows <= 4,
                    rhs.cols <= 4,
            {
            }
        }
        let mut result = Matrix::new(self.rows, rhs.cols);
        let mut row: usize = 0;
        while row < self.rows
            invariant
                self.wf(),
                rhs.wf(),
                result.wf(),
                self.cols == rhs.rows,
                self.rows <= 4,
                self.cols <= 4,
                rhs.cols <= 4,
                self.entries_bounded(MUL_LIMIT as int),
                rhs.entries_bounded(MUL_LIMIT as int),
                result.rows == self.rows,
                result.cols == rhs.cols,
                row <= self.rows,
                forall|r: int, c: int|
                    0 <= r < row && 0 <= c < rhs.cols ==> #[trigger] result.val(r, c) == mul_cell(
                        *self,
                        *rhs,
                        r,
                        c,
                        self.cols as nat,
                    ),
            decreases self.rows - row,
        {
            let mut col: usize = 0;
            while col < rhs.cols
                invariant
                    self.wf(),
                    rhs.wf(),
                    result.wf(),
                    self.cols == rhs.rows,
                    self.rows <= 4,
                    self.cols <= 4,
                    rhs.cols <= 4,
                    self.entries_bounded(MUL_LIMIT as int),
                    rhs.entries_bounded(MUL_LIMIT as int),
                    result.rows == self.rows,
                    result.cols == rhs.cols,
                    row < self.rows,
                    col <= rhs.cols,
                    forall|r: int, c: int|
                        0 <= r < row && 0 <= c < rhs.cols ==> #[trigger] result.val(r, c)
                            == mul_cell(*self, *rhs, r, c, self.cols as nat),
                    forall|c: int|
                        0 <= c < col ==> #[trigger] result.val(row as int, c) == mul_cell(
                            *self,
                            *rhs,
                            row as int,
                            c,
                            self.cols as nat,
                        ),
                decreases rhs.cols - col,
            {
                let mut tally: i64 = 0;
                let mut k: usize = 0;
                while k < self.cols
                    invariant
                        self.wf(),
                        rhs.wf(),
                        self.cols == rhs.rows,
                        self.cols <= 4,
                        self.entries_bounded(MUL_LIMIT as int),
                        rhs.entries_bounded(MUL_LIMIT as int),
                        row < self.rows,
                        col < rhs.cols,
                        k <= self.cols,
                        tally == mul_cell(*self, *rhs, row as int, col as int, k as nat),
                        -(k as int) * 2_250_000_000_000_000_001 <= tally <= (k as int)
                            * 2_250_000_000_000_000_001,
                    decreases self.cols - k,
                {
                    proof {
                        lemma_mul_term(
                            self.val(row as int, k as int),
                            rhs.val(k as int, col as int),
                        );
                    }
                    tally = tally + fx_mul(self.get(row, k), rhs.get(k, col));
                    k = k + 1;
                }
                result.set(row, col, tally);
                col = col + 1;
            }
            row = row + 1;
        }
        result
    }

    /// A four-by-four transform applied to a tuple.
    pub fn times_tuple(&self, t: &Tuple) -> (r: Tuple)
        requires
            self.wf(),
            self.rows == 4,
            self.cols == 4,
            self.entries_bounded(MUL_LIMIT as int),
            tuple_bounded(*t, MUL_LIMIT as int),
        ensures
            r == spec_apply(*self, *t),
    {
        proof {
            lemma_apply_row(*self, *t, 0);
            lemma_apply_row(*self, *t, 1);
            lemma_apply_row(*self, *t, 2);
            lemma_apply_row(*self, *t, 3);
        }
        let x: i64 = fx_mul(self.get(0, 0), t.x) + fx_mul(self.get(0, 1), t.y) + fx_mul(
            self.get(0, 2),
            t.z,
        ) + fx_mul(self.get(0, 3), t.w);
        let y: i64 = fx_mul(self.get(1, 0), t.x) + fx_mul(self.get(1, 1), t.y) + fx_mul(
            self.get(1, 2),
            t.z,
        ) + fx_mul(self.get(1, 3), t.w);
        let z: i64 = fx_mul(self.get(2, 0), t.x) + fx_mul(self.get(2, 1), t.y) + fx_mul(
            self.get(2, 2),
            t.z,
        ) + fx_mul(self.get(2, 3), t.w);
        let w: i64 = fx_mul(self.get(3, 0), t.x) + fx_mul(self.get(3, 1), t.y) + fx_mul(
            self.get(3, 2),
            t.z,
        ) + fx_mul(self.get(3, 3), t.w);
        Tuple { x, y, z, w }
    }

    /// A transform applied to a point; the fourth component follows the
    /// matrix.
    pub fn times_point(&self, p: &Point) -> (r: Point)
        requires
            self.wf(),
            self.rows == 4,
            self.cols == 4,
            self.entries_bounded(MUL_LIMIT as int),
            tuple_bounded(p.0, MUL_LIMIT as int),
        ensures
            r.0 == spec_apply(*self, p.0),
    {
        Point(self.times_tuple(&p.0))
    }

    /// A transform applied to a vector; the fourth component is cleared,
    /// so translation cannot move a direction.
    pub fn times_vector(&self, v: &Vector) -> (r: Vector)
        requires
            self.wf(),
            self.rows == 4,
            self.cols == 4,
            self.entries_bounded(MUL_LIMIT as int),
            tuple_bounded(v.0, MUL_LIMIT as int),
        ensures
            r.0.x == spec_apply(*self, v.0).x,
            r.0.y == spec_apply(*self, v.0).y,
            r.0.z == spec_apply(*self, v.0).z,
            r.0.w == 0,
    {
        let t = self.times_tuple(&v.0);
        Vector::new(t.x, t.y, t.z)
    }
}

/// Every term of one transformed row is admissible and small.
proof fn lemma_apply_row(m: Matrix, t: Tuple, r: int)
    requires
        m.wf(),
        m.rows == 4,
        m.cols == 4,
        0 <= r < 4,
        m.entries_bounded(MUL_LIMIT as int),
        tuple_bounded(t, MUL_LIMIT as int),
    ensures
        mul_ok(m.val(r, 0), t.x as int),
        mul_ok(m.val(r, 1), t.y as int),
        mul_ok(m.val(r, 2), t.z as int),
        mul_ok(m.val(r, 3), t.w as int),
        -2_250_000_000_000_000_001 <= mul_fx(m.val(r, 0), t.x as int) <= 2_250_000_000_000_000_001,
        -2_250_000_000_000_000_001 <= mul_fx(m.val(r, 1), t.y as int) <= 2_250_000_000_000_000_001,
        -2_250_000_000_000_000_001 <= mul_fx(m.val(r, 2), t.z as int) <= 2_250_000_000_000_000_001,
        -2_250_000_000_000_000_001 <= mul_fx(m.val(r, 3), t.w as int) <= 2_250_000_000_000_000_001,
{
    lemma_mul_term(m.val(r, 0), t.x as int);
    lemma_mul_term(m.val(r, 1), t.y as int);
    lemma_mul_term(m.val(r, 2), t.z as int);
    lemma_mul_term(m.val(r, 3), t.w as int);
}

/// An index with one position cut out: entries before `cut` keep their
/// place, later ones shift up by one.
pub open spec fn skip(i: int, cut: int) -> int {
    if i < cut {
        i
    } else {
        i + 1
    }
}

/// The grid with row `row` and column `col` removed.
pub open spec fn sub_grid(g: Seq<Seq<int>>, row: int, col: int) -> Seq<Seq<int>> {
    Seq::new(
        (g.len() - 1) as nat,
        |r: int| Seq::new((g[0].len() - 1) as nat, |c: int| g[skip(r, row)][skip(c, col)]),
    )
}

/// The determinant of a square grid: the direct formula on two rows,
/// cofactor expansion along the first row above that.
pub open spec fn det_g(g: Seq<Seq<int>>) -> int
    decreases g.len(), 4 + g.len(),
{
    if g.len() == 2 {
        mul_fx(g[0][0], g[1][1]) - mul_fx(g[0][1], g[1][0])
    } else {
        expand_g(g, g.len())
    }
}

/// The first `k` terms of the cofactor expansion along the first row.
pub open spec fn expand_g(g: Seq<Seq<int>>, k: nat) -> int
    decreases g.len(), 3 + k,
{
    if k == 0 {
        0
    } else {
        expand_g(g, (k - 1) as nat) + mul_fx(g[0][k - 1], cof_g(g, 0, k - 1))
    }
}

/// The minor: the determinant of the grid without row `r`, column `c`.
pub open spec fn minor_g(g: Seq<Seq<int>>, r: int, c: int) -> int
    decreases g.len(), 1int,
{
    if g.len() >= 1 {
        det_g(sub_grid(g, r, c))
    } else {
        0
    }
}

/// The cofactor: the minor, negated on odd positions.
pub open spec fn cof_g(g: Seq<Seq<int>>, r: int, c: int) -> int
    decreases g.len(), 2int,
{
    if (r + c) % 2 == 1 {
        -minor_g(g, r, c)
    } else {
        minor_g(g, r, c)
    }
}

/// One entry of the inverse: the transposed cofactor over the
/// determinant.
pub open spec fn inverse_entry(g: Seq<Seq<int>>, i: int, j: int) -> int {
    div_fx(cof_g(g, j, i), det_g(g))
}

/// A magnitude bound on determinants of entry-bounded square grids,
/// by their size.
pub open spec fn det_bound(n: int) -> int {
    if n <= 2 {
        10_000_000_000_000
    } else if n == 3 {
        6_100_000_000_000_000
    } else {
        4_900_000_000_000_000_000
    }
}

impl Matrix {
    /// The matrix without row `row` and column `col`.
    pub fn submatrix(&self, row: usize, col: usize) -> (m: Matrix)
        requires
            self.wf(),
            row < self.rows,
            col < self.cols,
        ensures
            m.wf(),
            m.rows == self.rows - 1,
            m.cols == self.cols - 1,
            forall|r: int, c: int|
                0 <= r < self.rows - 1 && 0 <= c < self.cols - 1 ==> #[trigger] m.val(r, c)
                    == self.val(skip(r, row as int), skip(c, col as int)),
            m.grid() == sub_grid(self.grid(), row as int, col as int),
    {
        proof {
            assert(((self.rows - 1) as int) * ((self.cols - 1) as int) <= (self.rows as int) * (
            self.cols as int)) by (nonlinear_arith)
                requires
                    self.rows >= 1,
                    self.cols >= 1,
            {
            }
        }
        let mut result = Matrix::new(self.rows - 1, self.cols - 1);
        let mut orow: usize = 0;
        while orow < result.rows
            invariant
                self.wf(),
                result.wf(),
                row < self.rows,
                col < self.cols,
                result.rows == self.rows - 1,
                result.cols == self.cols - 1,
                orow <= result.rows,
                forall|r: int, c: int|
                    0 <= r < orow && 0 <= c < result.cols ==> #[trigger] result.val(r, c)
                        == self.val(skip(r, row as int), skip(c, col as int)),
            decreases result.rows - orow,
        {
            let mut ocol: usize = 0;
            while ocol < result.cols
                invariant
                    self.wf(),
                    result.wf(),
                    row < self.rows,
                    col < self.cols,
                    result.rows == self.rows - 1,
                    result.cols == self.cols - 1,
                    orow < result.rows,
                    ocol <= result.cols,
                    forall|r: int, c: int|
                        0 <= r < orow && 0 <= c < result.cols ==> #[trigger] result.val(r, c)
                            == self.val(skip(r, row as int), skip(c, col as int)),
                    forall|c: int|
                        0 <= c < ocol ==> #[trigger] result.val(orow as int, c) == self.val(
                            skip(orow as int, row as int),
                            skip(c, col as int),
                        ),
                decreases result.cols - ocol,
            {
                let sr: usize = if orow < row {
                    orow
                } else {
                    orow + 1
                };
                let sc: usize = if ocol < col {
                    ocol
                } else {
                    ocol + 1
                };
                let v = self.get(sr, sc);
                result.set(orow, ocol, v);
                ocol = ocol + 1;
            }
            orow = orow + 1;
        }
        proof {
            assert(result.grid() =~~= sub_grid(self.grid(), row as int, col as int));
        }
        result
    }

    /// The determinant, by recursive cofactor expansion along the first
    /// row, with the direct formula on two rows.
    pub fn determinant(&self) -> (r: i64)
        requires
            self.wf(),
            self.rows == self.cols,
            2 <= self.rows <= 4,
            self.entries_bounded(MAT_LIMIT as int),
        ensures
            r == det_g(self.grid()),
            -det_bound(self.rows as int) <= r <= det_bound(self.rows as int),
        decreases self.rows, 2int,
    {
        proof {
            lemma_grid_index(*self);
        }
        if self.rows == 2 {
            proof {
                crate::fx::lemma_mul_fx_bound(
                    self.val(0, 0),
                    self.val(1, 1),
                    MAT_LIMIT as int,
                    MAT_LIMIT as int,
                );
                crate::fx::lemma_mul_fx_bound(
                    self.val(0, 1),
                    self.val(1, 0),
                    MAT_LIMIT as int,
                    MAT_LIMIT as int,
                );
            }
            fx_mul(self.get(0, 0), self.get(1, 1)) - fx_mul(self.get(0, 1), self.get(1, 0))
        } else {
            let ghost g = self.grid();
            let mut tally: i64 = 0;
            let mut col: usize = 0;
            while col < self.cols
                invariant
                    self.wf(),
                    self.rows == self.cols,
                    3 <= self.rows <= 4,
                    self.entries_bounded(MAT_LIMIT as int),
                    col <= self.cols,
                    g == self.grid(),
                    tally == expand_g(g, col as nat),
                    -(col as int) * term_cap(self.rows as int) <= tally <= (col as int) * term_cap(
                        self.rows as int,
                    ),
                decreases self.cols - col,
            {
                let c = self.cofactor(0, col);
                proof {
                    lemma_grid_index(*self);
                    lemma_term_cap(self.rows as int);
                    crate::fx::lemma_mul_fx_bound(
                        self.val(0, col as int),
                        c as int,
                        MAT_LIMIT as int,
                        det_bound(self.rows as int - 1),
                    );
                    lemma_cap_step(col as int, term_cap(self.rows as int));
                    assert(-(col as int) * term_cap(self.rows as int) - term_cap(self.rows as int)
                        <= tally + mul_fx(self.val(0, col as int), c as int) <= (col as int)
                        * term_cap(self.rows as int) + term_cap(self.rows as int));
                    assert(((col + 1) as int) * term_cap(self.rows as int) == (col as int)
                        * term_cap(self.rows as int) + term_cap(self.rows as int));
                    let ghost cap = term_cap(self.rows as int);
                    assert(cap == 2_000_000_000_000_001 || cap == 1_220_000_000_000_000_001);
                    assert(0 <= (col as int) * cap <= 3 * cap);
                    assert(4 * cap < i64::MAX);
                    assert(tally + mul_fx(self.val(0, col as int), c as int) <= (col as int) * cap
                        + cap);
                    assert((col as int) * cap + cap <= 4 * cap);
                    assert(i64::MIN <= tally + mul_fx(self.val(0, col as int), c as int)
                        <= i64::MAX);
                }
                tally = tally + fx_mul(self.get(0, col), c);
                col = col + 1;
            }
            proof {
                lemma_term_cap(self.rows as int);
                assert((self.cols as int) * term_cap(self.rows as int) == (self.rows as int)
                    * term_cap(self.rows as int)) by (nonlinear_arith)
                    requires
                        self.cols == self.rows,
                {
                }
            }
            tally
        }
    }

    /// The minor at `row`, `col`: the determinant of the submatrix.
    pub fn minor(&self, row: usize, col: usize) -> (r: i64)
        requires
            self.wf(),
            self.rows == self.cols,
            3 <= self.rows <= 4,
            row < self.rows,
            col < self.cols,
            self.entries_bounded(MAT_LIMIT as int),
        ensures
            r == minor_g(self.grid(), row as int, col as int),
            -det_bound(self.rows as int - 1) <= r <= det_bound(self.rows as int - 1),
        decreases self.rows, 0int,
    {
        let s = self.submatrix(row, col);
        proof {
            assert forall|r2: int, c2: int| 0 <= r2 < s.rows && 0 <= c2 < s.cols implies -(
            MAT_LIMIT as int) <= #[trigger] s.val(r2, c2) <= MAT_LIMIT as int by {
                assert(s.val(r2, c2) == self.val(skip(r2, row as int), skip(c2, col as int)));
            }
        }
        s.determinant()
    }

    /// The cofactor at `row`, `col`: the minor, negated on odd positions.
    pub fn cofactor(&self, row: usize, col: usize) -> (r: i64)
        requires
            self.wf(),
            self.rows == self.cols,
            3 <= self.rows <= 4,
            row < self.rows,
            col < self.cols,
            self.entries_bounded(MAT_LIMIT as int),
        ensures
            r == cof_g(self.grid(), row as int, col as int),
            -det_bound(self.rows as int - 1) <= r <= det_bound(self.rows as int - 1),
        decreases self.rows, 1int,
    {
        let m = self.minor(row, col);
        if (row + col) % 2 == 1 {
            -m
        } else {
            m
        }
    }

    /// Whether the determinant is exactly nonzero.
    pub fn invertible(&self) -> (r: bool)
        requires
            self.wf(),
            self.rows == self.cols,
            2 <= self.rows <= 4,
            self.entries_bounded(MAT_LIMIT as int),
        ensures
            r == (det_g(self.grid()) != 0),
    {
        self.determinant() != 0
    }

    /// The inverse: each cell holds the transposed cofactor over the
    /// determinant. `None` when the determinant is zero, or when an
    /// entry of the inverse cannot be represented as a scalar.
    pub fn inverse(&self) -> (r: Option<Matrix>)
        requires
            self.wf(),
            self.rows == self.cols,
            3 <= self.rows <= 4,
            self.entries_bounded(MAT_LIMIT as int),
        ensures
            det_g(self.grid()) == 0 ==> r is None,
            r matches Some(inv) ==> {
                &&& det_g(self.grid()) != 0
                &&& inv.wf()
                &&& inv.rows == self.rows
                &&& inv.cols == self.cols
                &&& forall|i: int, j: int|
                    0 <= i < self.rows && 0 <= j < self.cols ==> #[trigger] inv.val(i, j)
                        == inverse_entry(self.grid(), i, j)
            },
            r is None && det_g(self.grid()) != 0 ==> exists|i: int, j: int|
                0 <= i < self.rows && 0 <= j < self.cols && !crate::space::fits(
                    #[trigger] inverse_entry(self.grid(), i, j),
                ),
    {
        let det = self.determinant();
        if det == 0 {
            return None;
        }
        let mut result = Matrix::new(self.cols, self.rows);
        proof {
            assert((self.cols as int) * (self.rows as int) == (self.rows as int) * (
            self.cols as int)) by (nonlinear_arith) {}
        }
        let mut row: usize = 0;
        while row < self.rows
            invariant
                self.wf(),
                result.wf(),
                self.rows == self.cols,
                3 <= self.rows <= 4,
                self.entries_bounded(MAT_LIMIT as int),
                result.rows == self.rows,
                result.cols == self.cols,
                row <= self.rows,
                det == det_g(self.grid()),
                det != 0,
                forall|i: int, j: int|
                    0 <= i < self.rows && 0 <= j < row ==> #[trigger] result.val(i, j)
                        == inverse_entry(self.grid(), i, j),
            decreases self.rows - row,
        {
            let mut col: usize = 0;
            while col < self.cols
                invariant
                    self.wf(),
                    result.wf(),
                    self.rows == self.cols,
                    3 <= self.rows <= 4,
                    self.entries_bounded(MAT_LIMIT as int),
                    result.rows == self.rows,
                    result.cols == self.cols,
                    row < self.rows,
                    col <= self.cols,
                    det == det_g(self.grid()),
                    det != 0,
                    forall|i: int, j: int|
                        0 <= i < self.rows && 0 <= j < row ==> #[trigger] result.val(i, j)
                            == inverse_entry(self.grid(), i, j),
                    forall|i: int|
                        0 <= i < col ==> #[trigger] result.val(i, row as int) == inverse_entry(
                            self.grid(),
                            i,
                            row as int,
                        ),
                decreases self.cols - col,
            {
                let c = self.cofactor(row, col);
                let p: i128 = (c as i128) * (SCALE as i128);
                let q: i128 = p.checked_div(det as i128).unwrap();
                proof {
                    assert(q == div_trunc(p as int, det as int));
                }
                if q > (i64::MAX as i128) || q < (i64::MIN as i128) {
                    proof {
                        assert(!crate::space::fits(
                            inverse_entry(self.grid(), col as int, row as int),
                        ));
                    }
                    return None;
                }
                result.set(col, row, q as i64);
                col = col + 1;
            }
            row = row + 1;
        }
        Some(result)
    }
}

/// The entry of a translation by `(x, y, z)`.
pub open spec fn translation_entry(x: int, y: int, z: int, r: int, c: int) -> int {
    if r == c {
        SCALE as int
    } else if c == 3 {
        if r == 0 {
            x
        } else if r == 1 {
            y
        } else {
            z
        }
    } else {
        0
    }
}

/// The entry of a scaling by `(x, y, z)`.
pub open spec fn scaling_entry(x: int, y: int, z: int, r: int, c: int) -> int {
    if r != c {
        0
    } else if r == 0 {
        x
    } else if r == 1 {
        y
    } else if r == 2 {
        z
    } else {
        SCALE as int
    }
}

/// The entry of a shear; each parameter moves one axis in terms of
/// another.
pub open spec fn shearing_entry(
    xy: int,
    xz: int,
    yx: int,
    yz: int,
    zx: int,
    zy: int,
    r: int,
    c: int,
) -> int {
    if r == c {
        SCALE as int
    } else if r == 0 && c == 1 {
        xy
    } else if r == 0 && c == 2 {
        xz
    } else if r == 1 && c == 0 {
        yx
    } else if r == 1 && c == 2 {
        yz
    } else if r == 2 && c == 0 {
        zx
    } else if r == 2 && c == 1 {
        zy
    } else {
        0
    }
}

/// The entry of a rotation about the x axis with cosine `co`, sine `si`.
pub open spec fn rotation_x_entry(co: int, si: int, r: int, c: int) -> int {
    if r == 1 && c == 1 {
        co
    } else if r == 1 && c == 2 {
        -si
    } else if r == 2 && c == 1 {
        si
    } else if r == 2 && c == 2 {
        co
    } else if r == c {
        SCALE as int
    } else {
        0
    }
}

/// The entry of a rotation about the y axis with cosine `co`, sine `si`.
pub open spec fn rotation_y_entry(co: int, si: int, r: int, c: int) -> int {
    if r == 0 && c == 0 {
        co
    } else if r == 0 && c == 2 {
        si
    } else if r == 2 && c == 0 {
        -si
    } else if r == 2 && c == 2 {
        co
    } else if r == c {
        SCALE as int
    } else {
        0
    }
}

/// The entry of a rotation about the z axis with cosine `co`, sine `si`.
pub open spec fn rotation_z_entry(co: int, si: int, r: int, c: int) -> int {
    if r == 0 && c == 0 {
        co
    } else if r == 0 && c == 1 {
        -si
    } else if r == 1 && c == 0 {
        si
    } else if r == 1 && c == 1 {
        co
    } else if r == c {
        SCALE as int
    } else {
        0
    }
}

impl Matrix {
    /// The transform that moves points by `(x, y, z)` and leaves
    /// directions alone.
    pub fn translation(x: i64, y: i64, z: i64) -> (m: Matrix)
        ensures
            m.wf(),
            m.rows == 4,
            m.cols == 4,
            forall|r: int, c: int|
                0 <= r < 4 && 0 <= c < 4 ==> #[trigger] m.val(r, c) == translation_entry(
                    x as int,
                    y as int,
                    z as int,
                    r,
                    c,
                ),
    {
        let mut m = identity_matrix();
        m.set(0, 3, x);
        m.set(1, 3, y);
        m.set(2, 3, z);
        m
    }

    /// The transform that scales each axis by its factor.
    pub fn scaling(x: i64, y: i64, z: i64) -> (m: Matrix)
        ensures
            m.wf(),
            m.rows == 4,
            m.cols == 4,
            forall|r: int, c: int|
                0 <= r < 4 && 0 <= c < 4 ==> #[trigger] m.val(r, c) == scaling_entry(
                    x as int,
                    y as int,
                    z as int,
                    r,
                    c,
                ),
    {
        let mut m = identity_matrix();
        m.set(0, 0, x);
        m.set(1, 1, y);
        m.set(2, 2, z);
        m
    }

    /// The shear that moves each axis in proportion to the others.
    pub fn shearing(xy: i64, xz: i64, yx: i64, yz: i64, zx: i64, zy: i64) -> (m: Matrix)
        ensures
            m.wf(),
            m.rows == 4,
            m.cols == 4,
            forall|r: int, c: int|
                0 <= r < 4 && 0 <= c < 4 ==> #[trigger] m.val(r, c) == shearing_entry(
                    xy as int,
                    xz as int,
                    yx as int,
                    yz as int,
                    zx as int,
                    zy as int,
                    r,
                    c,
                ),
    {
        let mut m = identity_matrix();
        m.set(0, 1, xy);
        m.set(0, 2, xz);
        m.set(1, 0, yx);
        m.set(1, 2, yz);
        m.set(2, 0, zx);
        m.set(2, 1, zy);
        m
    }

    /// The right-handed rotation about the x axis by `radians`.
    pub fn rotation_x(radians: i64) -> (m: Matrix)
        requires
            -(crate::trig::ANGLE_LIMIT as int) <= radians <= crate::trig::ANGLE_LIMIT as int,
        ensures
            m.wf(),
            m.rows == 4,
            m.cols == 4,
            forall|r: int, c: int|
                0 <= r < 4 && 0 <= c < 4 ==> #[trigger] m.val(r, c) == rotation_x_entry(
                    crate::trig::cos_fx(radians as int),
                    crate::trig::sin_fx(radians as int),
                    r,
                    c,
                ),
            m.entries_bounded(1_400_000_000),
    {
        let co = crate::trig::fx_cos(radians);
        let si = crate::trig::fx_sin(radians);
        let mut m = identity_matrix();
        m.set(1, 1, co);
        m.set(1, 2, -si);
        m.set(2, 1, si);
        m.set(2, 2, co);
        m
    }

    /// The right-handed rotation about the y axis by `radians`.
    pub fn rotation_y(radians: i64) -> (m: Matrix)
        requires
            -(crate::trig::ANGLE_LIMIT as int) <= radians <= crate::trig::ANGLE_LIMIT as int,
        ensures
            m.wf(),
            m.rows == 4,
            m.cols == 4,
            forall|r: int, c: int|
                0 <= r < 4 && 0 <= c < 4 ==> #[trigger] m.val(r, c) == rotation_y_entry(
                    crate::trig::cos_fx(radians as int),
                    crate::trig::sin_fx(radians as int),
                    r,
                    c,
                ),
            m.entries_bounded(1_400_000_000),
    {
        let co = crate::trig::fx_cos(radians);
        let si = crate::trig::fx_sin(radians);
        let mut m = identity_matrix();
        m.set(0, 0, co);
        m.set(0, 2, si);
        m.set(2, 0, -si);
        m.set(2, 2, co);
        m
    }

    /// The right-handed rotation about the z axis by `radians`.
    pub fn rotation_z(radians: i64) -> (m: Matrix)
        requires
            -(crate::trig::ANGLE_LIMIT as int) <= radians <= crate::trig::ANGLE_LIMIT as int,
        ensures
            m.wf(),
            m.rows == 4,
            m.cols == 4,
            forall|r: int, c: int|
                0 <= r < 4 && 0 <= c < 4 ==> #[trigger] m.val(r, c) == rotation_z_entry(
                    crate::trig::cos_fx(radians as int),
                    crate::trig::sin_fx(radians as int),
                    r,
                    c,
                ),
            m.entries_bounded(1_400_000_000),
    {
        let co = crate::trig::fx_cos(radians);
        let si = crate::trig::fx_sin(radians);
        let mut m = identity_matrix();
        m.set(0, 0, co);
        m.set(0, 1, -si);
        m.set(1, 0, si);
        m.set(1, 1, co);
        m
    }
}

/// Each cell of the grid is the matrix entry at the same place.
proof fn lemma_grid_index(m: Matrix)
    ensures
        m.grid().len() == m.rows,
        forall|r: int|
            0 <= r < m.rows ==> (#[trigger] m.grid()[r]).len() == m.cols && forall|c: int|
                0 <= c < m.cols ==> #[trigger] m.grid()[r][c] == m.val(r, c),
{
}

/// The magnitude cap on one term of the cofactor expansion, by size.
pub open spec fn term_cap(n: int) -> int {
    if n == 3 {
        2_000_000_000_000_001
    } else {
        1_220_000_000_000_000_001
    }
}

/// One expansion term is capped by `term_cap`, and a full row of terms
/// stays within the determinant bound.
proof fn lemma_term_cap(n: int)
    requires
        3 <= n <= 4,
    ensures
        (MAT_LIMIT as int) * det_bound(n - 1) / (SCALE as int) + 1 == term_cap(n),
        n * term_cap(n) <= det_bound(n),
        term_cap(n) >= 1,
        0 <= (MAT_LIMIT as int) * det_bound(n - 1) <= (i64::MAX as int) * (SCALE as int),
{
    if n == 3 {
        assert((MAT_LIMIT as int) * det_bound(2) == 200_000_000_000_000_000_000_000)
            by (nonlinear_arith) {}
        assert(3 * term_cap(3) == 6_000_000_000_000_003);
    } else {
        assert((MAT_LIMIT as int) * det_bound(3) == 122_000_000_000_000_000_000_000_000)
            by (nonlinear_arith) {}
        assert(4 * term_cap(4) == 4_880_000_000_000_000_004);
    }
}

/// Appending one capped term moves the total to the next multiple.
proof fn lemma_cap_step(col: int, cap: int)
    requires
        0 <= col <= 3,
        cap == 2_000_000_000_000_001 || cap == 1_220_000_000_000_000_001,
    ensures
        (col + 1) * cap == col * cap + cap,
        0 <= col * cap <= 3 * cap,
        4 * cap < i64::MAX,
{
    assert((col + 1) * cap == col * cap + cap) by (nonlinear_arith) {}
    assert(0 <= col * cap <= 3 * cap) by (nonlinear_arith)
        requires
            0 <= col <= 3,
            cap > 0,
    {
    }
}

/// The matrix is the four-by-four identity: one unit down the diagonal.
pub open spec fn is_identity(m: Matrix) -> bool {
    &&& m.wf()
    &&& m.rows == 4
    &&& m.cols == 4
    &&& forall|r: int, c: int|
        0 <= r < 4 && 0 <= c < 4 ==> #[trigger] m.val(r, c) == if r == c {
            SCALE as int
        } else {
            0
        }
}

/// The identity transform: one unit down the diagonal.
pub fn identity_matrix() -> (m: Matrix)
    ensures
        is_identity(m),
        m.entries_bounded(SCALE as int),
{
    let mut m = Matrix::new(4, 4);
    m.set(0, 0, SCALE);
    m.set(1, 1, SCALE);
    m.set(2, 2, SCALE);
    m.set(3, 3, SCALE);
    m
}

/// Transposing twice returns the original matrix: if `t` holds the
/// transpose's entries of `m`, and `tt` the transpose's entries of `t`,
/// then `tt` has `m`'s dimensions and entries.
pub proof fn lemma_transpose_involution(m: Matrix, t: Matrix, tt: Matrix)
    requires
        m.wf(),
        t.rows == m.cols,
        t.cols == m.rows,
        tt.rows == t.cols,
        tt.cols == t.rows,
        forall|r: int, c: int|
            0 <= r < m.cols && 0 <= c < m.rows ==> #[trigger] t.val(r, c) == m.val(c, r),
        forall|r: int, c: int|
            0 <= r < t.cols && 0 <= c < t.rows ==> #[trigger] tt.val(r, c) == t.val(c, r),
    ensures
        tt.rows == m.rows,
        tt.cols == m.cols,
        forall|r: int, c: int|
            0 <= r < m.rows && 0 <= c < m.cols ==> #[trigger] tt.val(r, c) == m.val(r, c),
{
    assert forall|r: int, c: int|
        0 <= r < m.rows && 0 <= c < m.cols implies #[trigger] tt.val(r, c) == m.val(r, c) by {
        assert(tt.val(r, c) == t.val(c, r));
        assert(t.val(c, r) == m.val(r, c));
    }
}

/// A row-major index stays inside the storage.
proof fn lemma_index_in_bounds(row: int, col: int, rows: int, cols: int)
    requires
        0 <= row < rows,
        0 <= col < cols,
    ensures
        0 <= row * cols + col < rows * cols,
{
    assert(0 <= row * cols + col < rows * cols) by (nonlinear_arith)
        requires
            0 <= row < rows,
            0 <= col < cols,
    {
    }
}

/// Distinct cells use distinct storage indices.
proof fn lemma_index_distinct(r1: int, c1: int, r2: int, c2: int, cols: int)
    requires
        0 <= c1 < cols,
        0 <= c2 < cols,
        0 <= r1,
        0 <= r2,
        !(r1 == r2 && c1 == c2),
    ensures
        r1 * cols + c1 != r2 * cols + c2,
{
    assert(r1 * cols + c1 != r2 * cols + c2) by (nonlinear_arith)
        requires
            0 <= c1 < cols,
            0 <= c2 < cols,
            0 <= r1,
            0 <= r2,
            !(r1 == r2 && c1 == c2),
    {
    }
}

} // verus!

