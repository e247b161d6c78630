//! Host-resident matrices and their mathematical model.
//!
//! A [`Matrix`] stores a 2-D array in row-major order as a flat vector of
//! 32-bit element words (the bit patterns of the caller's single-precision
//! elements; the orchestration layer never interprets them numerically).
//! Its model, [`MatModel`], is the shape together with the row-major element
//! sequence; every contract in the crate speaks in terms of it.

use vstd::arithmetic::div_mod::lemma_div_pos_is_pos;
use vstd::arithmetic::div_mod::lemma_fundamental_div_mod;
use vstd::arithmetic::div_mod::lemma_fundamental_div_mod_converse;
use vstd::arithmetic::div_mod::lemma_mod_division_less_than_divisor;
use vstd::prelude::*;

use crate::error::OpError;

verus! {

/// Mathematical model of a host matrix: its dimensions and the row-major
/// sequence of element words.
#[verifier::ext_equal]
pub ghost struct MatModel {
    pub rows: nat,
    pub cols: nat,
    pub data: Seq<u32>,
}

impl MatModel {
    /// The flat data holds exactly one word per grid position.
    pub open spec fn wf(self) -> bool {
        self.data.len() == self.rows * self.cols
    }

    /// Element at row `i`, column `j` of the row-major layout.
    pub open spec fn at(self, i: int, j: int) -> u32 {
        self.data[i * self.cols + j]
    }

    /// The transposed model: a `cols x rows` grid whose element at
    /// `(j, i)` is this grid's element at `(i, j)`.
    pub open spec fn transpose(self) -> MatModel {
        MatModel {
            rows: self.cols,
            cols: self.rows,
            data: Seq::new(
                self.data.len(),
                |p: int| self.data[(p % self.rows as int) * self.cols + p / self.rows as int],
            ),
        }
    }
}

/// A host-resident 2-D array in row-major order.
#[derive(Clone, Debug)]
pub struct Matrix {
    pub rows: usize,
    pub cols: usize,
    pub data: Vec<u32>,
}

impl View for Matrix {
    type V = MatModel;

    open spec fn view(&self) -> MatModel {
        MatModel { rows: self.rows as nat, cols: self.cols as nat, data: self.data@ }
    }
}

impl Matrix {
    pub open spec fn wf(self) -> bool {
        self@.wf()
    }

    /// Reinterprets a flat row-major vector as a `rows x cols` matrix.
    /// Rejects a vector whose length is not exactly `rows * cols`.
    pub fn from_flat(rows: usize, cols: usize, data: Vec<u32>) -> (r: Result<Matrix, OpError>)
        ensures
            match r {
                Ok(m) => {
                    &&& rows * cols == data.len()
                    &&& m@ == (MatModel { rows: rows as nat, cols: cols as nat, data: data@ })
                    &&& m.wf()
                },
                Err(e) => {
                    &&& rows * cols != data.len()
                    &&& e == (OpError::ReshapeMismatch { rows, cols, len: data.len() })
                },
            },
    {
        match rows.checked_mul(cols) {
            Some(p) if p == data.len() => Ok(Matrix { rows, cols, data }),
            _ => Err(OpError::ReshapeMismatch { rows, cols, len: data.len() }),
        }
    }

    /// Element at row `i`, column `j`.
    pub fn get(&self, i: usize, j: usize) -> (r: u32)
        requires
            self.wf(),
            i < self.rows,
            j < self.cols,
        ensures
            r == self@.at(i as int, j as int),
    {
        let n: usize = self.data.len();
        proof {
            lemma_grid_index_in_range(
                self.rows as int,
                self.cols as int,
                i as int,
                j as int,
            );
            assert(self.data@.len() == self.rows * self.cols);
            assert(i * self.cols + j < n);
        }
        self.data[i * self.cols + j]
    }
}

/// A row-major position derived from in-range coordinates stays inside the
/// grid.
proof fn lemma_grid_index_in_range(rows: int, cols: int, i: int, j: int)
    by (nonlinear_arith)
    requires
        0 <= i < rows,
        0 <= j < cols,
    ensures
        0 <= i * cols + j < rows * cols,
{
}

/// A flat position of a `rows x cols` grid decomposes into the row `p / cols`
/// and the column `p % cols` it came from.
proof fn lemma_flat_coords(rows: int, cols: int, p: int)
    requires
        1 <= rows,
        1 <= cols,
        0 <= p < rows * cols,
    ensures
        0 <= p % cols < cols,
        0 <= p / cols < rows,
        p == (p / cols) * cols + p % cols,
{
    lemma_fundamental_div_mod(p, cols);
    lemma_mod_division_less_than_divisor(p, cols);
    lemma_div_pos_is_pos(p, cols);
    let i = p / cols;
    let j = p % cols;
    assert(i < rows && p == i * cols + j) by (nonlinear_arith)
        requires
            1 <= cols,
            0 <= p < rows * cols,
            p == cols * i + j,
            0 <= j < cols,
    ;
}

impl Matrix {
    /// Host-side transpose by pure element permutation: the semantics the
    /// device-side transpose kernel is held to.
    pub fn transpose(&self) -> (r: Matrix)
        requires
            self.wf(),
        ensures
            r@ == self@.transpose(),
            r.wf(),
    {
        let rows = self.rows;
        let cols = self.cols;
        let n: usize = self.data.len();
        let mut out: Vec<u32> = Vec::new();
        let mut j: usize = 0;
        while j < cols
            invariant
                j <= cols,
                rows == self.rows,
                cols == self.cols,
                n == self.data@.len(),
                self.wf(),
                out@.len() == j * rows,
                forall|p: int| 0 <= p < out@.len()
                    ==> out@[p] == self.data@[(p % rows as int) * cols + p / rows as int],
            decreases cols - j,
        {
            let mut i: usize = 0;
            while i < rows
                invariant
                    i <= rows,
                    j < cols,
                    rows == self.rows,
                    cols == self.cols,
                    n == self.data@.len(),
                    self.wf(),
                    out@.len() == j * rows + i,
                    forall|p: int| 0 <= p < out@.len()
                        ==> out@[p] == self.data@[(p % rows as int) * cols + p / rows as int],
                decreases rows - i,
            {
                proof {
                    lemma_grid_index_in_range(rows as int, cols as int, i as int, j as int);
                    assert(self.data@.len() == rows * cols);
                    assert(i * cols + j < n);
                }
                let v = self.data[i * cols + j];
                proof {
                    // the push below lands at flat position j * rows + i
                    lemma_fundamental_div_mod_converse(
                        j * rows + i,
                        rows as int,
                        j as int,
                        i as int,
                    );
                }
                out.push(v);
                i = i + 1;
            }
            proof {
                assert((j + 1) * (rows as int) == j * (rows as int) + rows) by (nonlinear_arith);
            }
            j = j + 1;
        }
        let m = Matrix { rows: cols, cols: rows, data: out };
        proof {
            assert(m.data@.len() == cols * rows);
            assert(self@.transpose().data.len() == rows * cols);
            assert(cols * rows == rows * cols) by (nonlinear_arith);
            assert(m.data@ =~= self@.transpose().data);
            assert(m@ =~= self@.transpose());
        }
        m
    }
}

/// The transposed model reads, at row `j` and column `i`, exactly the word
/// the original holds at row `i` and column `j`.
pub proof fn lemma_transpose_at(m: MatModel, i: int, j: int)
    requires
        m.wf(),
        0 <= i < m.rows,
        0 <= j < m.cols,
    ensures
        m.transpose().at(j, i) == m.at(i, j),
{
    let rows = m.rows as int;
    let cols = m.cols as int;
    let p = j * rows + i;
    lemma_grid_index_in_range(cols, rows, j, i);
    lemma_fundamental_div_mod_converse(p, rows, j, i);
    assert(m.transpose().at(j, i) == m.transpose().data[p]);
}

/// Transposing a well-formed matrix model twice gives back the original
/// model: the transpose operation is an involution.
pub proof fn lemma_transpose_involution(m: MatModel)
    requires
        m.wf(),
    ensures
        m.transpose().transpose() == m,
{
    let rows = m.rows as int;
    let cols = m.cols as int;
    let t = m.transpose();
    let tt = t.transpose();
    assert(cols * rows == rows * cols) by (nonlinear_arith);
    assert forall|p: int| 0 <= p < tt.data.len() implies tt.data[p] == m.data[p] by {
        assert(0 < rows * cols);
        assert(1 <= rows && 1 <= cols) by (nonlinear_arith)
            requires
                0 <= rows,
                0 <= cols,
                0 < rows * cols,
        ;
        // coordinates of p in the original rows x cols grid
        lemma_flat_coords(rows, cols, p);
        let i = p / cols;
        let j = p % cols;
        // the word at p of the double transpose is read from position
        // q = j * rows + i of the single transpose
        let q = j * rows + i;
        lemma_grid_index_in_range(cols, rows, j, i);
        lemma_fundamental_div_mod_converse(q, rows, j, i);
        assert(tt.data[p] == t.data[q]);
        assert(t.data[q] == m.data[i * cols + j]);
    }
    assert(tt.data =~= m.data);
    assert(tt =~= m);
}

} // verus!
