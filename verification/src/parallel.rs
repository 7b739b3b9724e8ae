//! Parallel multiplication: one worker thread per output column, joined by
//! the coordinator before the result is assembled and validated.
use crate::error::{incompatible_error, ConcurrencyError, MatrixError, ShapeError};
use crate::matrix::Matrix;
use crate::model::{cell, cols_of, compatible, grid, is_matrix, product, rows_of};
use std::sync::Arc;
use vstd::prelude::*;
use vstd::*;

verus! {

/// Relies on std's `Arc::clone`: a new handle to the same shared value.
#[verifier::external_body]
fn arc_clone<T>(a: &Arc<T>) -> (r: Arc<T>)
    ensures
        r == *a,
{
    Arc::clone(a)
}

/// One worker's unit of work: column `h` of the product of `a` and `b`,
/// computed top row downward. The operands are only read.
fn column(a: &Matrix, b: &Matrix, h: usize) -> (col: Vec<i32>)
    requires
        compatible(a@, b@),
        h < cols_of(b@),
    ensures
        col@.len() == rows_of(a@),
        forall|g: int|
            0 <= g < rows_of(a@) ==> #[trigger] col@[g] == cell(
                a@,
                b@,
                g,
                h as int,
                rows_of(b@) as int,
            ),
{
    let (m, _) = a.size();
    let (n, _) = b.size();
    let mut col: Vec<i32> = Vec::new();
    let mut g: usize = 0;
    while g < m
        invariant
            g <= m,
            m == rows_of(a@),
            n == rows_of(b@),
            compatible(a@, b@),
            h < cols_of(b@),
            col@.len() == g,
            forall|gi: int|
                0 <= gi < g ==> #[trigger] col@[gi] == cell(a@, b@, gi, h as int, n as int),
        decreases m - g,
    {
        let mut sum: i32 = 0;
        let mut k: usize = 0;
        while k < n
            invariant
                k <= n,
                g < m,
                m == rows_of(a@),
                n == rows_of(b@),
                compatible(a@, b@),
                h < cols_of(b@),
                sum == cell(a@, b@, g as int, h as int, k as int),
            decreases n - k,
        {
            sum = sum.wrapping_add(a.get(g, k).wrapping_mul(b.get(k, h)));
            k += 1;
        }
        col.push(sum);
        g += 1;
    }
    col
}

impl Matrix {
    /// Parallel multiplication. Compatibility is checked before any thread
    /// starts; then one worker per output column computes its column of the
    /// product, the coordinator joins every worker, and the collected
    /// columns are assembled and passed through the same validation as
    /// `new`. A worker that ends without handing back its column surfaces as
    /// a `Concurrency` failure after all workers have been joined; partial
    /// results are never returned.
    pub fn multiple_threads_multiply(a: Matrix, b: Matrix) -> (r: Result<Matrix, MatrixError>)
        ensures
            match r {
                Ok(c) => compatible(a@, b@) && is_matrix(c@) && c@ == product(a@, b@),
                Err(MatrixError::Shape(e)) => !compatible(a@, b@) && e == incompatible_error(
                    a@,
                    b@,
                ),
                Err(MatrixError::Concurrency(e)) => compatible(a@, b@) && e
                    == ConcurrencyError::Worker,
            },
    {
        let (a_rows, a_cols) = a.size();
        let (b_rows, b_cols) = b.size();
        if a_cols != b_rows {
            return Err(
                MatrixError::Shape(
                    ShapeError::Incompatible {
                        left_rows: a_rows,
                        left_cols: a_cols,
                        right_rows: b_rows,
                        right_cols: b_cols,
                    },
                ),
            );
        }
        let m = a_rows;
        let n = b_rows;
        let p = b_cols;
        let ghost aseq = a@;
        let ghost bseq = b@;
        proof {
            use_type_invariant(&a);
            use_type_invariant(&b);
        }
        let a_shared = Arc::new(a);
        let b_shared = Arc::new(b);

        let mut handles: Vec<thread::JoinHandle<Vec<i32>>> = Vec::new();
        let mut h: usize = 0;
        while h < p
            invariant
                h <= p,
                m == rows_of(aseq),
                n == rows_of(bseq),
                p == cols_of(bseq),
                compatible(aseq, bseq),
                (*a_shared)@ == aseq,
                (*b_shared)@ == bseq,
                handles@.len() == h,
                forall|j: int, col: Vec<i32>|
                    0 <= j < h ==> #[trigger] handles@[j].predicate(col) ==> col@.len() == m
                        && forall|g: int|
                        0 <= g < m ==> #[trigger] col@[g] == cell(aseq, bseq, g, j, n as int),
            decreases p - h,
        {
            let a_worker = arc_clone(&a_shared);
            let b_worker = arc_clone(&b_shared);
            let handle = thread::spawn(
                (move || -> (col: Vec<i32>)
                    ensures
                        col@.len() == rows_of(aseq),
                        forall|g: int|
                            0 <= g < rows_of(aseq) ==> #[trigger] col@[g] == cell(
                                aseq,
                                bseq,
                                g,
                                h as int,
                                rows_of(bseq) as int,
                            ),
                    {
                        column(&*a_worker, &*b_worker, h)
                    }),
            );
            handles.push(handle);
            h += 1;
        }

        // Join every dispatched worker before reporting anything; remember
        // whether any of them failed.
        let mut cols: Vec<Vec<i32>> = Vec::new();
        let mut failed = false;
        let mut joined: usize = 0;
        while joined < p
            invariant
                joined <= p,
                m == rows_of(aseq),
                n == rows_of(bseq),
                p == cols_of(bseq),
                compatible(aseq, bseq),
                handles@.len() == p - joined,
                forall|j: int, col: Vec<i32>|
                    0 <= j < p - joined ==> #[trigger] handles@[j].predicate(col) ==> col@.len()
                        == m && forall|g: int|
                        0 <= g < m ==> #[trigger] col@[g] == cell(
                            aseq,
                            bseq,
                            g,
                            j + joined,
                            n as int,
                        ),
                !failed ==> cols@.len() == joined,
                !failed ==> forall|j: int|
                    0 <= j < joined ==> (#[trigger] cols@[j]@).len() == m && forall|g: int|
                        0 <= g < m ==> #[trigger] cols@[j]@[g] == cell(aseq, bseq, g, j, n as int),
            decreases p - joined,
        {
            let handle = handles.remove(0);
            match handle.join() {
                Ok(col) => {
                    if !failed {
                        cols.push(col);
                    }
                },
                Err(_) => {
                    failed = true;
                },
            }
            joined += 1;
        }
        if failed {
            return Err(MatrixError::Concurrency(ConcurrencyError::Worker));
        }

        // Assemble the rows of the result from the collected columns.
        let mut new_matrix_data: Vec<Vec<i32>> = Vec::new();
        let mut g: usize = 0;
        while g < m
            invariant
                g <= m,
                m == rows_of(aseq),
                n == rows_of(bseq),
                p == cols_of(bseq),
                compatible(aseq, bseq),
                cols@.len() == p,
                forall|j: int|
                    0 <= j < p ==> (#[trigger] cols@[j]@).len() == m && forall|gi: int|
                        0 <= gi < m ==> #[trigger] cols@[j]@[gi] == cell(aseq, bseq, gi, j, n as int),
                new_matrix_data@.len() == g,
                forall|gi: int|
                    0 <= gi < g ==> (#[trigger] new_matrix_data@[gi]@) == product(aseq, bseq)[gi],
            decreases m - g,
        {
            let mut row: Vec<i32> = Vec::new();
            let mut hh: usize = 0;
            while hh < p
                invariant
                    hh <= p,
                    g < m,
                    m == rows_of(aseq),
                    n == rows_of(bseq),
                    p == cols_of(bseq),
                    compatible(aseq, bseq),
                    cols@.len() == p,
                    forall|j: int|
                        0 <= j < p ==> (#[trigger] cols@[j]@).len() == m && forall|gi: int|
                            0 <= gi < m ==> #[trigger] cols@[j]@[gi] == cell(
                                aseq,
                                bseq,
                                gi,
                                j,
                                n as int,
                            ),
                    row@.len() == hh,
                    forall|hi: int|
                        0 <= hi < hh ==> #[trigger] row@[hi] == cell(aseq, bseq, g as int, hi, n as int),
                decreases p - hh,
            {
                row.push(cols[hh][g]);
                hh += 1;
            }
            proof {
                assert(row@ =~= product(aseq, bseq)[g as int]);
            }
            new_matrix_data.push(row);
            g += 1;
        }

        proof {
            assert(forall|gi: int|
                0 <= gi < m ==> (#[trigger] grid(new_matrix_data@)[gi]).len() == cols_of(bseq));
            assert(is_matrix(grid(new_matrix_data@)));
        }
        match Matrix::new(new_matrix_data) {
            Ok(c) => {
                proof {
                    assert(c@ =~~= product(aseq, bseq));
                }
                Ok(c)
            },
            Err(_) => {
                // Unreachable: the assembled grid is rectangular with at
                // least one row and one column.
                proof {
                    assert(false);
                }
                Err(MatrixError::Concurrency(ConcurrencyError::Worker))
            },
        }
    }
}

} // verus!
