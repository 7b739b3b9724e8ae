//! The matrix type: validated construction, queries, random generation, and
//! the sequential multiplication path.
use crate::error::{construction_fault, incompatible_error, ShapeError};
use crate::model::{
    cell, cols_of, compatible, dec_len, grid, grid_max, is_matrix, lemma_dec_len_below, max_entry,
    pow10, product, row_max, rows_of,
};
use crate::rng;
use vstd::prelude::*;

verus! {

/// A rectangular grid of `i32`, immutable once constructed. Every value of
/// this type is well shaped: at least one row, at least one column, and all
/// rows of equal length.
#[derive(Debug)]
pub struct Matrix {
    data: Vec<Vec<i32>>,
}

impl View for Matrix {
    type V = Seq<Seq<i32>>;

    closed spec fn view(&self) -> Seq<Seq<i32>> {
        grid(self.data@)
    }
}

/// What `==` on matrices means: the two grids are equal.
pub open spec fn spec_eq(a: Matrix, b: Matrix) -> bool {
    a@ == b@
}

impl Matrix {
    /// Every constructed matrix is well shaped.
    #[verifier::type_invariant]
    pub(crate) open spec fn inv(self) -> bool {
        is_matrix(self@)
    }

    /// True when every row of `data` has the length of the first.
    fn verify(data: &Vec<Vec<i32>>) -> (r: bool)
        requires
            data@.len() >= 1,
        ensures
            r == forall|i: int|
                0 <= i < data@.len() ==> (#[trigger] data@[i]@).len() == data@[0]@.len(),
    {
        let first = data[0].len();
        let mut i: usize = 0;
        while i < data.len()
            invariant
                i <= data@.len(),
                data@.len() >= 1,
                first == data@[0]@.len(),
                forall|j: int| 0 <= j < i ==> (#[trigger] data@[j]@).len() == first,
            decreases data@.len() - i,
        {
            if data[i].len() != first {
                return false;
            }
            i += 1;
        }
        true
    }

    /// True when the operands line up for multiplication.
    fn can_multiply(a: &Matrix, b: &Matrix) -> (r: bool)
        ensures
            r == compatible(a@, b@),
    {
        proof {
            use_type_invariant(&*a);
            use_type_invariant(&*b);
        }
        a.data[0].len() == b.data.len()
    }

    /// Builds a matrix after checking the shape: there must be at least one
    /// row and one column, and every row must have the length of the first.
    /// No partial value is ever produced.
    pub fn new(data: Vec<Vec<i32>>) -> (r: Result<Matrix, ShapeError>)
        ensures
            match r {
                Ok(m) => is_matrix(grid(data@)) && m@ == grid(data@),
                Err(e) => !is_matrix(grid(data@)) && e == construction_fault(grid(data@)),
            },
    {
        if data.len() == 0 {
            return Err(ShapeError::Empty);
        }
        if data[0].len() == 0 {
            return Err(ShapeError::Empty);
        }
        if !Self::verify(&data) {
            proof {
                assert(!is_matrix(grid(data@))) by {
                    let i = choose|i: int|
                        !(0 <= i < data@.len() ==> (#[trigger] data@[i]@).len()
                            == data@[0]@.len());
                    assert(grid(data@)[i].len() != grid(data@)[0].len());
                }
            }
            return Err(ShapeError::Ragged);
        }
        Ok(Matrix { data })
    }

    /// The `(rows, cols)` pair: a pure query.
    pub fn size(&self) -> (r: (usize, usize))
        ensures
            r.0 == rows_of(self@),
            r.1 == cols_of(self@),
    {
        proof {
            use_type_invariant(&*self);
        }
        (self.data.len(), self.data[0].len())
    }

    /// The entry at row `g`, column `h`.
    pub fn get(&self, g: usize, h: usize) -> (r: i32)
        requires
            g < rows_of(self@),
            h < cols_of(self@),
        ensures
            r == self@[g as int][h as int],
    {
        proof {
            use_type_invariant(&*self);
            assert(self@[g as int].len() == cols_of(self@));
        }
        self.data[g][h]
    }

    /// Builds an `a x b` matrix of independently drawn values of `0..25`,
    /// passed through the same validation as `new`; a zero dimension is
    /// rejected there as `Empty`.
    pub fn generate(a: usize, b: usize) -> (r: Result<Matrix, ShapeError>)
        ensures
            match r {
                Ok(m) => {
                    &&& a >= 1 && b >= 1
                    &&& is_matrix(m@)
                    &&& rows_of(m@) == a && cols_of(m@) == b
                    &&& forall|g: int, h: int|
                        0 <= g < a && 0 <= h < b ==> 0 <= #[trigger] m@[g][h] < 25
                },
                Err(e) => (a == 0 || b == 0) && e == ShapeError::Empty,
            },
    {
        let mut matrix_data: Vec<Vec<i32>> = Vec::new();
        let mut generator = rng::fresh_rng();
        let mut i: usize = 0;
        while i < a
            invariant
                i <= a,
                matrix_data@.len() == i,
                forall|g: int|
                    0 <= g < i ==> (#[trigger] matrix_data@[g]@).len() == b,
                forall|g: int, h: int|
                    0 <= g < i && 0 <= h < b ==> 0 <= #[trigger] matrix_data@[g]@[h] < 25,
            decreases a - i,
        {
            let mut row: Vec<i32> = Vec::new();
            let mut j: usize = 0;
            while j < b
                invariant
                    j <= b,
                    row@.len() == j,
                    forall|h: int| 0 <= h < j ==> 0 <= #[trigger] row@[h] < 25,
                decreases b - j,
            {
                row.push(rng::draw_in_range(&mut generator, 0, 25));
                j += 1;
            }
            matrix_data.push(row);
            i += 1;
        }
        Matrix::new(matrix_data)
    }

    /// Sequential multiplication: the single-threaded reference path. It
    /// succeeds exactly on compatible operands, and each entry of the result
    /// is the wrapping dot product of a row of `a` with a column of `b`.
    pub fn multiply(a: &Matrix, b: &Matrix) -> (r: Result<Matrix, ShapeError>)
        ensures
            match r {
                Ok(c) => compatible(a@, b@) && is_matrix(c@) && c@ == product(a@, b@),
                Err(e) => !compatible(a@, b@) && e == incompatible_error(a@, b@),
            },
    {
        proof {
            use_type_invariant(&*a);
            use_type_invariant(&*b);
        }
        if !Matrix::can_multiply(a, b) {
            return Err(ShapeError::Incompatible {
                left_rows: a.data.len(),
                left_cols: a.data[0].len(),
                right_rows: b.data.len(),
                right_cols: b.data[0].len(),
            });
        }
        let m = a.data.len();
        let n = b.data.len();
        let p = b.data[0].len();
        let mut new_matrix_data: Vec<Vec<i32>> = Vec::new();
        let mut g: usize = 0;
        while g < m
            invariant
                g <= m,
                is_matrix(a@),
                is_matrix(b@),
                compatible(a@, b@),
                m == rows_of(a@),
                n == rows_of(b@),
                p == cols_of(b@),
                a.data@.len() == m,
                b.data@.len() == n,
                new_matrix_data@.len() == g,
                forall|gi: int|
                    0 <= gi < g ==> (#[trigger] new_matrix_data@[gi]@) == product(a@, b@)[gi],
            decreases m - g,
        {
            let mut row: Vec<i32> = Vec::new();
            let mut h: usize = 0;
            while h < p
                invariant
                    h <= p,
                    g < m,
                    is_matrix(a@),
                    is_matrix(b@),
                    compatible(a@, b@),
                    m == rows_of(a@),
                    n == rows_of(b@),
                    p == cols_of(b@),
                    a.data@.len() == m,
                    b.data@.len() == n,
                    row@.len() == h,
                    forall|hi: int|
                        0 <= hi < h ==> #[trigger] row@[hi] == cell(a@, b@, g as int, hi, n as int),
                decreases p - h,
            {
                let mut sum: i32 = 0;
                let mut k: usize = 0;
                while k < n
                    invariant
                        k <= n,
                        g < m,
                        h < p,
                        is_matrix(a@),
                        is_matrix(b@),
                        compatible(a@, b@),
                        m == rows_of(a@),
                        n == rows_of(b@),
                        p == cols_of(b@),
                        a.data@.len() == m,
                        b.data@.len() == n,
                        sum == cell(a@, b@, g as int, h as int, k as int),
                    decreases n - k,
                {
                    proof {
                        assert(a@[g as int].len() == cols_of(a@));
                        assert(b@[k as int].len() == cols_of(b@));
                    }
                    sum = sum.wrapping_add(a.data[g][k].wrapping_mul(b.data[k][h]));
                    k += 1;
                }
                row.push(sum);
                h += 1;
            }
            proof {
                assert(row@ =~= product(a@, b@)[g as int]);
            }
            new_matrix_data.push(row);
            g += 1;
        }
        proof {
            assert(grid(new_matrix_data@) =~~= product(a@, b@));
        }
        Ok(Matrix { data: new_matrix_data })
    }

    /// The printed width of the largest entry of the whole matrix: the
    /// column width that a grid rendering pads every entry to. The scan for
    /// the largest entry starts from zero, so a matrix of negative entries
    /// reports width one.
    pub fn max_string_len(&self) -> (r: usize)
        ensures
            r == dec_len(max_entry(self@)),
    {
        proof {
            use_type_invariant(&*self);
        }
        let (m, p) = self.size();
        let mut max: i32 = 0;
        let mut g: usize = 0;
        while g < m
            invariant
                g <= m,
                is_matrix(self@),
                m == rows_of(self@),
                p == cols_of(self@),
                0 <= max,
                max == grid_max(0, self@, g as int),
            decreases m - g,
        {
            let mut h: usize = 0;
            while h < p
                invariant
                    h <= p,
                    g < m,
                    is_matrix(self@),
                    m == rows_of(self@),
                    p == cols_of(self@),
                    0 <= max,
                    max == row_max(grid_max(0, self@, g as int), self@[g as int], h as int),
                decreases p - h,
            {
                let v = self.get(g, h);
                if v > max {
                    max = v;
                }
                h += 1;
            }
            proof {
                assert(self@[g as int].len() == p);
            }
            g += 1;
        }
        proof {
            assert(max == max_entry(self@));
            assert(pow10(10) == 10000000000) by {
                reveal_with_fuel(pow10, 11);
            }
            lemma_dec_len_below(max as int, 10);
        }
        let mut width: usize = 1;
        let mut v: i32 = max;
        while v >= 10
            invariant
                0 <= v,
                1 <= width,
                width - 1 + dec_len(v as int) == dec_len(max_entry(self@)),
                dec_len(max_entry(self@)) <= 10,
            decreases v,
        {
            v = v / 10;
            width += 1;
        }
        width
    }
}

/// A deep copy that holds the same grid.
impl Clone for Matrix {
    fn clone(&self) -> (r: Self)
        ensures
            spec_eq(*self, r),
    {
        proof {
            use_type_invariant(&*self);
        }
        let (m, p) = self.size();
        let mut data: Vec<Vec<i32>> = Vec::new();
        let mut g: usize = 0;
        while g < m
            invariant
                g <= m,
                is_matrix(self@),
                m == rows_of(self@),
                p == cols_of(self@),
                data@.len() == g,
                forall|gi: int| 0 <= gi < g ==> (#[trigger] data@[gi]@) == self@[gi],
            decreases m - g,
        {
            let mut row: Vec<i32> = Vec::new();
            let mut h: usize = 0;
            while h < p
                invariant
                    h <= p,
                    g < m,
                    is_matrix(self@),
                    m == rows_of(self@),
                    p == cols_of(self@),
                    row@.len() == h,
                    forall|hi: int| 0 <= hi < h ==> #[trigger] row@[hi] == self@[g as int][hi],
                decreases p - h,
            {
                row.push(self.get(g, h));
                h += 1;
            }
            proof {
                assert(row@ =~= self@[g as int]);
            }
            data.push(row);
            g += 1;
        }
        proof {
            assert(grid(data@) =~~= self@);
        }
        Matrix { data }
    }
}

/// Structural comparison: equal exactly when the shapes agree and every
/// entry matches.
impl PartialEq for Matrix {
    fn eq(&self, other: &Self) -> (r: bool) {
        proof {
            use_type_invariant(&*self);
            use_type_invariant(&*other);
        }
        let (m, p) = self.size();
        let (om, op) = other.size();
        if m != om || p != op {
            proof {
                if self@ == other@ {
                    assert(self@[0] == other@[0]);
                }
            }
            return false;
        }
        let mut g: usize = 0;
        while g < m
            invariant
                g <= m,
                is_matrix(self@),
                is_matrix(other@),
                m == rows_of(self@),
                p == cols_of(self@),
                m == rows_of(other@),
                p == cols_of(other@),
                forall|gi: int| 0 <= gi < g ==> #[trigger] self@[gi] == other@[gi],
            decreases m - g,
        {
            let mut h: usize = 0;
            while h < p
                invariant
                    h <= p,
                    g < m,
                    is_matrix(self@),
                    is_matrix(other@),
                    m == rows_of(self@),
                    p == cols_of(self@),
                    m == rows_of(other@),
                    p == cols_of(other@),
                    forall|hi: int|
                        0 <= hi < h ==> #[trigger] self@[g as int][hi] == other@[g as int][hi],
                decreases p - h,
            {
                if self.get(g, h) != other.get(g, h) {
                    proof {
                        if self@ == other@ {
                            assert(self@[g as int] == other@[g as int]);
                        }
                    }
                    return false;
                }
                h += 1;
            }
            proof {
                assert(self@[g as int] =~= other@[g as int]);
            }
            g += 1;
        }
        proof {
            assert(self@ =~~= other@);
        }
        true
    }
}

impl vstd::std_specs::cmp::PartialEqSpecImpl for Matrix {
    open spec fn obeys_eq_spec() -> bool {
        true
    }

    open spec fn eq_spec(&self, other: &Self) -> bool {
        spec_eq(*self, *other)
    }
}

} // verus!
