//! Mathematical model of rectangular `i32` matrices and of their product.
use vstd::prelude::*;
use vstd::wrapping::i32_specs;

verus! {

/// A well-shaped matrix: at least one row, at least one column, and every
/// row of the same length as the first.
pub open spec fn is_matrix(m: Seq<Seq<i32>>) -> bool {
    &&& m.len() >= 1
    &&& m[0].len() >= 1
    &&& forall|i: int| 0 <= i < m.len() ==> (#[trigger] m[i]).len() == m[0].len()
}

/// Row count of a matrix.
pub open spec fn rows_of(m: Seq<Seq<i32>>) -> nat {
    m.len()
}

/// Column count of a matrix: the length of its first row.
pub open spec fn cols_of(m: Seq<Seq<i32>>) -> nat {
    m[0].len()
}

/// Operands line up for multiplication when the left column count equals the
/// right row count.
pub open spec fn compatible(a: Seq<Seq<i32>>, b: Seq<Seq<i32>>) -> bool {
    cols_of(a) == rows_of(b)
}

/// Dot product of row `g` of `a` with column `h` of `b` over the first `n`
/// terms, in the two's-complement wrapping arithmetic of `i32`.
pub open spec fn cell(a: Seq<Seq<i32>>, b: Seq<Seq<i32>>, g: int, h: int, n: int) -> i32
    decreases n,
{
    if n <= 0 {
        0i32
    } else {
        i32_specs::wrapping_add(
            cell(a, b, g, h, n - 1),
            i32_specs::wrapping_mul(a[g][n - 1], b[n - 1][h]),
        )
    }
}

/// The matrix product: a `rows_of(a) x cols_of(b)` grid whose `(g, h)` entry
/// is the full dot product of row `g` of `a` with column `h` of `b`.
pub open spec fn product(a: Seq<Seq<i32>>, b: Seq<Seq<i32>>) -> Seq<Seq<i32>> {
    Seq::new(
        rows_of(a),
        |g: int| Seq::new(cols_of(b), |h: int| cell(a, b, g, h, rows_of(b) as int)),
    )
}

/// The abstract grid that a vector of row vectors holds.
pub open spec fn grid(data: Seq<Vec<i32>>) -> Seq<Seq<i32>> {
    Seq::new(data.len(), |i: int| data[i]@)
}

/// The larger of `acc` and the first `n` entries of row `r`.
pub open spec fn row_max(acc: int, r: Seq<i32>, n: int) -> int
    decreases n,
{
    if n <= 0 {
        acc
    } else if r[n - 1] > row_max(acc, r, n - 1) {
        r[n - 1] as int
    } else {
        row_max(acc, r, n - 1)
    }
}

/// The larger of `acc` and every entry of the first `n` rows of `m`.
pub open spec fn grid_max(acc: int, m: Seq<Seq<i32>>, n: int) -> int
    decreases n,
{
    if n <= 0 {
        acc
    } else {
        row_max(grid_max(acc, m, n - 1), m[n - 1], m[n - 1].len() as int)
    }
}

/// The largest entry of the whole matrix, or `0` where no entry exceeds it:
/// the scan that the rendering width rests on starts from zero.
pub open spec fn max_entry(m: Seq<Seq<i32>>) -> int {
    grid_max(0, m, m.len() as int)
}

/// The number of decimal digits of a non-negative number.
pub open spec fn dec_len(n: int) -> nat
    decreases n,
{
    if n < 10 {
        1
    } else {
        (1 + dec_len(n / 10)) as nat
    }
}

/// Ten to the `d`.
pub open spec fn pow10(d: nat) -> int
    decreases d,
{
    if d == 0 {
        1
    } else {
        10 * pow10((d - 1) as nat)
    }
}

pub proof fn lemma_pow10_pos(d: nat)
    ensures
        pow10(d) >= 1,
    decreases d,
{
    if d > 0 {
        lemma_pow10_pos((d - 1) as nat);
    }
}

/// A number below ten to the `d` has at most `d` decimal digits.
pub proof fn lemma_dec_len_below(n: int, d: nat)
    requires
        0 <= n,
        1 <= d,
        n < pow10(d),
    ensures
        dec_len(n) <= d,
    decreases d,
{
    if n >= 10 {
        lemma_pow10_pos((d - 1) as nat);
        assert(n / 10 < pow10((d - 1) as nat)) by (nonlinear_arith)
            requires
                n < 10 * pow10((d - 1) as nat),
                n >= 0,
                pow10((d - 1) as nat) >= 1,
        ;
        if d == 1 {
            assert(false);
        }
        lemma_dec_len_below(n / 10, (d - 1) as nat);
    }
}

} // verus!
