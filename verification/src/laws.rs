//! General laws of the library, stated and proved once for all matrices.
use crate::matrix::{spec_eq, Matrix};
use crate::model::{cols_of, is_matrix, product, rows_of};
use vstd::prelude::*;

verus! {

/// The product of an `m x n` and an `n x p` matrix is a well-shaped
/// `m x p` matrix.
pub proof fn lemma_product_shape(a: Seq<Seq<i32>>, b: Seq<Seq<i32>>)
    requires
        is_matrix(a),
        is_matrix(b),
    ensures
        is_matrix(product(a, b)),
        rows_of(product(a, b)) == rows_of(a),
        cols_of(product(a, b)) == cols_of(b),
{
}

/// The product of two given operands is one matrix: any two results that
/// meet the multiplication contract on the same operands are
/// element-identical. The sequential and the parallel path therefore agree,
/// and either path, run any number of times on the same inputs, returns the
/// same matrix regardless of thread interleaving.
pub proof fn lemma_product_unique(a: Matrix, b: Matrix, c1: Matrix, c2: Matrix)
    requires
        c1@ == product(a@, b@),
        c2@ == product(a@, b@),
    ensures
        spec_eq(c1, c2),
{
}

/// Matrix equality is reflexive.
pub proof fn lemma_eq_reflexive(a: Matrix)
    ensures
        spec_eq(a, a),
{
}

/// Matrix equality is symmetric.
pub proof fn lemma_eq_symmetric(a: Matrix, b: Matrix)
    ensures
        spec_eq(a, b) == spec_eq(b, a),
{
}

/// Matrix equality is shape-sensitive: equal matrices have the same row and
/// column counts, so matrices of different shapes are never equal, whatever
/// their entries.
pub proof fn lemma_eq_same_shape(a: Matrix, b: Matrix)
    requires
        spec_eq(a, b),
    ensures
        rows_of(a@) == rows_of(b@),
        cols_of(a@) == cols_of(b@),
{
    assert(a@[0] == b@[0]);
}

} // verus!
