//! Typed failures: malformed shapes and synchronization faults, kept distinct
//! so a caller can tell bad input from an execution fault.
use vstd::prelude::*;

verus! {

/// Malformed or incompatible matrix dimensions. Always detected before any
/// computation begins, and always recoverable.
#[derive(Clone, Copy, PartialEq, Eq, Structural, Debug)]
pub enum ShapeError {
    /// Construction was handed no rows, or an empty first row.
    Empty,
    /// Construction was handed rows of unequal length.
    Ragged,
    /// Multiplication operands whose shapes do not line up; carries the
    /// rows and columns of the left and of the right operand.
    Incompatible { left_rows: usize, left_cols: usize, right_rows: usize, right_cols: usize },
}

/// A synchronization fault during parallel multiplication.
#[derive(Clone, Copy, PartialEq, Eq, Structural, Debug)]
pub enum ConcurrencyError {
    /// A worker thread ended without handing back its column.
    Worker,
}

/// Either failure of the parallel multiplication path.
#[derive(Clone, Copy, PartialEq, Eq, Structural, Debug)]
pub enum MatrixError {
    /// The operands themselves were malformed or incompatible.
    Shape(ShapeError),
    /// The operands were fine but a worker failed.
    Concurrency(ConcurrencyError),
}

impl ShapeError {
    /// The wording of each shape failure.
    pub open spec fn message_spec(self) -> Seq<char> {
        match self {
            ShapeError::Empty => "matrix needs at least one row and one column"@,
            ShapeError::Ragged => "row length mismatch"@,
            ShapeError::Incompatible { .. } => "incompatible shapes for multiplication"@,
        }
    }

    /// A human-readable account of the failure; the `Incompatible` variant
    /// additionally carries both operand shapes as fields.
    pub fn message(&self) -> (r: &'static str)
        ensures
            r@ == self.message_spec(),
    {
        match self {
            ShapeError::Empty => "matrix needs at least one row and one column",
            ShapeError::Ragged => "row length mismatch",
            ShapeError::Incompatible { .. } => "incompatible shapes for multiplication",
        }
    }
}

impl ConcurrencyError {
    /// The wording of each synchronization failure.
    pub open spec fn message_spec(self) -> Seq<char> {
        match self {
            ConcurrencyError::Worker => "worker thread failed"@,
        }
    }

    /// A human-readable account of the failure stage.
    pub fn message(&self) -> (r: &'static str)
        ensures
            r@ == self.message_spec(),
    {
        match self {
            ConcurrencyError::Worker => "worker thread failed",
        }
    }
}

impl MatrixError {
    /// The wording of either failure kind.
    pub open spec fn message_spec(self) -> Seq<char> {
        match self {
            MatrixError::Shape(e) => e.message_spec(),
            MatrixError::Concurrency(e) => e.message_spec(),
        }
    }

    /// A human-readable account of the failure.
    pub fn message(&self) -> (r: &'static str)
        ensures
            r@ == self.message_spec(),
    {
        match self {
            MatrixError::Shape(e) => e.message(),
            MatrixError::Concurrency(e) => e.message(),
        }
    }
}

/// The error that construction reports for an ill-shaped grid: `Empty` when
/// there is no row or no column, `Ragged` otherwise.
pub open spec fn construction_fault(m: Seq<Seq<i32>>) -> ShapeError {
    if m.len() == 0 || m[0].len() == 0 {
        ShapeError::Empty
    } else {
        ShapeError::Ragged
    }
}

/// The error that an incompatible multiplication reports: the shapes of the
/// two operands.
pub open spec fn incompatible_error(a: Seq<Seq<i32>>, b: Seq<Seq<i32>>) -> ShapeError {
    ShapeError::Incompatible {
        left_rows: a.len() as usize,
        left_cols: a[0].len() as usize,
        right_rows: b.len() as usize,
        right_cols: b[0].len() as usize,
    }
}

} // verus!
