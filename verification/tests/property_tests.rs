use matmul::{ConcurrencyError, Matrix, MatrixError, ShapeError};

#[test]
fn sequential_and_parallel_agree() {
    let a = Matrix::new(vec![vec![1, 2, 2], vec![3, 1, 1], vec![0, -4, 7], vec![9, 9, 9], vec![
        -1, -2, -3,
    ]])
    .unwrap();
    let b = Matrix::new(vec![vec![4, 2, 1, 0], vec![3, 1, -5, 6], vec![1, 5, 2, 2]]).unwrap();
    let seq = Matrix::multiply(&a, &b).unwrap();
    let par = Matrix::multiple_threads_multiply(a, b).unwrap();
    assert!(seq == par);
}

#[test]
fn repeated_multiplication_is_deterministic() {
    let a = Matrix::new(vec![vec![5, -2], vec![8, 3]]).unwrap();
    let b = Matrix::new(vec![vec![1, 4], vec![-6, 2]]).unwrap();
    let first = Matrix::multiply(&a, &b).unwrap();
    let second = Matrix::multiply(&a, &b).unwrap();
    assert!(first == second);
    let par_first = Matrix::multiple_threads_multiply(a.clone(), b.clone()).unwrap();
    let par_second = Matrix::multiple_threads_multiply(a, b).unwrap();
    assert!(par_first == par_second);
    assert!(first == par_first);
}

#[test]
fn incompatible_shapes_fail_both_paths() {
    let a = Matrix::new(vec![vec![1, 2, 3], vec![4, 5, 6]]).unwrap();
    let b = Matrix::new(vec![vec![1, 2], vec![3, 4]]).unwrap();
    match Matrix::multiply(&a, &b) {
        Err(ShapeError::Incompatible { left_rows, left_cols, right_rows, right_cols }) => {
            assert_eq!((left_rows, left_cols), (2, 3));
            assert_eq!((right_rows, right_cols), (2, 2));
        }
        _ => panic!("sequential multiplication accepted incompatible shapes"),
    }
    match Matrix::multiple_threads_multiply(a, b) {
        Err(MatrixError::Shape(ShapeError::Incompatible { .. })) => {}
        _ => panic!("parallel multiplication accepted incompatible shapes"),
    }
}

#[test]
fn construction_rejects_bad_grids() {
    assert_eq!(Matrix::new(vec![vec![1, 2, 3], vec![1, 2]]).unwrap_err(), ShapeError::Ragged);
    assert_eq!(Matrix::new(vec![]).unwrap_err(), ShapeError::Empty);
    assert_eq!(Matrix::new(vec![vec![], vec![]]).unwrap_err(), ShapeError::Empty);
    assert_eq!(Matrix::generate(0, 3).unwrap_err(), ShapeError::Empty);
    assert_eq!(Matrix::generate(3, 0).unwrap_err(), ShapeError::Empty);
}

#[test]
fn equality_is_reflexive_symmetric_and_shape_sensitive() {
    let a = Matrix::new(vec![vec![1, 2], vec![3, 4]]).unwrap();
    let same = Matrix::new(vec![vec![1, 2], vec![3, 4]]).unwrap();
    let other = Matrix::new(vec![vec![1, 2], vec![3, 5]]).unwrap();
    assert!(a == a);
    assert!(a == same);
    assert!(same == a);
    assert!(a != other);
    assert!(other != a);
    // Same leading values, different shapes: never equal.
    let wide = Matrix::new(vec![vec![1, 2, 3, 4]]).unwrap();
    let tall = Matrix::new(vec![vec![1], vec![2], vec![3], vec![4]]).unwrap();
    let prefix = Matrix::new(vec![vec![1, 2]]).unwrap();
    assert!(wide != tall);
    assert!(wide != prefix);
}

#[test]
fn one_by_one_matrices_multiply() {
    let a = Matrix::new(vec![vec![7]]).unwrap();
    let b = Matrix::new(vec![vec![6]]).unwrap();
    let c = Matrix::multiply(&a, &b).unwrap();
    assert_eq!(c.size(), (1, 1));
    assert_eq!(c.get(0, 0), 42);
    let c_par = Matrix::multiple_threads_multiply(a, b).unwrap();
    assert!(c == c_par);
}

#[test]
fn multiplication_wraps_like_native_i32() {
    let a = Matrix::new(vec![vec![i32::MAX]]).unwrap();
    let b = Matrix::new(vec![vec![2]]).unwrap();
    let c = Matrix::multiply(&a, &b).unwrap();
    assert_eq!(c.get(0, 0), i32::MAX.wrapping_mul(2));
    assert_eq!(c.get(0, 0), -2);
}

#[test]
fn generated_entries_stay_in_range() {
    let m = Matrix::generate(4, 5).unwrap();
    let (rows, cols) = m.size();
    for g in 0..rows {
        for h in 0..cols {
            let v = m.get(g, h);
            assert!((0..25).contains(&v));
        }
    }
}

#[test]
fn max_string_len_reports_the_widest_entry() {
    let a = Matrix::new(vec![vec![1, 222], vec![34, 5]]).unwrap();
    assert_eq!(a.max_string_len(), 3);
    let b = Matrix::new(vec![vec![0]]).unwrap();
    assert_eq!(b.max_string_len(), 1);
    // The width scan starts from zero, so negative entries report width one.
    let c = Matrix::new(vec![vec![-5, -77]]).unwrap();
    assert_eq!(c.max_string_len(), 1);
    let d = Matrix::new(vec![vec![10, 9]]).unwrap();
    assert_eq!(d.max_string_len(), 2);
}

#[test]
fn clone_preserves_the_grid() {
    let a = Matrix::new(vec![vec![1, -2], vec![3, 4]]).unwrap();
    let b = a.clone();
    assert!(a == b);
    assert_eq!(b.get(0, 1), -2);
}

#[test]
fn worker_error_is_distinct_from_shape_error() {
    // The two failure kinds compare as different values, so a caller can
    // tell bad input from an execution fault.
    let shape = MatrixError::Shape(ShapeError::Ragged);
    let worker = MatrixError::Concurrency(ConcurrencyError::Worker);
    assert_ne!(shape, worker);
}

#[test]
fn errors_carry_readable_messages() {
    let ragged = Matrix::new(vec![vec![1, 2, 3], vec![1, 2]]).unwrap_err();
    assert_eq!(ragged.message(), "row length mismatch");
    let empty = Matrix::new(vec![]).unwrap_err();
    assert_eq!(empty.message(), "matrix needs at least one row and one column");
    let a = Matrix::new(vec![vec![1, 2]]).unwrap();
    let b = Matrix::new(vec![vec![1, 2]]).unwrap();
    let incompatible = Matrix::multiply(&a, &b).unwrap_err();
    assert_eq!(incompatible.message(), "incompatible shapes for multiplication");
    let through_parallel = Matrix::multiple_threads_multiply(a, b).unwrap_err();
    assert_eq!(through_parallel.message(), "incompatible shapes for multiplication");
    assert_eq!(
        MatrixError::Concurrency(ConcurrencyError::Worker).message(),
        "worker thread failed"
    );
}

#[test]
fn agreement_holds_on_prime_sizes() {
    let a = Matrix::generate(5, 18).unwrap();
    let b = Matrix::generate(18, 9).unwrap();
    let seq = Matrix::multiply(&a, &b).unwrap();
    let par = Matrix::multiple_threads_multiply(a, b).unwrap();
    assert!(seq == par);
    assert_eq!(seq.size(), (5, 9));
}
