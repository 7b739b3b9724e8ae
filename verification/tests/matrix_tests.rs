use matmul::Matrix;

#[test]
fn generate_matrix_test() {
    let a = Matrix::generate(2, 3).unwrap();
    assert!(a.size() == (2, 3));
}

#[test]
fn new_matrix_test() {
    assert!(Matrix::new(vec![vec![1, 2, 3], vec![1, 2]]).is_err());
    assert!(Matrix::new(vec![vec![1, 2, 3], vec![1, 2, 3]]).is_ok());
}

#[test]
fn multiply_matrix_tests() {
    let a = Matrix::new(vec![vec![1, 2, 2], vec![3, 1, 1]]).unwrap();
    let b = Matrix::new(vec![vec![4, 2], vec![3, 1], vec![1, 5]]).unwrap();

    let c = Matrix::new(vec![vec![12, 14], vec![16, 12]]).unwrap();
    let c1 = Matrix::multiply(&a, &b).unwrap();

    assert!(c1 == c);

    let a = Matrix::generate(2, 3).unwrap();
    let b = Matrix::generate(3, 2).unwrap();

    let c = Matrix::multiple_threads_multiply(a, b).unwrap();

    assert!(c.size() == (2, 2));

    let a = Matrix::generate(5, 18).unwrap();
    let b = Matrix::generate(18, 9).unwrap();

    let c = Matrix::multiple_threads_multiply(a, b).unwrap();

    assert!(c.size() == (5, 9));

    let a = Matrix::generate(5, 18).unwrap();
    let b = Matrix::generate(17, 9).unwrap();

    assert!(Matrix::multiple_threads_multiply(a, b).is_err());
}

#[test]
fn size_and_get_report_the_grid() {
    let a = Matrix::new(vec![vec![7, -3, 0], vec![2, 5, 9]]).unwrap();
    assert_eq!(a.size(), (2, 3));
    assert_eq!(a.get(0, 0), 7);
    assert_eq!(a.get(0, 1), -3);
    assert_eq!(a.get(1, 2), 9);
}
