//! Rectangular `i32` matrices with validated construction, random
//! generation, and two verified multiplication paths: a single-threaded
//! reference path and a thread-per-column parallel path.
pub mod error;
pub mod laws;
pub mod matrix;
pub mod model;
mod parallel;
mod rng;

pub use error::ConcurrencyError;
pub use error::MatrixError;
pub use error::ShapeError;
pub use matrix::Matrix;
