//! Dense rectangular matrices with validated construction and elementwise
//! addition.
//!
//! The matrix is generic over its cell type: shape validation, lookup,
//! search, compatibility checks, the elementwise combination of two
//! matrices and the text layout are proved here for every cell type, and
//! the cell arithmetic and the text of each cell are supplied by the caller.
mod errors;
mod matrix;
mod operations;
mod render;

pub use errors::{message_of, MatrixError};
pub use matrix::{
    before, cells_of, has_shape, is_default, lemma_additive_compatibility_symmetric,
    BuilderMatrix, Matrix,
};
pub use operations::add::Add;
pub use render::{join, matrix_text, row_text};
