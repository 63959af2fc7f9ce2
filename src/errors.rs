use vstd::prelude::*;

verus! {

/// The ways in which building or combining matrices can fail.
#[derive(Debug, Clone, Copy, PartialEq, Eq, Structural)]
pub enum MatrixError {
    /// Rows or columns were requested as zero.
    InvalidMatrixSize,
    /// The shapes of two matrices do not suit the requested operation.
    DimensionMismatch,
    /// The operation is not valid in this context.
    InvalidOperation,
    /// The supplied data does not have the declared shape.
    DataMismatch,
}

/// The fixed human-readable description of each error kind.
pub open spec fn message_of(e: MatrixError) -> Seq<char> {
    match e {
        MatrixError::InvalidMatrixSize =>
            "InvalidMatrixSize: Invalid matrix size, rows and columns must be greater than zero"@,
        MatrixError::DimensionMismatch => "DimensionMismatch: Matrix dimensions do not match"@,
        MatrixError::InvalidOperation => "InvalidOperation: Invalid operation on matrices"@,
        MatrixError::DataMismatch =>
            "DataMismatch: Data must have the same dimensions as the matrix"@,
    }
}

impl MatrixError {
    /// Returns the given error kind unchanged.
    pub fn new(error: MatrixError) -> (r: Self)
        ensures
            r == error,
    {
        error
    }

    /// The description of this error kind, as shown to a user.
    pub fn message(&self) -> (r: &'static str)
        ensures
            r@ == message_of(*self),
    {
        match self {
            MatrixError::InvalidMatrixSize =>
                "InvalidMatrixSize: Invalid matrix size, rows and columns must be greater than zero",
            MatrixError::DimensionMismatch => "DimensionMismatch: Matrix dimensions do not match",
            MatrixError::InvalidOperation => "InvalidOperation: Invalid operation on matrices",
            MatrixError::DataMismatch =>
                "DataMismatch: Data must have the same dimensions as the matrix",
        }
    }
}

} // verus!
