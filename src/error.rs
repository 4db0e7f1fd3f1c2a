use crate::schema::DataType;
use vstd::prelude::*;

verus! {

/// The ways an operation of this library can fail.
#[derive(Debug, Clone, PartialEq)]
pub enum SqlError {
    /// Duplicate table, column or index name; a dangling foreign-key or index
    /// reference; a primary key naming an unknown column.
    SchemaValidationError,
    /// An operation names a table or column that the schema does not declare.
    InvalidIdentifier,
    /// An `In` condition with no values.
    EmptyInList,
    /// The engine reported a failure; the text says what and where.
    DriverError(String),
    /// A returned cell cannot be read as its column's declared type.
    TypeMismatch { column: String, expected: DataType, actual: DataType },
    /// The service is not in the `Ready` state.
    NotReady,
    /// A start was asked of a service that is not stopped.
    NotStopped,
}

} // verus!
