//! The errors of the library.

use vstd::prelude::*;

verus! {

/// What went wrong in building a query or in a store operation. Each variant
/// but the two without data carries a human-readable diagnostic.
#[derive(Debug, PartialEq)]
pub enum DbError {
    /// A float literal that is NaN or infinite.
    InvalidLiteral,
    /// A payload or query that could not be encoded.
    Serialization(String),
    /// A store response that does not have the expected shape.
    Deserialization(String),
    /// A request that could not be sent, or whose response could not be read.
    Transport(String),
    /// A store that was reached but reported a failure.
    StoreRejected(String),
    /// A write request without a body.
    MissingRequestBody,
}

} // verus!
