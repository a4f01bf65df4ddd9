use vstd::prelude::*;

verus! {

/// What was wrong with the shape of a successful response.
#[derive(Debug, Clone, Copy, PartialEq, Eq, Structural)]
pub enum SchemaProblem {
    /// The response has no `products` field.
    MissingProducts,
    /// The response's `products` field is not an array.
    ProductsNotArray,
}

/// An operation that this read-only adapter declines.
#[derive(Debug, Clone, Copy, PartialEq, Eq, Structural)]
pub enum Operation {
    ReScan,
    Modify,
}

/// The failures that the adapter reports to its host.
#[derive(Debug)]
pub enum FdwError {
    /// A required connection option is empty or absent; holds the option's key.
    MissingOption(String),
    /// The HTTP request could not be completed; holds the transport's message.
    TransportError(String),
    /// The response body is not a JSON document; holds the parser's message.
    DecodeError(String),
    /// The response did not report success.
    ApiError,
    /// The response reported success but is not shaped as expected.
    SchemaError(SchemaProblem),
    /// A requested column is unknown to the adapter; holds the column's name.
    UnsupportedColumn(String),
    /// The operation is not offered by this adapter.
    Unsupported(Operation),
}

} // verus!
