use vstd::prelude::*;

verus! {

/// Every way a single invocation can fail inside the library.
#[derive(Debug, PartialEq, Eq)]
pub enum ChatError {
    /// The model name is not one of the accepted identifiers.
    InvalidModel,
    /// `--in-place` was requested without an input file.
    InPlaceWithoutInput,
    /// A success response that carries no choice.
    NoText,
    /// The service answered with a structured error, already formatted.
    Api(String),
    /// The response body matches neither the success nor the error shape.
    Parse,
}

} // verus!
