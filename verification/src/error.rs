//! Error type shared by the widget's fallible operations.

use vstd::prelude::*;

verus! {

/// Everything that can go wrong while setting the widget up or while
/// exporting and placing a signature. Setup failures leave the widget inert;
/// per-action failures abort only the current action.
#[derive(Debug, PartialEq, Eq)]
pub enum SigError {
    /// The host document or window is not reachable.
    DomUnavailable,
    /// A configured element identifier did not resolve; carries the id.
    ElementNotFound(String),
    /// The drawing surface's 2D context could not be acquired.
    NoContext2d,
    /// A named host operation failed; carries a short description.
    OpFailed(String),
}

impl SigError {
    /// A human-readable description of the error.
    pub fn message(&self) -> (r: String)
        ensures
            r@ == self.spec_message(),
    {
        match self {
            SigError::DomUnavailable => String::from_str("DOM not available"),
            SigError::ElementNotFound(id) => String::from_str("Element not found: ").concat(
                id.as_str(),
            ),
            SigError::NoContext2d => String::from_str("Canvas context unavailable"),
            SigError::OpFailed(what) => String::from_str("Operation failed: ").concat(
                what.as_str(),
            ),
        }
    }

    /// What `message` returns, as a sequence of characters.
    pub open spec fn spec_message(&self) -> Seq<char> {
        match self {
            SigError::DomUnavailable => "DOM not available"@,
            SigError::ElementNotFound(id) => "Element not found: "@ + id@,
            SigError::NoContext2d => "Canvas context unavailable"@,
            SigError::OpFailed(what) => "Operation failed: "@ + what@,
        }
    }
}

} // verus!
