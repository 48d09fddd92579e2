//! The ways in which a run can fail.

use vstd::prelude::*;
use vstd::string::StringExecFns;

verus! {

/// Why no hash was produced.
#[derive(Debug, Clone, PartialEq, Eq)]
pub enum HashError {
    /// Exactly one of the two component counts was given.
    MismatchedComponents,
    /// A component count lies outside `1..=9`.
    OutOfRangeComponents,
    /// The image could not be fetched, opened or decoded; carries the cause.
    LoadError(String),
    /// The encoder could not hash the decoded image.
    EncodeFailure,
}

impl HashError {
    /// The text shown to the user for this failure.
    pub open spec fn text(self) -> Seq<char> {
        match self {
            HashError::MismatchedComponents =>
                "If specifying components, both -x and -y must be provided"@,
            HashError::OutOfRangeComponents => "The values of each component needs to be 1-9"@,
            HashError::LoadError(cause) => "Failed to load image: "@ + cause@,
            HashError::EncodeFailure => "Error during Blurhash encoding"@,
        }
    }

    /// Renders the failure as the line printed for it.
    pub fn message(&self) -> (m: String)
        ensures
            m@ == self.text(),
    {
        match self {
            HashError::MismatchedComponents => String::from_str(
                "If specifying components, both -x and -y must be provided",
            ),
            HashError::OutOfRangeComponents => String::from_str(
                "The values of each component needs to be 1-9",
            ),
            HashError::LoadError(cause) => String::from_str("Failed to load image: ").concat(
                cause.as_str(),
            ),
            HashError::EncodeFailure => String::from_str("Error during Blurhash encoding"),
        }
    }
}

} // verus!
