//! Failures that a repository reports to its callers.

use vstd::prelude::*;
use vstd::string::StringExecFns;

verus! {

/// What went wrong in a repository operation.
#[derive(Debug)]
pub enum InterfaceError {
    /// No record is stored under the key that was asked for.
    MissingItem(String),
    /// The backing store or service failed or rejected the operation, or the
    /// store was found to hold several records under one key.
    RdsError(String),
    /// A response was received that cannot be read as records.
    FromFields(String),
    /// Any other failure, with its description.
    Other(String),
}

/// The text of an error: a prefix that names the kind, then the detail.
pub open spec fn error_text(e: InterfaceError) -> Seq<char> {
    match e {
        InterfaceError::MissingItem(detail) => "Missing item: "@ + detail@,
        InterfaceError::RdsError(detail) => "RDS failed: "@ + detail@,
        InterfaceError::FromFields(detail) => "Invalid field: "@ + detail@,
        InterfaceError::Other(detail) => "Other error: "@ + detail@,
    }
}

impl InterfaceError {
    /// The message that describes the error.
    pub fn message(&self) -> (text: String)
        ensures
            text@ == error_text(*self),
    {
        match self {
            InterfaceError::MissingItem(detail) => String::from_str("Missing item: ").concat(
                detail.as_str(),
            ),
            InterfaceError::RdsError(detail) => String::from_str("RDS failed: ").concat(
                detail.as_str(),
            ),
            InterfaceError::FromFields(detail) => String::from_str("Invalid field: ").concat(
                detail.as_str(),
            ),
            InterfaceError::Other(detail) => String::from_str("Other error: ").concat(
                detail.as_str(),
            ),
        }
    }
}

} // verus!
