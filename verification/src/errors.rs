//! The error kinds a validation run can end with.  All are fatal to the
//! run; callers surface them and exit non-zero.

use vstd::prelude::*;
use vstd::string::StrSliceExecFns;
use vstd::string::StringExecFns;

verus! {

/// Why a validation run could not be carried out, or failed.
#[derive(Clone, Debug, PartialEq, Eq)]
pub enum ValidationError {
    /// A pack could not be copied or linked into the server directory.
    PackCopyFailed(String),
    /// A pack path is missing or is not a directory.
    InvalidPackPath(String),
    /// The server location is missing or is not a directory.
    InvalidServerPath(String),
    /// The executable is missing, could not be made executable, could
    /// not be spawned, or an output stream could not be captured.
    ServerStartFailed(String),
    /// The verdict itself: the policy turned the findings into a failure.
    ValidationFailed(String),
}

impl ValidationError {
    /// The display text of the error.
    pub open spec fn message_spec(&self) -> Seq<char> {
        match self {
            ValidationError::PackCopyFailed(s) => "Failed to copy pack: "@ + s@,
            ValidationError::InvalidPackPath(s) => "Invalid pack path: "@ + s@,
            ValidationError::InvalidServerPath(s) => "Invalid server path: "@ + s@,
            ValidationError::ServerStartFailed(s) => "Failed to start server: "@ + s@,
            ValidationError::ValidationFailed(s) => "Validation failed: "@ + s@,
        }
    }

    /// Human-readable description of the error.
    pub fn message(&self) -> (m: String)
        ensures
            m@ == self.message_spec(),
    {
        match self {
            ValidationError::PackCopyFailed(s) => "Failed to copy pack: ".to_owned().concat(
                s.as_str(),
            ),
            ValidationError::InvalidPackPath(s) => "Invalid pack path: ".to_owned().concat(
                s.as_str(),
            ),
            ValidationError::InvalidServerPath(s) => "Invalid server path: ".to_owned().concat(
                s.as_str(),
            ),
            ValidationError::ServerStartFailed(s) => "Failed to start server: ".to_owned().concat(
                s.as_str(),
            ),
            ValidationError::ValidationFailed(s) => "Validation failed: ".to_owned().concat(
                s.as_str(),
            ),
        }
    }
}

} // verus!
