//! The organizer's error taxonomy. Each failure is fatal to the run in which
//! it occurs; entries already processed stay moved or copied and stay logged.

use vstd::prelude::*;
use vstd::string::StringExecFns;

verus! {

/// Why a run failed.
pub enum OrganizeError {
    /// The log file could not be created or opened for appending. Nothing
    /// was processed.
    LogOpenFailed { cause: String },
    /// The target directory could not be enumerated (missing, unreadable, or
    /// not a directory). Nothing was processed and nothing was logged.
    DirectoryReadFailed { cause: String },
    /// Creating a destination directory, or moving or copying one entry,
    /// failed. The run stopped at the named path.
    IoFailure { path: String, cause: String },
}

impl OrganizeError {
    /// The human-readable description of the failure.
    pub open spec fn spec_message(&self) -> Seq<char> {
        match self {
            OrganizeError::LogOpenFailed { cause } => "cannot open log file: "@ + cause@,
            OrganizeError::DirectoryReadFailed { cause } => "cannot read directory: "@ + cause@,
            OrganizeError::IoFailure { path, cause } => "file operation failed at "@ + path@
                + ": "@ + cause@,
        }
    }

    /// Describes the failure, as spelled out by `spec_message`.
    pub fn message(&self) -> (r: String)
        ensures
            r@ == self.spec_message(),
    {
        match self {
            OrganizeError::LogOpenFailed { cause } => {
                let mut out = String::from_str("cannot open log file: ");
                out.append(cause.as_str());
                out
            },
            OrganizeError::DirectoryReadFailed { cause } => {
                let mut out = String::from_str("cannot read directory: ");
                out.append(cause.as_str());
                out
            },
            OrganizeError::IoFailure { path, cause } => {
                let mut out = String::from_str("file operation failed at ");
                out.append(path.as_str());
                out.append(": ");
                out.append(cause.as_str());
                proof {
                    assert(out@ =~= self.spec_message());
                }
                out
            },
        }
    }
}

} // verus!
