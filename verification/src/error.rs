//! The one failure that a probe can report.

use vstd::prelude::*;

verus! {

/// Why a probe could not produce its value.
#[derive(Debug, PartialEq, Eq)]
pub enum ProbeError {
    /// The operating system itself reported a failure, so that the requested
    /// measurement would be meaningless. `detail` says which query failed.
    PlatformQueryFailed { detail: String },
}

impl ProbeError {
    /// The diagnostic text that the error carries.
    pub open spec fn detail_text(self) -> Seq<char> {
        match self {
            ProbeError::PlatformQueryFailed { detail } => detail@,
        }
    }

    /// The diagnostic text, for a caller that reports the failure.
    pub fn detail(&self) -> (text: &str)
        ensures
            text@ == self.detail_text(),
    {
        match self {
            ProbeError::PlatformQueryFailed { detail } => detail.as_str(),
        }
    }
}

} // verus!
