//! The installer's error taxonomy.  Each variant carries a diagnostic
//! message naming the URL or path involved and the underlying cause.

use vstd::prelude::*;

verus! {

/// Why an acquisition step failed.
#[derive(Debug, Clone, PartialEq)]
pub enum AcquisitionError {
    /// No valid default URL exists for the platform/kind combination.
    Configuration(String),
    /// Connection failure, timeout, or a non-2xx HTTP status.
    Network(String),
    /// Corrupt or truncated archive content.
    Archive(String),
    /// A file or directory could not be read, written, or created.
    Filesystem(String),
    /// The platform's service-manager command exited non-zero.
    ExternalTool(String),
}

impl AcquisitionError {
    /// The diagnostic message carried by the error.
    pub open spec fn spec_message(self) -> Seq<char> {
        match self {
            AcquisitionError::Configuration(m) => m@,
            AcquisitionError::Network(m) => m@,
            AcquisitionError::Archive(m) => m@,
            AcquisitionError::Filesystem(m) => m@,
            AcquisitionError::ExternalTool(m) => m@,
        }
    }

    /// The diagnostic message carried by the error.
    pub fn message(&self) -> (r: &String)
        ensures
            r@ == self.spec_message(),
    {
        match self {
            AcquisitionError::Configuration(m) => m,
            AcquisitionError::Network(m) => m,
            AcquisitionError::Archive(m) => m,
            AcquisitionError::Filesystem(m) => m,
            AcquisitionError::ExternalTool(m) => m,
        }
    }
}

} // verus!
