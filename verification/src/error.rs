//! The failure taxonomy of the provisioning pipeline.
//!
//! Every error is fatal to the enclosing build: there is no retry policy
//! beyond the idempotent caching, and no degraded mode.

use vstd::prelude::*;
use vstd::string::StringExecFns;

verus! {

/// A fatal provisioning failure.
#[derive(Debug)]
pub enum BuildError {
    /// The normalized target triple is not in the supported set.
    /// Carries the triple that was looked up. Raised before any
    /// network or filesystem work.
    UnsupportedTarget { triple: String },
    /// Required build-target metadata (architecture or operating
    /// system) was not supplied by the enclosing build system.
    EnvironmentMissing,
    /// The archive transfer exited with a non-success status or could
    /// not be started; any partial download has been removed.
    DownloadFailed,
    /// The archive could not be unpacked; any partial extraction
    /// output has been removed.
    ExtractFailed,
}

impl BuildError {
    /// A human-readable message for the fatal build abort.
    pub fn describe(&self) -> (m: String)
        ensures
            (self matches BuildError::UnsupportedTarget { triple } ==> m@ == "Unsupported target: "@
                + triple@),
            self is EnvironmentMissing ==> m@ == "Failed to read the build target metadata"@,
            self is DownloadFailed ==> m@ == "Failed to download DXC binary"@,
            self is ExtractFailed ==> m@ == "Failed to extract DXC binary"@,
    {
        match self {
            BuildError::UnsupportedTarget { triple } => {
                let mut m = String::from_str("Unsupported target: ");
                m.append(triple.as_str());
                m
            },
            BuildError::EnvironmentMissing => String::from_str(
                "Failed to read the build target metadata",
            ),
            BuildError::DownloadFailed => String::from_str("Failed to download DXC binary"),
            BuildError::ExtractFailed => String::from_str("Failed to extract DXC binary"),
        }
    }
}

} // verus!
