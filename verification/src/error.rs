//! The configuration and validation errors that abort a build before any
//! external tool runs, each with its fixed diagnostic text.

use vstd::prelude::*;

verus! {

/// Why no build plan could be made. Every variant is terminal: the build
/// aborts and nothing is generated.
#[derive(Clone, Copy, Debug, PartialEq, Eq, Structural)]
pub enum BuildError {
    /// No linking profile option was enabled.
    NoProfileSelected,
    /// The single-dynamic-library catch-all was enabled together with a
    /// specific profile.
    ConflictingProfiles,
    /// The probed library reported a version below the required minimum.
    VersionBelowMinimum,
    /// The probe reported no include directory, so the master header cannot
    /// be located.
    NoIncludeDir,
}

/// The diagnostic text of each error.
pub open spec fn spec_message(e: BuildError) -> Seq<char> {
    match e {
        BuildError::NoProfileSelected => "At least one of the following features must be enabled: dynamic-ilp64-gomp, dynamic-ilp64-iomp, dynamic-ilp64-seq, dynamic-lp64-gomp, dynamic-lp64-iomp, dynamic-lp64-seq, static-ilp64-gomp, static-ilp64-iomp, static-ilp64-seq, static-lp64-gomp, static-lp64-iomp, static-lp64-seq, sdl"@,
        BuildError::ConflictingProfiles => "The sdl feature conflicts with every other linking profile feature"@,
        BuildError::VersionBelowMinimum => "The probed library version is below the required minimum version 2024"@,
        BuildError::NoIncludeDir => "No include path found"@,
    }
}

impl BuildError {
    /// A human-readable description of the failure.
    pub fn message(&self) -> (r: String)
        ensures
            r@ == spec_message(*self),
    {
        match self {
            BuildError::NoProfileSelected => String::from_str("At least one of the following features must be enabled: dynamic-ilp64-gomp, dynamic-ilp64-iomp, dynamic-ilp64-seq, dynamic-lp64-gomp, dynamic-lp64-iomp, dynamic-lp64-seq, static-ilp64-gomp, static-ilp64-iomp, static-ilp64-seq, static-lp64-gomp, static-lp64-iomp, static-lp64-seq, sdl"),
            BuildError::ConflictingProfiles => String::from_str("The sdl feature conflicts with every other linking profile feature"),
            BuildError::VersionBelowMinimum => String::from_str("The probed library version is below the required minimum version 2024"),
            BuildError::NoIncludeDir => String::from_str("No include path found"),
        }
    }
}

} // verus!
