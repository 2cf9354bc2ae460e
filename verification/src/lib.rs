//! Build-time configuration logic for linking against Intel MKL.
//!
//! The crate selects one of the mutually exclusive linking profiles, validates
//! the report of a package-metadata probe against a minimum version, lays out
//! the header-translator configuration for the master header, and decides the
//! link directives for the companion OpenMP runtimes. All decisions are pure
//! functions of their inputs; running the probe and the translator, and
//! reading the build environment, are left to the enclosing build script.

pub mod directives;
pub mod error;
pub mod generator;
pub mod paths;
pub mod plan;
pub mod profile;
pub mod version;
