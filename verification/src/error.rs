//! The error taxonomy of the generation pipeline.

use crate::version::VersionRange;
use vstd::prelude::*;

verus! {

/// Every way a generation step can fail.
///
/// Precondition failures name the missing executable or the package whose
/// declared or installed version falls outside its accepted range; tool
/// failures carry the captured streams; the recognized binding-generator
/// toolchain failure has a distinct, actionable variant.
pub enum Error {
    /// The managed-runtime toolchain executable was not found.
    MissingExe { executable: String },
    /// A support package is missing or outside its accepted version range;
    /// `installed` tells whether the installed copy (rather than the
    /// declaration in the project manifest) failed the check.
    PackageRequirement { package: String, requirement: VersionRange, installed: bool },
    /// Any other failure, described in full.
    StringError { message: String },
    /// The native-code formatter exited unsuccessfully.
    Rustfmt { stderr: String },
    /// The managed-language formatter exited unsuccessfully.
    Dartfmt { stderr: String },
    /// The binding generator could not locate the native compiler toolchain's
    /// dynamic library.
    FfigenLlvm,
}

} // verus!
