//! Package versions and accepted version ranges for the managed-runtime
//! support packages that generated output depends on.

use vstd::prelude::*;

verus! {

/// A semantic package version.
#[derive(PartialEq, Eq, Structural, Clone, Copy, Debug)]
pub struct PkgVersion {
    pub major: u64,
    pub minor: u64,
    pub patch: u64,
}

/// A half-open version range: `min` inclusive up to `max_exclusive`.
#[derive(PartialEq, Eq, Structural, Clone, Copy, Debug)]
pub struct VersionRange {
    pub min: PkgVersion,
    pub max_exclusive: PkgVersion,
}

/// Lexicographic order on (major, minor, patch).
pub open spec fn spec_version_lt(a: PkgVersion, b: PkgVersion) -> bool {
    a.major < b.major || (a.major == b.major && (a.minor < b.minor || (a.minor == b.minor
        && a.patch < b.patch)))
}

/// Whether `v` lies in the half-open range.
pub open spec fn spec_in_range(range: VersionRange, v: PkgVersion) -> bool {
    !spec_version_lt(v, range.min) && spec_version_lt(v, range.max_exclusive)
}

/// Compares two versions lexicographically.
pub fn version_lt(a: &PkgVersion, b: &PkgVersion) -> (r: bool)
    ensures
        r == spec_version_lt(*a, *b),
{
    if a.major != b.major {
        a.major < b.major
    } else if a.minor != b.minor {
        a.minor < b.minor
    } else {
        a.patch < b.patch
    }
}

impl VersionRange {
    /// Whether `v` lies in the range: `min <= v < max_exclusive`.
    pub fn contains(&self, v: &PkgVersion) -> (r: bool)
        ensures
            r == spec_in_range(*self, *v),
    {
        !version_lt(v, &self.min) && version_lt(v, &self.max_exclusive)
    }
}

/// Accepted versions of the interop support package.
pub open spec fn spec_ffi_requirement() -> VersionRange {
    VersionRange {
        min: PkgVersion { major: 2, minor: 0, patch: 1 },
        max_exclusive: PkgVersion { major: 3, minor: 0, patch: 0 },
    }
}

/// Accepted versions of the interop support package: `>= 2.0.1, < 3.0.0`.
pub fn ffi_requirement() -> (r: VersionRange)
    ensures
        r == spec_ffi_requirement(),
{
    VersionRange {
        min: PkgVersion { major: 2, minor: 0, patch: 1 },
        max_exclusive: PkgVersion { major: 3, minor: 0, patch: 0 },
    }
}

/// Accepted versions of the binding-generator package.
pub open spec fn spec_ffigen_requirement() -> VersionRange {
    VersionRange {
        min: PkgVersion { major: 6, minor: 0, patch: 1 },
        max_exclusive: PkgVersion { major: 8, minor: 0, patch: 0 },
    }
}

/// Accepted versions of the binding-generator package: `>= 6.0.1, < 8.0.0`.
pub fn ffigen_requirement() -> (r: VersionRange)
    ensures
        r == spec_ffigen_requirement(),
{
    VersionRange {
        min: PkgVersion { major: 6, minor: 0, patch: 1 },
        max_exclusive: PkgVersion { major: 8, minor: 0, patch: 0 },
    }
}

} // verus!
