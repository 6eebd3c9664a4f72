//! The managed-runtime project model and the toolchain precondition check
//! that must pass before generation.

use crate::error::Error;
use crate::version::{
    ffi_requirement, ffigen_requirement, spec_ffi_requirement, spec_ffigen_requirement,
    spec_in_range, PkgVersion, VersionRange,
};
use vstd::prelude::*;
use vstd::string::StringExecFns;

verus! {

/// Which managed-runtime toolchain drives the project.
#[derive(PartialEq, Eq, Structural, Clone, Copy, Debug)]
pub enum DartToolchain {
    Dart,
    Flutter,
}

impl DartToolchain {
    /// The executable name of the toolchain.
    pub open spec fn spec_name(self) -> Seq<char> {
        match self {
            DartToolchain::Dart => "dart"@,
            DartToolchain::Flutter => "flutter"@,
        }
    }

    /// The executable name of the toolchain.
    pub fn name(&self) -> (r: &'static str)
        ensures
            r@ == self.spec_name(),
    {
        match self {
            DartToolchain::Dart => "dart",
            DartToolchain::Flutter => "flutter",
        }
    }
}

/// What the precondition check reads of a managed-runtime project: the
/// toolchain, whether its executable resolves, and the declared and installed
/// versions of the two required support packages (`None` when absent).
pub struct DartRepository {
    pub toolchain: DartToolchain,
    pub toolchain_available: bool,
    pub ffi_declared: Option<PkgVersion>,
    pub ffi_installed: Option<PkgVersion>,
    pub ffigen_declared: Option<PkgVersion>,
    pub ffigen_installed: Option<PkgVersion>,
}

/// A package state passes when a version is present and lies in the range.
pub open spec fn version_ok(v: Option<PkgVersion>, range: VersionRange) -> bool {
    match v {
        Some(version) => spec_in_range(range, version),
        None => false,
    }
}

fn check_version(v: &Option<PkgVersion>, range: &VersionRange) -> (r: bool)
    ensures
        r == version_ok(*v, *range),
{
    match v {
        Some(version) => range.contains(version),
        None => false,
    }
}

fn check_package(
    package: &str,
    declared: &Option<PkgVersion>,
    installed: &Option<PkgVersion>,
    requirement: &VersionRange,
) -> (r: Result<(), Error>)
    ensures
        r is Ok <==> version_ok(*declared, *requirement) && version_ok(*installed, *requirement),
        !version_ok(*declared, *requirement) ==> (r matches Err(
            Error::PackageRequirement { package: p, requirement: rq, installed: i },
        ) && p@ == package@ && rq == *requirement && i == false),
        version_ok(*declared, *requirement) && !version_ok(*installed, *requirement) ==> (r matches
            Err(
            Error::PackageRequirement { package: p, requirement: rq, installed: i },
        ) && p@ == package@ && rq == *requirement && i == true),
{
    if !check_version(declared, requirement) {
        return Err(
            Error::PackageRequirement {
                package: String::from_str(package),
                requirement: *requirement,
                installed: false,
            },
        );
    }
    if !check_version(installed, requirement) {
        return Err(
            Error::PackageRequirement {
                package: String::from_str(package),
                requirement: *requirement,
                installed: true,
            },
        );
    }
    Ok(())
}

/// All four package states that the dependency check inspects, in the order
/// it inspects them.
pub open spec fn deps_check_ok(repo: DartRepository) -> bool {
    version_ok(repo.ffi_declared, spec_ffi_requirement()) && version_ok(
        repo.ffi_installed,
        spec_ffi_requirement(),
    ) && version_ok(repo.ffigen_declared, spec_ffigen_requirement()) && version_ok(
        repo.ffigen_installed,
        spec_ffigen_requirement(),
    )
}

/// Checks that a usable toolchain is present and, unless skipped, that the
/// interop and binding-generator packages are declared and installed within
/// their accepted version ranges.  Fails with the distinct precondition error
/// of the first check that does not hold.
pub fn ensure_tools_available(repo: &DartRepository, skip_deps_check: bool) -> (r: Result<
    (),
    Error,
>)
    ensures
        !repo.toolchain_available ==> (r matches Err(Error::MissingExe { executable: e }) && e@
            == repo.toolchain.spec_name()),
        repo.toolchain_available && skip_deps_check ==> r is Ok,
        repo.toolchain_available && !skip_deps_check ==> (r is Ok <==> deps_check_ok(*repo)),
        repo.toolchain_available && !skip_deps_check && !(version_ok(
            repo.ffi_declared,
            spec_ffi_requirement(),
        ) && version_ok(repo.ffi_installed, spec_ffi_requirement())) ==> (r matches Err(
            Error::PackageRequirement { package: p, requirement: rq, installed: i },
        ) && p@ == "ffi"@ && rq == spec_ffi_requirement() && i == version_ok(
            repo.ffi_declared,
            spec_ffi_requirement(),
        )),
        repo.toolchain_available && !skip_deps_check && version_ok(
            repo.ffi_declared,
            spec_ffi_requirement(),
        ) && version_ok(repo.ffi_installed, spec_ffi_requirement()) && !(version_ok(
            repo.ffigen_declared,
            spec_ffigen_requirement(),
        ) && version_ok(repo.ffigen_installed, spec_ffigen_requirement())) ==> (r matches Err(
            Error::PackageRequirement { package: p, requirement: rq, installed: i },
        ) && p@ == "ffigen"@ && rq == spec_ffigen_requirement() && i == version_ok(
            repo.ffigen_declared,
            spec_ffigen_requirement(),
        )),
{
    if !repo.toolchain_available {
        return Err(Error::MissingExe { executable: String::from_str(repo.toolchain.name()) });
    }
    if !skip_deps_check {
        let ffi_range = ffi_requirement();
        check_package("ffi", &repo.ffi_declared, &repo.ffi_installed, &ffi_range)?;
        let ffigen_range = ffigen_requirement();
        check_package("ffigen", &repo.ffigen_declared, &repo.ffigen_installed, &ffigen_range)?;
    }
    Ok(())
}

} // verus!
