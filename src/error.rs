//! The errors of a build, and their mathematical form.

use vstd::prelude::*;

verus! {

/// `std::io::Error`, carried unopened by `TestBinaryError::CargoRunError`.
#[verifier::external_type_specification]
#[verifier::external_body]
pub struct ExIoError(std::io::Error);

/// Error type for build result.
#[derive(Debug)]
pub enum TestBinaryError {
    /// We are not running under Cargo.
    NonCargoRun(String),
    /// An error running Cargo itself.
    CargoRunError(std::io::Error),
    /// Cargo ran but did not succeed.
    CargoFailure(String),
    /// Cargo ran but there was a compilation error.
    BuildError(String),
    /// Cargo ran and seemed to succeed but the requested binary did not appear
    /// in its build output.
    BinaryNotBuilt(String),
    /// Error processing manifests.
    ManifestError(ManifestError),
    /// Cargo reported success but its message stream contradicts it: a failed
    /// compilation, or no outcome at all.
    InconsistentOutcome,
}

/// Error during reading manifests.
#[derive(Debug)]
pub enum ManifestError {
    /// Workspace manifest doesn't contain info about package.
    PackageNotFound(String),
    /// Error when reading manifest: the manifest's path and what went wrong.
    ReadManifest(String, String),
    /// Can't query path to manifest of current crate.
    EnvNotSet(String),
}

/// The mathematical form of a [`ManifestError`].
pub enum ManifestFailure {
    PackageNotFound(Seq<char>),
    ReadManifest(Seq<char>, Seq<char>),
    EnvNotSet(Seq<char>),
}

/// The mathematical form of a [`TestBinaryError`]. An I/O error is opaque.
pub enum Failure {
    NonCargoRun(Seq<char>),
    CargoRunError,
    CargoFailure(Seq<char>),
    BuildError(Seq<char>),
    BinaryNotBuilt(Seq<char>),
    Manifest(ManifestFailure),
    InconsistentOutcome,
}

impl View for ManifestError {
    type V = ManifestFailure;

    open spec fn view(&self) -> ManifestFailure {
        match self {
            ManifestError::PackageNotFound(n) => ManifestFailure::PackageNotFound(n@),
            ManifestError::ReadManifest(p, e) => ManifestFailure::ReadManifest(p@, e@),
            ManifestError::EnvNotSet(e) => ManifestFailure::EnvNotSet(e@),
        }
    }
}

impl View for TestBinaryError {
    type V = Failure;

    open spec fn view(&self) -> Failure {
        match self {
            TestBinaryError::NonCargoRun(m) => Failure::NonCargoRun(m@),
            TestBinaryError::CargoRunError(_) => Failure::CargoRunError,
            TestBinaryError::CargoFailure(m) => Failure::CargoFailure(m@),
            TestBinaryError::BuildError(m) => Failure::BuildError(m@),
            TestBinaryError::BinaryNotBuilt(n) => Failure::BinaryNotBuilt(n@),
            TestBinaryError::ManifestError(e) => Failure::Manifest(e@),
            TestBinaryError::InconsistentOutcome => Failure::InconsistentOutcome,
        }
    }
}

/// The mathematical form of a path or an error.
pub open spec fn result_view(r: Result<String, TestBinaryError>) -> Result<Seq<char>, Failure> {
    match r {
        Ok(p) => Ok(p@),
        Err(e) => Err(e@),
    }
}

/// The mathematical form of a scan's outcome, if there is one.
pub open spec fn outcome_view(o: Option<Result<String, TestBinaryError>>) -> Option<
    Result<Seq<char>, Failure>,
> {
    match o {
        Some(r) => Some(result_view(r)),
        None => None,
    }
}

} // verus!
