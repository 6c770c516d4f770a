//! The test binary to build: which binary, from which manifest, with which
//! profile and features, and the Cargo command line that asks for it.

use crate::error::{result_view, Failure, ManifestFailure, ManifestError, TestBinaryError};
use crate::event::strings_view;
use crate::run::{reconcile, reconciled};
use crate::stream::{events_of_lines, process_messages, scan_outcome};
use vstd::prelude::*;

verus! {

/// The path that `std::path::Path::join` makes of `base` and `path`.
pub uninterp spec fn joined_path(base: Seq<char>, path: Seq<char>) -> Seq<char>;

/// Relies on `std::path::Path::join`: `path` appended to `base`, or `path`
/// alone where it is absolute. Both are UTF-8, so the result is too.
#[verifier::external_body]
fn join_path(base: &str, path: &str) -> (r: String)
    ensures
        r@ == joined_path(base@, path@),
{
    std::path::Path::new(base).join(path).to_string_lossy().into_owned()
}

/// A package of a Cargo workspace: its name and the path of its manifest.
#[derive(Debug)]
pub struct WorkspacePackage {
    pub name: String,
    pub manifest_path: String,
}

/// Builder constructor for a test binary.
///
/// `binary` is the name of the binary in the child project's manifest, and
/// `manifest` the path of that manifest.
#[derive(Debug)]
pub struct TestBinary<'a> {
    binary: &'a str,
    manifest: String,
    features: Vec<&'a str>,
    default_features: bool,
    profile: Option<&'a str>,
}

/// The mathematical form of a [`TestBinary`].
pub struct TestBinaryView {
    pub binary: Seq<char>,
    pub manifest: Seq<char>,
    pub features: Seq<Seq<char>>,
    pub default_features: bool,
    pub profile: Option<Seq<char>>,
}

impl<'a> View for TestBinary<'a> {
    type V = TestBinaryView;

    closed spec fn view(&self) -> TestBinaryView {
        TestBinaryView {
            binary: self.binary@,
            manifest: self.manifest@,
            features: self.features@.map_values(|f: &str| f@),
            default_features: self.default_features,
            profile: match self.profile {
                Some(p) => Some(p@),
                None => None,
            },
        }
    }
}

/// A test binary as it stands before any builder method: all default
/// features, no profile and no extra feature.
pub open spec fn fresh_binary(binary: Seq<char>, manifest: Seq<char>) -> TestBinaryView {
    TestBinaryView {
        binary,
        manifest,
        features: seq![],
        default_features: true,
        profile: None,
    }
}

/// The index of the first package of `packages` named `name`, or the length
/// of `packages` where none is.
pub open spec fn package_index(packages: Seq<WorkspacePackage>, name: Seq<char>) -> nat
    decreases packages.len(),
{
    if packages.len() == 0 || packages[0].name@ == name {
        0
    } else {
        1 + package_index(packages.drop_first(), name)
    }
}

/// The arguments that ask Cargo for one feature each.
pub open spec fn feature_args(features: Seq<Seq<char>>) -> Seq<Seq<char>>
    decreases features.len(),
{
    if features.len() == 0 {
        seq![]
    } else {
        feature_args(features.drop_last()) + seq!["--features"@, features.last()]
    }
}

/// The arguments of the Cargo command that builds `t`, with JSON messages.
pub open spec fn cargo_args_of(t: TestBinaryView) -> Seq<Seq<char>> {
    seq![
        "build"@,
        "--message-format=json"@,
        "-q"@,
        "--manifest-path"@,
        t.manifest,
        "--bin"@,
        t.binary,
    ] + match t.profile {
        Some(p) => seq!["--profile"@, p],
        None => seq![],
    } + if t.default_features {
        seq![]
    } else {
        seq!["--no-default-features"@]
    } + feature_args(t.features)
}

proof fn lemma_package_index(packages: Seq<WorkspacePackage>, name: Seq<char>, i: int)
    requires
        0 <= i <= packages.len(),
        forall|j: int| 0 <= j < i ==> #[trigger] packages[j].name@ != name,
        i < packages.len() ==> packages[i].name@ == name,
    ensures
        package_index(packages, name) == i,
    decreases i,
{
    if i > 0 {
        assert forall|j: int| 0 <= j < i - 1 implies #[trigger] packages.drop_first()[j].name@
            != name by {
            assert(packages.drop_first()[j] == packages[j + 1]);
        }
        lemma_package_index(packages.drop_first(), name, i - 1);
    }
}

/// The first package of `packages` named `name`.
fn find_package(packages: &Vec<WorkspacePackage>, name: &str) -> (r: Option<usize>)
    ensures
        match r {
            Some(i) => i == package_index(packages@, name@) && i < packages@.len(),
            None => package_index(packages@, name@) == packages@.len(),
        },
{
    let wanted = String::from_str(name);
    let mut i: usize = 0;
    while i < packages.len()
        invariant
            i <= packages.len(),
            wanted@ == name@,
            forall|j: int| 0 <= j < i ==> #[trigger] packages@[j].name@ != name@,
        decreases packages.len() - i,
    {
        if packages[i].name == wanted {
            proof {
                lemma_package_index(packages@, name@, i as int);
            }
            return Some(i);
        }
        i += 1;
    }
    proof {
        lemma_package_index(packages@, name@, i as int);
    }
    None
}

impl<'a> TestBinary<'a> {
    /// Creates a new `TestBinary` by specifying the child binary's manifest
    /// relative to the parent's directory `parent_dir`.
    pub fn relative_to_parent(name: &'a str, parent_dir: &str, manifest: &str) -> (r: Self)
        ensures
            r@ == fresh_binary(name@, joined_path(parent_dir@, manifest@)),
    {
        let manifest_path = join_path(parent_dir, manifest);
        let r = TestBinary {
            binary: name,
            manifest: manifest_path,
            features: Vec::new(),
            default_features: true,
            profile: None,
        };
        assert(r@.features =~= seq![]);
        r
    }

    /// Finds the binary among the packages of the workspace and creates a
    /// `TestBinary` from the manifest of the first package of that name.
    pub fn from_workspace(name: &'a str, packages: &Vec<WorkspacePackage>) -> (r: Result<
        Self,
        TestBinaryError,
    >)
        ensures
            package_index(packages@, name@) < packages@.len() ==> (r matches Ok(t) && t@
                == fresh_binary(name@, packages@[package_index(packages@, name@) as int].manifest_path@)),
            package_index(packages@, name@) == packages@.len() ==> (r matches Err(e) && e@
                == Failure::Manifest(ManifestFailure::PackageNotFound(name@))),
    {
        match find_package(packages, name) {
            Some(i) => {
                let r = TestBinary {
                    binary: name,
                    manifest: packages[i].manifest_path.clone(),
                    features: Vec::new(),
                    default_features: true,
                    profile: None,
                };
                assert(r@.features =~= seq![]);
                Ok(r)
            },
            None => Err(
                TestBinaryError::ManifestError(ManifestError::PackageNotFound(String::from_str(name))),
            ),
        }
    }

    /// Specifies a profile to build the test binary with.
    pub fn with_profile(&mut self, profile: &'a str) -> (r: &mut Self)
        ensures
            (*r)@ == (TestBinaryView { profile: Some(profile@), ..old(self)@ }),
            *final(self) == *final(r),
    {
        self.profile = Some(profile);
        self
    }

    /// Specifies not to enable default features.
    pub fn no_default_features(&mut self) -> (r: &mut Self)
        ensures
            (*r)@ == (TestBinaryView { default_features: false, ..old(self)@ }),
            *final(self) == *final(r),
    {
        self.default_features = false;
        self
    }

    /// Specifies a feature to enable for the test binary. These are additive,
    /// so if you call this multiple times all the features you specify will be
    /// enabled.
    pub fn with_feature(&mut self, feature: &'a str) -> (r: &mut Self)
        ensures
            (*r)@ == (TestBinaryView { features: old(self)@.features.push(feature@), ..old(self)@ }),
            *final(self) == *final(r),
    {
        self.features.push(feature);
        assert(self@.features =~= old(self)@.features.push(feature@));
        self
    }

    /// The name of the binary to build.
    pub fn binary(&self) -> (r: &'a str)
        ensures
            r@ == self@.binary,
    {
        self.binary
    }

    /// The path of the manifest that holds the binary.
    pub fn manifest(&self) -> (r: &str)
        ensures
            r@ == self@.manifest,
    {
        self.manifest.as_str()
    }

    /// The arguments to give Cargo so that it builds the binary and reports
    /// on the build in JSON, one message per line.
    pub fn cargo_args(&self) -> (r: Vec<String>)
        ensures
            strings_view(r@) == cargo_args_of(self@),
    {
        let mut args: Vec<String> = Vec::new();
        args.push(String::from_str("build"));
        args.push(String::from_str("--message-format=json"));
        args.push(String::from_str("-q"));
        args.push(String::from_str("--manifest-path"));
        args.push(self.manifest.clone());
        args.push(String::from_str("--bin"));
        args.push(String::from_str(self.binary));
        if let Some(profile) = self.profile {
            args.push(String::from_str("--profile"));
            args.push(String::from_str(profile));
        }
        if !self.default_features {
            args.push(String::from_str("--no-default-features"));
        }
        let ghost head = strings_view(args@);
        assert(head == cargo_args_of(self@).take(head.len() as int)) by {
            assert(feature_args(seq![]) == Seq::<Seq<char>>::empty());
        }
        let mut i: usize = 0;
        while i < self.features.len()
            invariant
                i <= self.features.len(),
                strings_view(args@) == head + feature_args(self@.features.take(i as int)),
            decreases self.features.len() - i,
        {
            let ghost before = strings_view(args@);
            let flag = String::from_str("--features");
            let feature = String::from_str(self.features[i]);
            args.push(flag);
            args.push(feature);
            proof {
                let fs = self@.features;
                assert(fs.take(i + 1).drop_last() =~= fs.take(i as int));
                assert(fs.take(i + 1).last() == fs[i as int]);
                assert(feature@ == fs[i as int]);
                assert(strings_view(args@) =~= before + seq!["--features"@, fs[i as int]]);
                assert(strings_view(args@) =~= head + feature_args(fs.take(i + 1)));
            }
            i += 1;
        }
        assert(self@.features.take(i as int) =~= self@.features);
        assert(strings_view(args@) =~= cargo_args_of(self@));
        args
    }

    /// The result of a build of the binary, from what Cargo reported: the
    /// lines of its JSON message stream, what it wrote as free text to its
    /// error channel, and whether it exited with success.
    pub fn build_result(&self, stdout_lines: &Vec<String>, stderr: String, exit_success: bool) -> (r:
        Result<String, TestBinaryError>)
        ensures
            result_view(r) == reconciled(
                exit_success,
                scan_outcome(events_of_lines(stdout_lines@), self@.binary),
                stderr@,
            ),
    {
        let outcome = process_messages(stdout_lines, self.binary);
        reconcile(exit_success, outcome, stderr)
    }
}

} // verus!
