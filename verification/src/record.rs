//! The data model of the recorded installation manifest: package identities,
//! per-package install information, and the records the planner works on.

use vstd::prelude::*;

verus! {

/// An exact package version: major.minor.patch plus a pre-release tag
/// (empty when the version is a plain release).
#[derive(Debug)]
pub struct VersionNumber {
    pub major: u64,
    pub minor: u64,
    pub patch: u64,
    pub pre: String,
}

impl VersionNumber {
    /// A structurally equal copy.
    pub fn dup(&self) -> (r: VersionNumber)
        ensures
            r == *self,
    {
        VersionNumber {
            major: self.major,
            minor: self.minor,
            patch: self.patch,
            pre: self.pre.clone(),
        }
    }
}

/// What identifies one previously-installed package: its name, the exact
/// version that was installed, and the source it was fetched from.
#[derive(Debug)]
pub struct PackageIdentity {
    pub name: String,
    pub version: VersionNumber,
    pub source: String,
}

impl PackageIdentity {
    /// A structurally equal copy.
    pub fn dup(&self) -> (r: PackageIdentity)
        ensures
            r == *self,
    {
        PackageIdentity {
            name: self.name.clone(),
            version: self.version.dup(),
            source: self.source.clone(),
        }
    }
}

/// How one package was installed: which binaries it produced and the build
/// configuration it was built with.
#[derive(Debug)]
pub struct InstallInfo {
    /// Names of the binaries this package installed.
    pub bins: Vec<String>,
    /// Names of the features that were enabled.
    pub features: Vec<String>,
    pub all_features: bool,
    pub no_default_features: bool,
    /// The build profile, e.g. a release-like profile. Never empty.
    pub profile: String,
    /// The recorded target triple; `None` means the builder's default.
    pub target: Option<String>,
}

/// One entry of the manifest: a package identity together with how it was
/// installed.
#[derive(Debug)]
pub struct InstallRecord {
    pub identity: PackageIdentity,
    pub info: InstallInfo,
}

/// An element-wise copy of a vector of strings.
pub(crate) fn dup_strings(v: &Vec<String>) -> (r: Vec<String>)
    ensures
        r@ == v@,
{
    let mut r: Vec<String> = Vec::new();
    let mut i: usize = 0;
    while i < v.len()
        invariant
            i <= v@.len(),
            r@ == v@.subrange(0, i as int),
        decreases v@.len() - i,
    {
        r.push(v[i].clone());
        proof {
            assert(r@ =~= v@.subrange(0, i + 1 as int));
        }
        i += 1;
    }
    proof {
        assert(r@ =~= v@);
    }
    r
}

} // verus!
