//! Package identifiers.

use vstd::prelude::*;
use crate::version::PackageVersion;

verus! {

/// Identifies one version of a package.
#[derive(Debug, PartialEq, Eq, Hash)]
pub struct PackageSpec {
    /// The namespace the package lives in.
    pub namespace: String,
    /// The name of the package within its namespace.
    pub name: String,
    /// The version of the package.
    pub version: PackageVersion,
}

/// Identifies a package without saying which version of it.
#[derive(Debug, PartialEq, Eq, Hash)]
pub struct VersionlessPackageSpec {
    /// The namespace the package lives in.
    pub namespace: String,
    /// The name of the package within its namespace.
    pub name: String,
}

/// A package identifier as a mathematical value.
pub struct SpecView {
    pub namespace: Seq<char>,
    pub name: Seq<char>,
    pub version: PackageVersion,
}

/// A versionless package identifier as a mathematical value.
pub struct VersionlessView {
    pub namespace: Seq<char>,
    pub name: Seq<char>,
}

/// The namespace of the curated registry, the only one whose packages are
/// fetched over the network.
pub const CURATED_NAMESPACE: &'static str = "preview";

impl SpecView {
    /// The package lives in the curated namespace.
    pub open spec fn is_curated(self) -> bool {
        self.namespace == CURATED_NAMESPACE@
    }

    /// The directory of the package below a root:
    /// `{namespace}/{name}/{version}`.
    pub open spec fn subdir(self) -> Seq<char> {
        self.namespace + seq!['/'] + self.name + seq!['/'] + self.version.text()
    }

    /// The identifier without its version.
    pub open spec fn versionless(self) -> VersionlessView {
        VersionlessView { namespace: self.namespace, name: self.name }
    }
}

impl VersionlessView {
    /// The package lives in the curated namespace.
    pub open spec fn is_curated(self) -> bool {
        self.namespace == CURATED_NAMESPACE@
    }

    /// The directory below a root that holds the versions of the package:
    /// `{namespace}/{name}`.
    pub open spec fn subdir(self) -> Seq<char> {
        self.namespace + seq!['/'] + self.name
    }

    /// The identifier as it is written: `@{namespace}/{name}`.
    pub open spec fn text(self) -> Seq<char> {
        seq!['@'] + self.namespace + seq!['/'] + self.name
    }
}

impl View for PackageSpec {
    type V = SpecView;

    open spec fn view(&self) -> SpecView {
        SpecView { namespace: self.namespace@, name: self.name@, version: self.version }
    }
}

impl DeepView for PackageSpec {
    type V = SpecView;

    open spec fn deep_view(&self) -> SpecView {
        self@
    }
}

impl View for VersionlessPackageSpec {
    type V = VersionlessView;

    open spec fn view(&self) -> VersionlessView {
        VersionlessView { namespace: self.namespace@, name: self.name@ }
    }
}

impl DeepView for VersionlessPackageSpec {
    type V = VersionlessView;

    open spec fn deep_view(&self) -> VersionlessView {
        self@
    }
}

impl Clone for PackageSpec {
    fn clone(&self) -> (r: Self)
        ensures
            r == *self,
    {
        PackageSpec {
            namespace: self.namespace.clone(),
            name: self.name.clone(),
            version: self.version,
        }
    }
}

impl Clone for VersionlessPackageSpec {
    fn clone(&self) -> (r: Self)
        ensures
            r == *self,
    {
        VersionlessPackageSpec { namespace: self.namespace.clone(), name: self.name.clone() }
    }
}

/// Tells whether `namespace` is the curated one.
pub fn is_curated_namespace(namespace: &String) -> (r: bool)
    ensures
        r == (namespace@ == CURATED_NAMESPACE@),
{
    let curated = String::from_str(CURATED_NAMESPACE);
    *namespace == curated
}

impl PackageSpec {
    /// Makes an identifier of its parts.
    pub fn new(namespace: String, name: String, version: PackageVersion) -> (r: Self)
        ensures
            r == (PackageSpec { namespace, name, version }),
    {
        PackageSpec { namespace, name, version }
    }

    /// Tells whether the package lives in the curated namespace.
    pub fn is_curated(&self) -> (r: bool)
        ensures
            r == self@.is_curated(),
    {
        is_curated_namespace(&self.namespace)
    }

    /// The identifier without its version.
    pub fn versionless(&self) -> (r: VersionlessPackageSpec)
        ensures
            r@ == self@.versionless(),
    {
        VersionlessPackageSpec { namespace: self.namespace.clone(), name: self.name.clone() }
    }

    /// The directory of the package below a root.
    pub fn subdir(&self) -> (r: String)
        ensures
            r@ == self@.subdir(),
    {
        proof {
            reveal_strlit("/");
        }
        let mut out = self.namespace.clone();
        out.append("/");
        out.append(self.name.as_str());
        out.append("/");
        self.version.push_text(&mut out);
        assert(out@ =~= self@.subdir());
        out
    }
}

impl VersionlessPackageSpec {
    /// Makes an identifier of its parts.
    pub fn new(namespace: String, name: String) -> (r: Self)
        ensures
            r == (VersionlessPackageSpec { namespace, name }),
    {
        VersionlessPackageSpec { namespace, name }
    }

    /// Tells whether the package lives in the curated namespace.
    pub fn is_curated(&self) -> (r: bool)
        ensures
            r == self@.is_curated(),
    {
        is_curated_namespace(&self.namespace)
    }

    /// Fills in the version.
    pub fn at(&self, version: PackageVersion) -> (r: PackageSpec)
        ensures
            r@.versionless() == self@,
            r@.version == version,
    {
        PackageSpec { namespace: self.namespace.clone(), name: self.name.clone(), version }
    }

    /// The directory below a root that holds the versions of the package.
    pub fn subdir(&self) -> (r: String)
        ensures
            r@ == self@.subdir(),
    {
        proof {
            reveal_strlit("/");
        }
        let mut out = self.namespace.clone();
        out.append("/");
        out.append(self.name.as_str());
        assert(out@ =~= self@.subdir());
        out
    }

    /// The identifier as it is written.
    pub fn to_text(&self) -> (r: String)
        ensures
            r@ == self@.text(),
    {
        proof {
            reveal_strlit("@");
            reveal_strlit("/");
        }
        let mut out = String::from_str("@");
        out.append(self.namespace.as_str());
        out.append("/");
        out.append(self.name.as_str());
        assert(out@ =~= self@.text());
        out
    }
}

} // verus!
