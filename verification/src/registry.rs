//! The resolution engine and the registries that wrap it.

pub mod browser;
pub mod dummy;
pub mod http;
pub mod index;
pub mod laws;
pub mod model;
pub mod step;
pub mod storage;

use vstd::prelude::*;
use crate::package::{PackageSpec, SpecView};

verus! {

/// The address of the curated registry.
pub const DEFAULT_REGISTRY: &'static str = "https://packages.typst.org";

/// The directory, below the cache and data directories of the platform,
/// that packages are kept in by default.
pub const DEFAULT_PACKAGES_SUBDIR: &'static str = "typst/packages";

/// The URL of the index of the curated registry.
pub open spec fn index_url() -> Seq<char> {
    DEFAULT_REGISTRY@ + "/preview/index.json"@
}

/// The URL of the archive of a package in the curated registry:
/// `{registry}/preview/{name}-{version}.tar.gz`.
pub open spec fn tarball_url(spec: SpecView) -> Seq<char> {
    DEFAULT_REGISTRY@ + "/preview/"@ + spec.name + "-"@ + spec.version.text() + ".tar.gz"@
}

/// The URL of the index of the curated registry.
pub fn registry_index_url() -> (r: String)
    ensures
        r@ == index_url(),
{
    let mut out = String::from_str(DEFAULT_REGISTRY);
    out.append("/preview/index.json");
    out
}

/// The URL of the archive of `spec` in the curated registry.
pub fn registry_tarball_url(spec: &PackageSpec) -> (r: String)
    ensures
        r@ == tarball_url(spec@),
{
    let mut out = String::from_str(DEFAULT_REGISTRY);
    out.append("/preview/");
    out.append(spec.name.as_str());
    out.append("-");
    spec.version.push_text(&mut out);
    out.append(".tar.gz");
    out
}

} // verus!
