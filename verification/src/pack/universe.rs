//! A package of the curated registry.

use vstd::prelude::*;
use crate::error::PackageError;
use crate::pack::archive::PackFile;
use crate::pack::http::{attempt_view, fetched_read_outcome, HttpPack};
use crate::package::PackageSpec;
use crate::registry::{registry_tarball_url, tarball_url};
use crate::transport::FetchOutcome;

verus! {

/// A package in the curated registry.
#[derive(Debug, PartialEq, Eq)]
pub struct UniversePack {
    /// The package.
    pub specifier: PackageSpec,
}

impl Clone for UniversePack {
    fn clone(&self) -> (r: Self)
        ensures
            r == *self,
    {
        UniversePack { specifier: self.specifier.clone() }
    }
}

impl UniversePack {
    /// The package `specifier` of the curated registry.
    pub fn new(specifier: PackageSpec) -> (r: Self)
        ensures
            r == (UniversePack { specifier }),
    {
        UniversePack { specifier }
    }

    /// The URL that the archive of the package is fetched from.
    pub fn url(&self) -> (r: String)
        ensures
            r@ == tarball_url(self.specifier@),
    {
        registry_tarball_url(&self.specifier)
    }

    /// Hands every file of the package to the visitor `f`. `outcome` is
    /// what the GET request for `self.url()` brought back, `None` where it
    /// could not be started. The package must be one of the curated
    /// namespace.
    pub fn read_all<F>(&mut self, outcome: Option<FetchOutcome>, f: &mut F) -> (r: Result<
        (),
        PackageError,
    >) where F: FnMut(&String, &PackFile) -> Result<(), PackageError>
        requires
            old(self).specifier@.is_curated(),
            forall|name: &String, file: &PackFile| call_requires(*old(f), (name, file)),
        ensures
            *final(self) == *old(self),
            *final(f) == *old(f),
            fetched_read_outcome(*old(f), old(self).specifier@, attempt_view(outcome), r),
    {
        let url = self.url();
        let mut pack = HttpPack::new(self.specifier.clone(), url);
        pack.read_all(outcome, f)
    }
}

} // verus!
