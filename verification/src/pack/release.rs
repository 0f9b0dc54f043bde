//! A package among the releases of a GitHub repository.

use vstd::prelude::*;
use crate::error::PackageError;
use crate::pack::archive::PackFile;
use crate::pack::http::{attempt_view, fetched_read_outcome, HttpPack};
use crate::package::PackageSpec;
use crate::transport::FetchOutcome;

verus! {

/// A package published as an asset of the latest release of a GitHub
/// repository.
#[derive(Debug, PartialEq, Eq)]
pub struct GitHubReleasePack {
    /// The package.
    pub specifier: PackageSpec,
    /// The repository, as `{owner}/{repository}`.
    pub repo: String,
    /// The name of the asset.
    pub name: String,
}

/// The URL of the asset `name` of the latest release of `repo`:
/// `https://api.github.com/repos/{repo}/releases/latest/{name}`.
pub open spec fn release_url(repo: Seq<char>, name: Seq<char>) -> Seq<char> {
    "https://api.github.com/repos/"@ + repo + "/releases/latest/"@ + name
}

impl Clone for GitHubReleasePack {
    fn clone(&self) -> (r: Self)
        ensures
            r == *self,
    {
        GitHubReleasePack {
            specifier: self.specifier.clone(),
            repo: self.repo.clone(),
            name: self.name.clone(),
        }
    }
}

impl GitHubReleasePack {
    /// The URL that the archive of the package is fetched from.
    pub fn url(&self) -> (r: String)
        ensures
            r@ == release_url(self.repo@, self.name@),
    {
        let mut out = String::from_str("https://api.github.com/repos/");
        out.append(self.repo.as_str());
        out.append("/releases/latest/");
        out.append(self.name.as_str());
        out
    }

    /// Hands every file of the package to the visitor `f`. `outcome` is
    /// what the GET request for `self.url()` brought back, `None` where it
    /// could not be started.
    pub fn read_all<F>(&mut self, outcome: Option<FetchOutcome>, f: &mut F) -> (r: Result<
        (),
        PackageError,
    >) where F: FnMut(&String, &PackFile) -> Result<(), PackageError>
        requires
            forall|name: &String, file: &PackFile| call_requires(*old(f), (name, file)),
        ensures
            *final(self) == *old(self),
            *final(f) == *old(f),
            fetched_read_outcome(*old(f), old(self).specifier@, attempt_view(outcome), r),
    {
        let url = self.url();
        let mut pack = HttpPack::new(self.specifier.clone(), url);
        pack.read_all(outcome, f)
    }
}

} // verus!
