//! A package behind a URL.

use vstd::prelude::*;
use crate::error::{ErrorView, PackageError};
use crate::pack::archive::{gunzip, gzip_decoded, PackFile};
use crate::pack::tarball::{read_outcome, PackFs, TarballPack};
use crate::package::{PackageSpec, SpecView};
use crate::transport::{accept_archive, archive_body, body_view, threaded_http, FetchOutcome, FetchView};

verus! {

/// A package that is fetched from a URL as a gzip-compressed tar archive.
#[derive(Debug, PartialEq, Eq)]
pub struct HttpPack {
    /// The package that the archive holds.
    pub specifier: PackageSpec,
    /// The URL of the archive.
    pub url: String,
}

/// The text of the error that is given where no request could be started.
pub open spec fn no_context_detail() -> Seq<char> {
    "cannot spawn http thread"@
}

/// The view of the outcome of a request that may not have been started.
pub open spec fn attempt_view(outcome: Option<FetchOutcome>) -> Option<FetchView> {
    match outcome {
        Some(o) => Some(o@),
        None => None,
    }
}

/// What the decompressed archive of `spec` is, given the outcome of the
/// request for it. A request that could not be started is an error of the
/// environment. An answer is judged by its status. A body that is no gzip
/// stream is a malformed archive.
pub open spec fn fetched_archive(spec: SpecView, outcome: Option<FetchView>) -> Result<
    Seq<u8>,
    ErrorView,
> {
    match outcome {
        None => Err(ErrorView::Other(Some(no_context_detail()))),
        Some(o) => match archive_body(spec, o) {
            Err(err) => Err(err),
            Ok(body) => match gzip_decoded(body) {
                Err(detail) => Err(ErrorView::MalformedArchive(Some(detail))),
                Ok(tar) => Ok(tar),
            },
        },
    }
}

/// What reading the package `spec` with the visitor `f` may end in, given
/// the outcome of the request for its archive. Where the archive cannot be
/// had, the error says why and nothing is visited. Else the tar stream in
/// it is read as `read_outcome` says.
pub open spec fn fetched_read_outcome<F>(
    f: F,
    spec: SpecView,
    outcome: Option<FetchView>,
    r: Result<(), PackageError>,
) -> bool where F: FnMut(&String, &PackFile) -> Result<(), PackageError> {
    match fetched_archive(spec, outcome) {
        Err(err) => r matches Err(e) && e@ == err,
        Ok(tar) => read_outcome(f, tar, r),
    }
}

/// Judges the outcome of the request for the archive of `spec` and
/// decompresses the body.
pub fn open_archive(spec: &PackageSpec, outcome: Option<FetchOutcome>) -> (r: Result<
    Vec<u8>,
    PackageError,
>)
    ensures
        body_view(r) == fetched_archive(spec@, attempt_view(outcome)),
{
    let judge = |o: FetchOutcome| -> (res: Result<Vec<u8>, PackageError>)
        ensures
            body_view(res) == archive_body(spec@, o@),
        { accept_archive(spec, o) };
    let judged = threaded_http(outcome, judge);
    match judged {
        None => Err(PackageError::Other(Some(String::from_str("cannot spawn http thread")))),
        Some(Err(err)) => Err(err),
        Some(Ok(body)) => match gunzip(&body) {
            Err(detail) => Err(PackageError::MalformedArchive(Some(detail))),
            Ok(tar) => Ok(tar),
        },
    }
}

impl Clone for HttpPack {
    fn clone(&self) -> (r: Self)
        ensures
            r == *self,
    {
        HttpPack { specifier: self.specifier.clone(), url: self.url.clone() }
    }
}

impl HttpPack {
    /// The package `specifier`, to be fetched from `url`.
    pub fn new(specifier: PackageSpec, url: String) -> (r: Self)
        ensures
            r == (HttpPack { specifier, url }),
    {
        HttpPack { specifier, url }
    }

    /// Hands every file of the package to the visitor `f`. `outcome` is
    /// what the GET request for `self.url` brought back, `None` where it
    /// could not be started.
    pub fn read_all<F>(&mut self, outcome: Option<FetchOutcome>, f: &mut F) -> (r: Result<
        (),
        PackageError,
    >) where F: FnMut(&String, &PackFile) -> Result<(), PackageError>
        requires
            forall|name: &String, file: &PackFile| call_requires(*old(f), (name, file)),
        ensures
            *final(self) == *old(self),
            *final(f) == *old(f),
            fetched_read_outcome(*old(f), old(self).specifier@, attempt_view(outcome), r),
    {
        match open_archive(&self.specifier, outcome) {
            Err(err) => Err(err),
            Ok(tar) => {
                let mut tarball = TarballPack::new(tar);
                tarball.read_all(f)
            },
        }
    }
}

} // verus!
