//! The package storage: two directory roots, the index of the curated
//! registry, and the operations on them.

use vstd::prelude::*;
use crate::error::{clone_detail, ErrorView, PackageError};
use crate::pack::archive::gunzip;
use crate::package::{PackageSpec, VersionlessPackageSpec};
use crate::path::{clone_path, PackagePath, PathView};
use crate::registry::index::{
    index_from_records,
    latest_in_index,
    latest_in_listing,
    IndexEntry,
    IndexEntryView,
};
use crate::registry::model::{
    download_step,
    fetch_failure_detail,
    index_step,
    latest_indexing,
    latest_step,
    parse_failure_detail,
    resolve_downloading,
    resolve_in_cache,
    resolve_step,
    DownloadState,
    IndexState,
    LatestState,
    ResolveState,
    StorageView,
};
use crate::registry::step::{Event, Move, Request, RequestView, Step};
use crate::registry::{registry_index_url, registry_tarball_url};
use crate::transport::{
    accept_archive,
    archive_body,
    body_view,
    status_is_success,
    status_text,
    threaded_http,
    FetchOutcome,
};
use crate::version::PackageVersion;

verus! {

/// Holds where packages are kept and what the curated registry offers, and
/// says step by step how a package is made available.
pub struct PackageStorage {
    /// The directory that downloaded packages are kept in.
    package_cache_path: Option<PackagePath>,
    /// The directory that local packages are kept in.
    package_path: Option<PackagePath>,
    /// The file that holds a root certificate to trust.
    cert_path: Option<String>,
    /// The index of the curated registry, once it has been asked for.
    index: Option<Vec<IndexEntry>>,
}

impl View for PackageStorage {
    type V = StorageView;

    closed spec fn view(&self) -> StorageView {
        StorageView {
            cache_root: self.package_cache_path.deep_view(),
            local_root: self.package_path.deep_view(),
            cert_path: self.cert_path.deep_view(),
            index: self.index.deep_view(),
        }
    }
}

/// The step of a download as a mathematical value: the result is `None`
/// where the download went well.
pub open spec fn download_move(step: Step<Result<(), PackageError>>) -> Move<Option<ErrorView>> {
    match step {
        Step::Ask(request) => Move::Ask(request@),
        Step::Done(Ok(_)) => Move::Done(None),
        Step::Done(Err(err)) => Move::Done(Some(err@)),
    }
}

/// The step of a resolution as a mathematical value.
pub open spec fn resolve_move(step: Step<Result<PackagePath, PackageError>>) -> Move<
    Result<PathView, ErrorView>,
> {
    match step {
        Step::Ask(request) => Move::Ask(request@),
        Step::Done(Ok(path)) => Move::Done(Ok(path@)),
        Step::Done(Err(err)) => Move::Done(Err(err@)),
    }
}

/// The step of the making of the index as a mathematical value.
pub open spec fn index_move(step: Step<()>) -> Move<()> {
    match step {
        Step::Ask(request) => Move::Ask(request@),
        Step::Done(_) => Move::Done(()),
    }
}

/// The step of the search for the latest version as a mathematical value.
pub open spec fn latest_move(step: Step<Result<PackageVersion, String>>) -> Move<
    Result<PackageVersion, Seq<char>>,
> {
    match step {
        Step::Ask(request) => Move::Ask(request@),
        Step::Done(Ok(version)) => Move::Done(Ok(version)),
        Step::Done(Err(detail)) => Move::Done(Err(detail@)),
    }
}

/// The error that answers an event that the operation does not wait for.
fn unexpected() -> (r: PackageError)
    ensures
        r@ == ErrorView::Other(Some(crate::registry::model::unexpected_detail())),
{
    PackageError::Other(Some(String::from_str("unexpected event")))
}

impl PackageStorage {
    /// A storage with the given roots, either of which may be left out,
    /// that has not asked for the index yet.
    pub fn new(
        package_cache_path: Option<PackagePath>,
        package_path: Option<PackagePath>,
        cert_path: Option<String>,
    ) -> (r: Self)
        ensures
            r@ == (StorageView {
                cache_root: package_cache_path.deep_view(),
                local_root: package_path.deep_view(),
                cert_path: cert_path.deep_view(),
                index: None,
            }),
    {
        PackageStorage { package_cache_path, package_path, cert_path, index: None }
    }

    /// The directory that downloaded packages are kept in.
    pub fn package_cache_path(&self) -> (r: Option<&PackagePath>)
        ensures
            r.deep_view() == self@.cache_root,
    {
        self.package_cache_path.as_ref()
    }

    /// The directory that local packages are kept in.
    pub fn package_path(&self) -> (r: Option<&PackagePath>)
        ensures
            r.deep_view() == self@.local_root,
    {
        self.package_path.as_ref()
    }

    /// The file that holds a root certificate to trust.
    pub fn cert_path(&self) -> (r: Option<&String>)
        ensures
            r.deep_view() == self@.cert_path,
    {
        self.cert_path.as_ref()
    }

    /// The index of the curated registry, `None` where it has not been
    /// asked for yet. Nothing is fetched.
    pub fn cached_index(&self) -> (r: Option<&Vec<IndexEntry>>)
        ensures
            r.deep_view() == self@.index,
    {
        self.index.as_ref()
    }

    /// Offers `entries` as the index. They are taken where there is no
    /// index yet, and dropped where there is one.
    pub fn memoize_index(&mut self, entries: Vec<IndexEntry>)
        ensures
            final(self)@ == old(self)@.memoizing(entries.deep_view()),
    {
        if self.index.is_none() {
            self.index = Some(entries);
        }
    }

    /// Offers what `make` returns as the index. Where there is an index
    /// already, it stays and `make` is not called.
    pub fn index_get_or_init<F>(&mut self, make: F) where F: FnOnce() -> Vec<IndexEntry>
        requires
            call_requires(make, ()),
        ensures
            old(self)@.index is Some ==> final(self)@ == old(self)@,
            old(self)@.index is None ==> exists|entries: Vec<IndexEntry>|
                call_ensures(make, (), entries) && final(self)@ == old(self)@.memoizing(
                    #[trigger] entries.deep_view(),
                ),
    {
        if self.index.is_none() {
            let entries = make();
            self.memoize_index(entries);
        }
    }

    /// Offers the empty index.
    fn memoize_empty(&mut self)
        ensures
            final(self)@ == old(self)@.memoizing(Seq::empty()),
    {
        let entries: Vec<IndexEntry> = Vec::new();
        assert(entries.deep_view() =~= Seq::<IndexEntryView>::empty());
        self.memoize_index(entries);
    }

    /// One step of the download of `spec` into `package_dir`. The package
    /// must be one of the curated namespace.
    pub fn download_package(
        &mut self,
        spec: &PackageSpec,
        package_dir: &PackagePath,
        state: DownloadState,
        event: Event,
    ) -> (r: (DownloadState, Step<Result<(), PackageError>>))
        requires
            spec@.is_curated(),
        ensures
            (final(self)@, r.0@, download_move(r.1)) == download_step(
                old(self)@,
                spec@,
                package_dir@,
                state@,
                event@,
            ),
    {
        match (state, event) {
            (DownloadState::Start, Event::Begin) => (
                DownloadState::Notifying,
                Step::Ask(Request::Notify(spec.clone())),
            ),
            (DownloadState::Notifying, Event::Notified) => {
                let url = registry_tarball_url(spec);
                let cert_path = clone_detail(&self.cert_path);
                (DownloadState::Fetching, Step::Ask(Request::Fetch { url, cert_path }))
            },
            (DownloadState::Fetching, Event::Fetched(outcome)) => {
                let judge = |o: FetchOutcome| -> (res: Result<Vec<u8>, PackageError>)
                    ensures
                        body_view(res) == archive_body(spec@, o@),
                    { accept_archive(spec, o) };
                match threaded_http(outcome, judge) {
                    None => (
                        DownloadState::Finished,
                        Step::Done(
                            Err(
                                PackageError::Other(
                                    Some(String::from_str("cannot spawn http thread")),
                                ),
                            ),
                        ),
                    ),
                    Some(Err(err)) => (DownloadState::Finished, Step::Done(Err(err))),
                    Some(Ok(body)) => match gunzip(&body) {
                        Err(detail) => (
                            DownloadState::Removing(detail),
                            Step::Ask(Request::Remove(package_dir.clone())),
                        ),
                        Ok(archive) => (
                            DownloadState::Unpacking,
                            Step::Ask(Request::Unpack { archive, target: package_dir.clone() }),
                        ),
                    },
                }
            },
            (DownloadState::Unpacking, Event::Unpacked(None)) => (
                DownloadState::Finished,
                Step::Done(Ok(())),
            ),
            (DownloadState::Unpacking, Event::Unpacked(Some(detail))) => (
                DownloadState::Removing(detail),
                Step::Ask(Request::Remove(package_dir.clone())),
            ),
            (DownloadState::Removing(detail), Event::Removed) => (
                DownloadState::Finished,
                Step::Done(Err(PackageError::MalformedArchive(Some(detail)))),
            ),
            _ => (DownloadState::Finished, Step::Done(Err(unexpected()))),
        }
    }

    /// What a resolution makes of a step of the download into `target`.
    fn follow_download(
        &self,
        inner: (DownloadState, Step<Result<(), PackageError>>),
        target: PackagePath,
    ) -> (r: (ResolveState, Step<Result<PackagePath, PackageError>>))
        ensures
            (self@, r.0@, resolve_move(r.1)) == resolve_downloading(
                (self@, inner.0@, download_move(inner.1)),
                target@,
            ),
    {
        match inner.1 {
            Step::Ask(request) => (ResolveState::Downloading(inner.0), Step::Ask(request)),
            Step::Done(Err(err)) => (ResolveState::Finished, Step::Done(Err(err))),
            Step::Done(Ok(_)) => (ResolveState::Confirming, Step::Ask(Request::Probe(target))),
        }
    }

    /// What a resolution does once the local root has no answer.
    fn look_in_cache(&self, spec: &PackageSpec) -> (r: (
        ResolveState,
        Step<Result<PackagePath, PackageError>>,
    ))
        ensures
            (self@, r.0@, resolve_move(r.1)) == resolve_in_cache(self@, spec@),
    {
        match &self.package_cache_path {
            Some(cache) => {
                let subdir = spec.subdir();
                (ResolveState::ProbingCache, Step::Ask(Request::Probe(cache.join(subdir.as_str()))))
            },
            None => (ResolveState::Finished, Step::Done(Err(PackageError::NotFound(spec.clone())))),
        }
    }

    /// One step of making the package `spec` available in a directory.
    pub fn prepare_package(&mut self, spec: &PackageSpec, state: ResolveState, event: Event) -> (r:
        (ResolveState, Step<Result<PackagePath, PackageError>>))
        ensures
            (final(self)@, r.0@, resolve_move(r.1)) == resolve_step(
                old(self)@,
                spec@,
                state@,
                event@,
            ),
    {
        let subdir = spec.subdir();
        match (state, event) {
            (ResolveState::Start, Event::Begin) => match &self.package_path {
                Some(local) => (
                    ResolveState::ProbingLocal,
                    Step::Ask(Request::Probe(local.join(subdir.as_str()))),
                ),
                None => self.look_in_cache(spec),
            },
            (ResolveState::ProbingLocal, Event::Probed(found)) => match &self.package_path {
                Some(local) => if found {
                    (ResolveState::Finished, Step::Done(Ok(local.join(subdir.as_str()))))
                } else {
                    self.look_in_cache(spec)
                },
                None => (ResolveState::Finished, Step::Done(Err(unexpected()))),
            },
            (ResolveState::ProbingCache, Event::Probed(found)) => {
                match clone_path(&self.package_cache_path) {
                    Some(cache) => {
                        let target = cache.join(subdir.as_str());
                        if found {
                            (ResolveState::Finished, Step::Done(Ok(target)))
                        } else if spec.is_curated() {
                            let inner = self.download_package(
                                spec,
                                &target,
                                DownloadState::Start,
                                Event::Begin,
                            );
                            self.follow_download(inner, target)
                        } else {
                            (
                                ResolveState::Finished,
                                Step::Done(Err(PackageError::NotFound(spec.clone()))),
                            )
                        }
                    },
                    None => (ResolveState::Finished, Step::Done(Err(unexpected()))),
                }
            },
            (ResolveState::Downloading(inner), event) => {
                match clone_path(&self.package_cache_path) {
                    Some(cache) => {
                        if spec.is_curated() {
                            let target = cache.join(subdir.as_str());
                            let step = self.download_package(spec, &target, inner, event);
                            self.follow_download(step, target)
                        } else {
                            (ResolveState::Finished, Step::Done(Err(unexpected())))
                        }
                    },
                    None => (ResolveState::Finished, Step::Done(Err(unexpected()))),
                }
            },
            (ResolveState::Confirming, Event::Probed(found)) => match &self.package_cache_path {
                Some(cache) => if found {
                    (ResolveState::Finished, Step::Done(Ok(cache.join(subdir.as_str()))))
                } else {
                    (ResolveState::Finished, Step::Done(Err(PackageError::NotFound(spec.clone()))))
                },
                None => (ResolveState::Finished, Step::Done(Err(unexpected()))),
            },
            _ => (ResolveState::Finished, Step::Done(Err(unexpected()))),
        }
    }

    /// The request that logs why the index could not be fetched.
    fn log_fetch_failure(reason: &str) -> (r: Step<()>)
        ensures
            index_move(r) == Move::<()>::Ask(RequestView::Log(fetch_failure_detail(reason@))),
    {
        let mut text = String::from_str("Failed to fetch package index: ");
        text.append(reason);
        text.append(" from ");
        text.append(registry_index_url().as_str());
        Step::Ask(Request::Log(text))
    }

    /// The request that logs why the index could not be read.
    fn log_parse_failure(reason: &str) -> (r: Step<()>)
        ensures
            index_move(r) == Move::<()>::Ask(RequestView::Log(parse_failure_detail(reason@))),
    {
        let mut text = String::from_str("Failed to parse package index: ");
        text.append(reason);
        text.append(" from ");
        text.append(registry_index_url().as_str());
        Step::Ask(Request::Log(text))
    }

    /// One step of making the index of the curated registry. Once the
    /// operation is over the index is had from `cached_index`.
    pub fn download_index(&mut self, state: IndexState, event: Event) -> (r: (
        IndexState,
        Step<()>,
    ))
        ensures
            (final(self)@, r.0, index_move(r.1)) == index_step(old(self)@, state, event@),
    {
        match (state, event) {
            (IndexState::Start, Event::Begin) => {
                if self.index.is_some() {
                    (IndexState::Finished, Step::Done(()))
                } else {
                    let url = registry_index_url();
                    let cert_path = clone_detail(&self.cert_path);
                    (IndexState::Fetching, Step::Ask(Request::Fetch { url, cert_path }))
                }
            },
            (IndexState::Fetching, Event::Fetched(None)) => {
                self.memoize_empty();
                (IndexState::Finished, Step::Done(()))
            },
            (IndexState::Fetching, Event::Fetched(Some(FetchOutcome::Failed(reason)))) => {
                self.memoize_empty();
                (IndexState::Logging, Self::log_fetch_failure(reason.as_str()))
            },
            (
                IndexState::Fetching,
                Event::Fetched(Some(FetchOutcome::Response { status, body })),
            ) => {
                if status_is_success(status) {
                    (IndexState::Parsing, Step::Ask(Request::Parse(body)))
                } else {
                    self.memoize_empty();
                    (IndexState::Logging, Self::log_fetch_failure(status_text(status).as_str()))
                }
            },
            (IndexState::Parsing, Event::Parsed(Ok(records))) => {
                self.memoize_index(index_from_records(&records));
                (IndexState::Finished, Step::Done(()))
            },
            (IndexState::Parsing, Event::Parsed(Err(reason))) => {
                self.memoize_empty();
                (IndexState::Logging, Self::log_parse_failure(reason.as_str()))
            },
            _ => (IndexState::Finished, Step::Done(())),
        }
    }

    /// What the search for the latest version makes of a step of the
    /// making of the index.
    fn follow_index(&self, inner: (IndexState, Step<()>), spec: &VersionlessPackageSpec) -> (r: (
        LatestState,
        Step<Result<PackageVersion, String>>,
    ))
        ensures
            (self@, r.0, latest_move(r.1)) == latest_indexing(
                (self@, inner.0, index_move(inner.1)),
                spec@,
            ),
    {
        match inner.1 {
            Step::Ask(request) => (LatestState::Indexing(inner.0), Step::Ask(request)),
            Step::Done(_) => {
                let latest = match &self.index {
                    Some(entries) => latest_in_index(entries, spec),
                    None => {
                        let entries: Vec<IndexEntry> = Vec::new();
                        assert(entries.deep_view() =~= Seq::<IndexEntryView>::empty());
                        latest_in_index(&entries, spec)
                    },
                };
                (LatestState::Finished, Step::Done(latest))
            },
        }
    }

    /// One step of the search for the latest version of the package
    /// `spec`.
    pub fn determine_latest_version(
        &mut self,
        spec: &VersionlessPackageSpec,
        state: LatestState,
        event: Event,
    ) -> (r: (LatestState, Step<Result<PackageVersion, String>>))
        ensures
            (final(self)@, r.0, latest_move(r.1)) == latest_step(old(self)@, spec@, state, event@),
    {
        match (state, event) {
            (LatestState::Start, Event::Begin) => {
                if spec.is_curated() {
                    let inner = self.download_index(IndexState::Start, Event::Begin);
                    self.follow_index(inner, spec)
                } else {
                    match &self.package_path {
                        Some(local) => {
                            let subdir = spec.subdir();
                            (
                                LatestState::Listing,
                                Step::Ask(Request::List(local.join(subdir.as_str()))),
                            )
                        },
                        None => (
                            LatestState::Finished,
                            Step::Done(
                                Err(String::from_str("please specify the desired version")),
                            ),
                        ),
                    }
                }
            },
            (LatestState::Indexing(inner), event) => {
                let step = self.download_index(inner, event);
                self.follow_index(step, spec)
            },
            (LatestState::Listing, Event::Listed(names)) => (
                LatestState::Finished,
                Step::Done(latest_in_listing(&names)),
            ),
            _ => (LatestState::Finished, Step::Done(Err(String::from_str("unexpected event")))),
        }
    }
}

} // verus!
