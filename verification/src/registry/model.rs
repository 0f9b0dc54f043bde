//! The engine as a mathematical object: what each step of each operation
//! answers, as a function of the storage, the state of the operation and
//! the event.

use vstd::prelude::*;
use crate::error::ErrorView;
use crate::pack::archive::gzip_decoded;
use crate::pack::http::no_context_detail;
use crate::package::{SpecView, VersionlessView};
use crate::path::PathView;
use crate::registry::index::{
    entries_of,
    latest_indexed,
    latest_listed,
    unspecified_detail,
    IndexEntryView,
};
use crate::registry::step::{EventView, Move, RequestView};
use crate::registry::{index_url, tarball_url};
use crate::transport::{archive_body, is_success, status_detail, FetchView};
use crate::version::PackageVersion;

verus! {

/// A package storage as a mathematical value.
pub struct StorageView {
    /// The directory that downloaded packages are kept in.
    pub cache_root: Option<PathView>,
    /// The directory that local packages are kept in.
    pub local_root: Option<PathView>,
    /// The file that holds a root certificate to trust.
    pub cert_path: Option<Seq<char>>,
    /// The index of the curated registry, once it has been asked for.
    pub index: Option<Seq<IndexEntryView>>,
}

/// How far a download has come.
#[derive(Debug, PartialEq, Eq)]
pub enum DownloadState {
    /// Nothing is done yet.
    Start,
    /// The notifier is being told.
    Notifying,
    /// The archive is being fetched.
    Fetching,
    /// The archive is being unpacked.
    Unpacking,
    /// Extraction failed, for the reason given, and the directory is
    /// being removed.
    Removing(String),
    /// The download is over.
    Finished,
}

/// How far a resolution has come.
#[derive(Debug, PartialEq, Eq)]
pub enum ResolveState {
    /// Nothing is done yet.
    Start,
    /// The directory below the local root is being probed.
    ProbingLocal,
    /// The directory below the cache root is being probed.
    ProbingCache,
    /// The package is being downloaded.
    Downloading(DownloadState),
    /// The directory that the download was to fill is being probed.
    Confirming,
    /// The resolution is over.
    Finished,
}

/// How far the making of the index has come.
#[derive(Debug, Clone, Copy, PartialEq, Eq, Structural)]
pub enum IndexState {
    /// Nothing is done yet.
    Start,
    /// The index is being fetched.
    Fetching,
    /// The index is being read.
    Parsing,
    /// A failure is being logged.
    Logging,
    /// The index is there.
    Finished,
}

/// How far the search for the latest version has come.
#[derive(Debug, Clone, Copy, PartialEq, Eq, Structural)]
pub enum LatestState {
    /// Nothing is done yet.
    Start,
    /// The index is being made.
    Indexing(IndexState),
    /// The versions below the local root are being listed.
    Listing,
    /// The search is over.
    Finished,
}

/// The state of a download as a mathematical value.
pub enum DownloadStateView {
    Start,
    Notifying,
    Fetching,
    Unpacking,
    Removing(Seq<char>),
    Finished,
}

/// The state of a resolution as a mathematical value.
pub enum ResolveStateView {
    Start,
    ProbingLocal,
    ProbingCache,
    Downloading(DownloadStateView),
    Confirming,
    Finished,
}

impl View for DownloadState {
    type V = DownloadStateView;

    open spec fn view(&self) -> DownloadStateView {
        match self {
            DownloadState::Start => DownloadStateView::Start,
            DownloadState::Notifying => DownloadStateView::Notifying,
            DownloadState::Fetching => DownloadStateView::Fetching,
            DownloadState::Unpacking => DownloadStateView::Unpacking,
            DownloadState::Removing(detail) => DownloadStateView::Removing(detail@),
            DownloadState::Finished => DownloadStateView::Finished,
        }
    }
}

impl View for ResolveState {
    type V = ResolveStateView;

    open spec fn view(&self) -> ResolveStateView {
        match self {
            ResolveState::Start => ResolveStateView::Start,
            ResolveState::ProbingLocal => ResolveStateView::ProbingLocal,
            ResolveState::ProbingCache => ResolveStateView::ProbingCache,
            ResolveState::Downloading(inner) => ResolveStateView::Downloading(inner@),
            ResolveState::Confirming => ResolveStateView::Confirming,
            ResolveState::Finished => ResolveStateView::Finished,
        }
    }
}

/// The text of the error that answers an event that the state of the
/// operation does not wait for.
pub open spec fn unexpected_detail() -> Seq<char> {
    "unexpected event"@
}

/// The text that is logged where the index cannot be fetched:
/// `Failed to fetch package index: {reason} from {url}`.
pub open spec fn fetch_failure_detail(reason: Seq<char>) -> Seq<char> {
    "Failed to fetch package index: "@ + reason + " from "@ + index_url()
}

/// The text that is logged where the index cannot be read:
/// `Failed to parse package index: {reason} from {url}`.
pub open spec fn parse_failure_detail(reason: Seq<char>) -> Seq<char> {
    "Failed to parse package index: "@ + reason + " from "@ + index_url()
}

impl StorageView {
    /// The storage after `entries` were offered as the index: they are
    /// taken where there was no index yet, and dropped where there was.
    pub open spec fn memoizing(self, entries: Seq<IndexEntryView>) -> StorageView {
        if self.index is Some {
            self
        } else {
            StorageView { index: Some(entries), ..self }
        }
    }

    /// The entries of the index, none where it has not been asked for.
    pub open spec fn entries(self) -> Seq<IndexEntryView> {
        match self.index {
            Some(entries) => entries,
            None => Seq::empty(),
        }
    }
}

/// What a step of a download answers: the storage after it, the state after
/// it, and the request or the result. The result is `None` where the
/// package was unpacked into `target`, and the error where it was not.
///
/// The download starts by telling the notifier. Then the archive is asked
/// for. An archive that cannot be had ends the download with the error that
/// says why. An archive that is no gzip stream, or that cannot be unpacked,
/// is malformed: the target is removed before the download ends.
pub open spec fn download_step(
    storage: StorageView,
    spec: SpecView,
    target: PathView,
    state: DownloadStateView,
    event: EventView,
) -> (StorageView, DownloadStateView, Move<Option<ErrorView>>) {
    match (state, event) {
        (DownloadStateView::Start, EventView::Begin) => (
            storage,
            DownloadStateView::Notifying,
            Move::Ask(RequestView::Notify(spec)),
        ),
        (DownloadStateView::Notifying, EventView::Notified) => (
            storage,
            DownloadStateView::Fetching,
            Move::Ask(RequestView::Fetch { url: tarball_url(spec), cert_path: storage.cert_path }),
        ),
        (DownloadStateView::Fetching, EventView::Fetched(None)) => (
            storage,
            DownloadStateView::Finished,
            Move::Done(Some(ErrorView::Other(Some(no_context_detail())))),
        ),
        (DownloadStateView::Fetching, EventView::Fetched(Some(outcome))) => match archive_body(
            spec,
            outcome,
        ) {
            Err(err) => (storage, DownloadStateView::Finished, Move::Done(Some(err))),
            Ok(body) => match gzip_decoded(body) {
                Err(detail) => (
                    storage,
                    DownloadStateView::Removing(detail),
                    Move::Ask(RequestView::Remove(target)),
                ),
                Ok(archive) => (
                    storage,
                    DownloadStateView::Unpacking,
                    Move::Ask(RequestView::Unpack { archive, target }),
                ),
            },
        },
        (DownloadStateView::Unpacking, EventView::Unpacked(None)) => (
            storage,
            DownloadStateView::Finished,
            Move::Done(None),
        ),
        (DownloadStateView::Unpacking, EventView::Unpacked(Some(detail))) => (
            storage,
            DownloadStateView::Removing(detail),
            Move::Ask(RequestView::Remove(target)),
        ),
        (DownloadStateView::Removing(detail), EventView::Removed) => (
            storage,
            DownloadStateView::Finished,
            Move::Done(Some(ErrorView::MalformedArchive(Some(detail)))),
        ),
        _ => (
            storage,
            DownloadStateView::Finished,
            Move::Done(Some(ErrorView::Other(Some(unexpected_detail())))),
        ),
    }
}

/// The answer to an event that a resolution does not wait for.
pub open spec fn resolve_unexpected(storage: StorageView) -> (
    StorageView,
    ResolveStateView,
    Move<Result<PathView, ErrorView>>,
) {
    (
        storage,
        ResolveStateView::Finished,
        Move::Done(Err(ErrorView::Other(Some(unexpected_detail())))),
    )
}

/// What a resolution does once the local root has no answer: it probes the
/// cache root, and gives up where there is none.
pub open spec fn resolve_in_cache(storage: StorageView, spec: SpecView) -> (
    StorageView,
    ResolveStateView,
    Move<Result<PathView, ErrorView>>,
) {
    match storage.cache_root {
        Some(cache) => (
            storage,
            ResolveStateView::ProbingCache,
            Move::Ask(RequestView::Probe(cache.join(spec.subdir()))),
        ),
        None => (storage, ResolveStateView::Finished, Move::Done(Err(ErrorView::NotFound(spec)))),
    }
}

/// What a resolution makes of a step of the download into `target`: a
/// request is passed on, an error ends the resolution, and after a download
/// that went well the target is probed once more.
pub open spec fn resolve_downloading(
    inner: (StorageView, DownloadStateView, Move<Option<ErrorView>>),
    target: PathView,
) -> (StorageView, ResolveStateView, Move<Result<PathView, ErrorView>>) {
    match inner.2 {
        Move::Ask(request) => (inner.0, ResolveStateView::Downloading(inner.1), Move::Ask(request)),
        Move::Done(Some(err)) => (inner.0, ResolveStateView::Finished, Move::Done(Err(err))),
        Move::Done(None) => (
            inner.0,
            ResolveStateView::Confirming,
            Move::Ask(RequestView::Probe(target)),
        ),
    }
}

/// What a step of a resolution answers: the storage after it, the state
/// after it, and the request or the result.
///
/// The directory of the package is `{namespace}/{name}/{version}` below a
/// root. The local root is probed first, then the cache root. A package of
/// the curated namespace that is in neither is downloaded into the cache
/// root, if there is one, and the directory is probed once more. In every
/// other case the package is not found.
pub open spec fn resolve_step(
    storage: StorageView,
    spec: SpecView,
    state: ResolveStateView,
    event: EventView,
) -> (StorageView, ResolveStateView, Move<Result<PathView, ErrorView>>) {
    match (state, event) {
        (ResolveStateView::Start, EventView::Begin) => match storage.local_root {
            Some(local) => (
                storage,
                ResolveStateView::ProbingLocal,
                Move::Ask(RequestView::Probe(local.join(spec.subdir()))),
            ),
            None => resolve_in_cache(storage, spec),
        },
        (ResolveStateView::ProbingLocal, EventView::Probed(found)) => match storage.local_root {
            Some(local) => if found {
                (storage, ResolveStateView::Finished, Move::Done(Ok(local.join(spec.subdir()))))
            } else {
                resolve_in_cache(storage, spec)
            },
            None => resolve_unexpected(storage),
        },
        (ResolveStateView::ProbingCache, EventView::Probed(found)) => match storage.cache_root {
            Some(cache) => if found {
                (storage, ResolveStateView::Finished, Move::Done(Ok(cache.join(spec.subdir()))))
            } else if spec.is_curated() {
                resolve_downloading(
                    download_step(
                        storage,
                        spec,
                        cache.join(spec.subdir()),
                        DownloadStateView::Start,
                        EventView::Begin,
                    ),
                    cache.join(spec.subdir()),
                )
            } else {
                (storage, ResolveStateView::Finished, Move::Done(Err(ErrorView::NotFound(spec))))
            },
            None => resolve_unexpected(storage),
        },
        (ResolveStateView::Downloading(inner), event) => match storage.cache_root {
            Some(cache) => if spec.is_curated() {
                resolve_downloading(
                    download_step(storage, spec, cache.join(spec.subdir()), inner, event),
                    cache.join(spec.subdir()),
                )
            } else {
                resolve_unexpected(storage)
            },
            None => resolve_unexpected(storage),
        },
        (ResolveStateView::Confirming, EventView::Probed(found)) => match storage.cache_root {
            Some(cache) => if found {
                (storage, ResolveStateView::Finished, Move::Done(Ok(cache.join(spec.subdir()))))
            } else {
                (storage, ResolveStateView::Finished, Move::Done(Err(ErrorView::NotFound(spec))))
            },
            None => resolve_unexpected(storage),
        },
        _ => resolve_unexpected(storage),
    }
}

/// What a step of the making of the index answers: the storage after it,
/// the state after it, and the request or the end.
///
/// An index that is there is left as it is and nothing is asked for. Else
/// the index is fetched and read, and kept. Where it cannot be fetched or
/// read, an empty index is kept in its place and the failure is logged.
pub open spec fn index_step(storage: StorageView, state: IndexState, event: EventView) -> (
    StorageView,
    IndexState,
    Move<()>,
) {
    match (state, event) {
        (IndexState::Start, EventView::Begin) => if storage.index is Some {
            (storage, IndexState::Finished, Move::Done(()))
        } else {
            (
                storage,
                IndexState::Fetching,
                Move::Ask(RequestView::Fetch { url: index_url(), cert_path: storage.cert_path }),
            )
        },
        (IndexState::Fetching, EventView::Fetched(None)) => (
            storage.memoizing(Seq::empty()),
            IndexState::Finished,
            Move::Done(()),
        ),
        (IndexState::Fetching, EventView::Fetched(Some(FetchView::Failed(reason)))) => (
            storage.memoizing(Seq::empty()),
            IndexState::Logging,
            Move::Ask(RequestView::Log(fetch_failure_detail(reason))),
        ),
        (
            IndexState::Fetching,
            EventView::Fetched(Some(FetchView::Response { status, body })),
        ) => if is_success(status) {
            (storage, IndexState::Parsing, Move::Ask(RequestView::Parse(body)))
        } else {
            (
                storage.memoizing(Seq::empty()),
                IndexState::Logging,
                Move::Ask(RequestView::Log(fetch_failure_detail(status_detail(status)))),
            )
        },
        (IndexState::Parsing, EventView::Parsed(Ok(records))) => (
            storage.memoizing(entries_of(records)),
            IndexState::Finished,
            Move::Done(()),
        ),
        (IndexState::Parsing, EventView::Parsed(Err(reason))) => (
            storage.memoizing(Seq::empty()),
            IndexState::Logging,
            Move::Ask(RequestView::Log(parse_failure_detail(reason))),
        ),
        _ => (storage, IndexState::Finished, Move::Done(())),
    }
}

/// What the search for the latest version makes of a step of the making of
/// the index: a request is passed on, and once the index is made the latest
/// version in it is the result.
pub open spec fn latest_indexing(inner: (StorageView, IndexState, Move<()>), spec: VersionlessView) -> (
    StorageView,
    LatestState,
    Move<Result<PackageVersion, Seq<char>>>,
) {
    match inner.2 {
        Move::Ask(request) => (inner.0, LatestState::Indexing(inner.1), Move::Ask(request)),
        Move::Done(_) => (
            inner.0,
            LatestState::Finished,
            Move::Done(latest_indexed(inner.0.entries(), spec)),
        ),
    }
}

/// What a step of the search for the latest version answers: the storage
/// after it, the state after it, and the request or the result.
///
/// For a package of the curated namespace the index is made and the latest
/// version in it is the result. For every other package the versions are
/// the names of the children of `{namespace}/{name}` below the local root.
/// The cache root is not looked at and nothing is fetched.
pub open spec fn latest_step(
    storage: StorageView,
    spec: VersionlessView,
    state: LatestState,
    event: EventView,
) -> (StorageView, LatestState, Move<Result<PackageVersion, Seq<char>>>) {
    match (state, event) {
        (LatestState::Start, EventView::Begin) => if spec.is_curated() {
            latest_indexing(index_step(storage, IndexState::Start, EventView::Begin), spec)
        } else {
            match storage.local_root {
                Some(local) => (
                    storage,
                    LatestState::Listing,
                    Move::Ask(RequestView::List(local.join(spec.subdir()))),
                ),
                None => (storage, LatestState::Finished, Move::Done(Err(unspecified_detail()))),
            }
        },
        (LatestState::Indexing(inner), event) => latest_indexing(
            index_step(storage, inner, event),
            spec,
        ),
        (LatestState::Listing, EventView::Listed(names)) => (
            storage,
            LatestState::Finished,
            Move::Done(latest_listed(names)),
        ),
        _ => (storage, LatestState::Finished, Move::Done(Err(unexpected_detail()))),
    }
}

} // verus!
