//! What holds of whole operations of the engine, whatever the world
//! answers.
//!
//! A `World` fixes how the outside answers the engine's requests. A run of
//! an operation starts the operation and feeds each request's answer back
//! in until the operation is over.

use vstd::prelude::*;
use crate::error::ErrorView;
use crate::pack::archive::gzip_decoded;
use crate::pack::http::no_context_detail;
use crate::package::{SpecView, VersionlessView};
use crate::path::PathView;
use crate::registry::index::{latest_indexed, latest_listed, unspecified_detail, RecordView};
use crate::registry::model::{
    index_step,
    latest_step,
    resolve_step,
    IndexState,
    LatestState,
    ResolveStateView,
    StorageView,
};
use crate::version::PackageVersion;
use crate::registry::step::{no_download, EventView, Move, RequestView};
use crate::registry::tarball_url;
use crate::transport::{archive_body, is_success, status_detail, FetchView};

verus! {

/// How the outside answers the requests of the engine.
pub struct World {
    /// The directories that exist before anything is unpacked.
    pub present: Set<PathView>,
    /// What a GET request for a URL brings back, `None` where it cannot be
    /// started.
    pub fetched: spec_fn(Seq<char>) -> Option<FetchView>,
    /// Why unpacking an archive fails, `None` where it works.
    pub unpack_failure: Option<Seq<char>>,
    /// Whether the directory that an archive was unpacked into exists
    /// afterwards.
    pub lands: bool,
    /// What reading the records of the index from a text gives.
    pub parsed: spec_fn(Seq<u8>) -> Result<Seq<RecordView>, Seq<char>>,
    /// The names of the children of a directory.
    pub listed: spec_fn(PathView) -> Seq<Seq<char>>,
}

impl World {
    /// The event that answers `request`. `unpacked` says whether an
    /// archive has been unpacked before.
    pub open spec fn answer(self, request: RequestView, unpacked: bool) -> EventView {
        match request {
            RequestView::Notify(spec) => EventView::Notified,
            RequestView::Probe(path) => EventView::Probed(
                if unpacked {
                    self.lands
                } else {
                    self.present.contains(path)
                },
            ),
            RequestView::Fetch { url, cert_path } => EventView::Fetched((self.fetched)(url)),
            RequestView::Unpack { archive, target } => EventView::Unpacked(self.unpack_failure),
            RequestView::Remove(path) => EventView::Removed,
            RequestView::Parse(text) => EventView::Parsed((self.parsed)(text)),
            RequestView::List(path) => EventView::Listed((self.listed)(path)),
            RequestView::Log(text) => EventView::Logged,
        }
    }

    /// Whether an archive has been unpacked once `request` is answered.
    pub open spec fn unpacks(self, request: RequestView, unpacked: bool) -> bool {
        unpacked || (request is Unpack && self.unpack_failure is None)
    }
}

/// What a run of an operation comes to: the storage after it, the requests
/// that were made, first to last, and the result. The result is `None`
/// where the run was cut short.
pub struct Run<T> {
    pub storage: StorageView,
    pub requests: Seq<RequestView>,
    pub result: Option<T>,
}

/// The run of a resolution from a state and an event on, cut short after
/// `fuel` requests.
pub open spec fn resolve_from(
    storage: StorageView,
    spec: SpecView,
    world: World,
    state: ResolveStateView,
    event: EventView,
    unpacked: bool,
    fuel: nat,
) -> Run<Result<PathView, ErrorView>>
    decreases fuel,
{
    let step = resolve_step(storage, spec, state, event);
    match step.2 {
        Move::Done(result) => Run { storage: step.0, requests: Seq::empty(), result: Some(result) },
        Move::Ask(request) => if fuel == 0 {
            Run { storage: step.0, requests: seq![request], result: None }
        } else {
            let rest = resolve_from(
                step.0,
                spec,
                world,
                step.1,
                world.answer(request, unpacked),
                world.unpacks(request, unpacked),
                (fuel - 1) as nat,
            );
            Run {
                storage: rest.storage,
                requests: seq![request] + rest.requests,
                result: rest.result,
            }
        },
    }
}

/// The run of the resolution of `spec` in `world`.
pub open spec fn resolve_run(storage: StorageView, spec: SpecView, world: World) -> Run<
    Result<PathView, ErrorView>,
> {
    resolve_from(storage, spec, world, ResolveStateView::Start, EventView::Begin, false, 8)
}

/// What the resolution of `spec` in `world` is to give. A package that is
/// below the local root is found there. Else a package that is below the
/// cache root is found there. Else a package of the curated namespace is
/// downloaded into the cache root, if there is one: it is found where the
/// archive can be had, decompressed and unpacked, and the directory is
/// there afterwards. In every other case the package is not found.
pub open spec fn resolution(storage: StorageView, spec: SpecView, world: World) -> Result<
    PathView,
    ErrorView,
> {
    if storage.local_root is Some && world.present.contains(
        storage.local_root->Some_0.join(spec.subdir()),
    ) {
        Ok(storage.local_root->Some_0.join(spec.subdir()))
    } else {
        match storage.cache_root {
            None => Err(ErrorView::NotFound(spec)),
            Some(cache) => if world.present.contains(cache.join(spec.subdir())) {
                Ok(cache.join(spec.subdir()))
            } else if !spec.is_curated() {
                Err(ErrorView::NotFound(spec))
            } else {
                match downloaded(spec, world) {
                    Some(err) => Err(err),
                    None => if world.lands {
                        Ok(cache.join(spec.subdir()))
                    } else {
                        Err(ErrorView::NotFound(spec))
                    },
                }
            },
        }
    }
}

/// Why the download of `spec` in `world` fails, `None` where it does not.
pub open spec fn downloaded(spec: SpecView, world: World) -> Option<ErrorView> {
    match (world.fetched)(tarball_url(spec)) {
        None => Some(ErrorView::Other(Some(no_context_detail()))),
        Some(outcome) => match archive_body(spec, outcome) {
            Err(err) => Some(err),
            Ok(body) => match gzip_decoded(body) {
                Err(detail) => Some(ErrorView::MalformedArchive(Some(detail))),
                Ok(archive) => match world.unpack_failure {
                    Some(detail) => Some(ErrorView::MalformedArchive(Some(detail))),
                    None => None,
                },
            },
        },
    }
}

/// A package is absent from a root: there is no such root, or the
/// directory of the package below it does not exist.
pub open spec fn absent(root: Option<PathView>, spec: SpecView, world: World) -> bool {
    root matches Some(dir) ==> !world.present.contains(dir.join(spec.subdir()))
}

/// Every resolution comes to an end, and its result is what `resolution`
/// says.
pub proof fn law_resolution(storage: StorageView, spec: SpecView, world: World)
    ensures
        resolve_run(storage, spec, world).result == Some(resolution(storage, spec, world)),
{
    reveal_with_fuel(resolve_from, 9);
}

/// The local root comes first, always: a package whose directory exists
/// below the local root is found there, whatever is below the cache root.
/// The only request made is the probe of that directory: the notifier is
/// told of nothing, nothing is fetched, and the storage is as it was
/// before.
pub proof fn law_local_precedence(storage: StorageView, spec: SpecView, world: World)
    requires
        storage.local_root is Some,
        world.present.contains(storage.local_root->Some_0.join(spec.subdir())),
    ensures
        resolve_run(storage, spec, world).result == Some(
            Ok::<PathView, ErrorView>(storage.local_root->Some_0.join(spec.subdir())),
        ),
        resolve_run(storage, spec, world).requests == seq![
            RequestView::Probe(storage.local_root->Some_0.join(spec.subdir())),
        ],
        no_download(resolve_run(storage, spec, world).requests),
        resolve_run(storage, spec, world).storage == storage,
{
    reveal_with_fuel(resolve_from, 9);
    assert(resolve_run(storage, spec, world).requests =~= seq![
        RequestView::Probe(storage.local_root->Some_0.join(spec.subdir())),
    ]);
}

/// The request writes to the file system: it unpacks an archive into
/// `target` or removes `target`.
pub open spec fn writes_to(request: RequestView, target: PathView) -> bool {
    match request {
        RequestView::Unpack { archive, target: into } => into == target,
        RequestView::Remove(dir) => dir == target,
        _ => false,
    }
}

/// The request leaves the file system as it is.
pub open spec fn writes_nothing(request: RequestView) -> bool {
    !(request is Unpack) && !(request is Remove)
}

/// Only the cache root is ever written to. Whatever a resolution unpacks
/// or removes is the directory of the package below the cache root, and a
/// storage without a cache root writes nothing at all.
pub proof fn law_only_cache_is_written(storage: StorageView, spec: SpecView, world: World)
    ensures
        forall|i: int|
            0 <= i < resolve_run(storage, spec, world).requests.len() ==> {
                let request = #[trigger] resolve_run(storage, spec, world).requests[i];
                writes_nothing(request) || (storage.cache_root is Some && writes_to(
                    request,
                    storage.cache_root->Some_0.join(spec.subdir()),
                ))
            },
{
    reveal_with_fuel(resolve_from, 9);
}

/// The local root is asked before anything else: where there is a local
/// root, the first request of a resolution is the probe of the package's
/// directory below it.
pub proof fn law_local_is_probed_first(storage: StorageView, spec: SpecView, world: World)
    requires
        storage.local_root is Some,
    ensures
        resolve_run(storage, spec, world).requests.len() > 0,
        resolve_run(storage, spec, world).requests[0] == RequestView::Probe(
            storage.local_root->Some_0.join(spec.subdir()),
        ),
{
    reveal_with_fuel(resolve_from, 9);
}

/// Nothing is tried twice: a resolution makes at most one request to the
/// network.
pub proof fn law_no_retry(storage: StorageView, spec: SpecView, world: World)
    ensures
        at_most_one_fetch(resolve_run(storage, spec, world).requests),
{
    reveal_with_fuel(resolve_from, 9);
}

/// Only the curated namespace is fetched. The resolution of a package of
/// any other namespace tells the notifier of nothing, makes no request to
/// the network and leaves the storage as it was, and where the package is
/// absent from both roots it is not found.
pub proof fn law_local_only_namespaces(storage: StorageView, spec: SpecView, world: World)
    requires
        !spec.is_curated(),
    ensures
        no_download(resolve_run(storage, spec, world).requests),
        resolve_run(storage, spec, world).storage == storage,
        absent(storage.local_root, spec, world) && absent(storage.cache_root, spec, world)
            ==> resolve_run(storage, spec, world).result == Some(
            Err::<PathView, ErrorView>(ErrorView::NotFound(spec)),
        ),
{
    reveal_with_fuel(resolve_from, 9);
}

/// A package of the curated namespace that is absent from both roots is
/// asked of the registry, if there is a cache root to keep it in: the
/// notifier is told of the download, and then the archive is asked for.
/// Where the registry answers 404, the package is not found.
pub proof fn law_missing_upstream(
    storage: StorageView,
    spec: SpecView,
    world: World,
    body: Seq<u8>,
)
    requires
        spec.is_curated(),
        storage.cache_root is Some,
        absent(storage.local_root, spec, world),
        absent(storage.cache_root, spec, world),
        (world.fetched)(tarball_url(spec)) == Some(FetchView::Response { status: 404, body }),
    ensures
        resolve_run(storage, spec, world).result == Some(
            Err::<PathView, ErrorView>(ErrorView::NotFound(spec)),
        ),
        resolve_run(storage, spec, world).requests.len() >= 2,
        resolve_run(storage, spec, world).requests.drop_last().last() == RequestView::Notify(spec),
        resolve_run(storage, spec, world).requests.last() == (RequestView::Fetch {
            url: tarball_url(spec),
            cert_path: storage.cert_path,
        }),
{
    reveal_with_fuel(resolve_from, 9);
}

/// Where the registry answers the request for such a package with a status
/// that is neither a success nor 404, the network has failed, and the
/// error names the status.
pub proof fn law_server_failure(
    storage: StorageView,
    spec: SpecView,
    world: World,
    status: u16,
    body: Seq<u8>,
)
    requires
        spec.is_curated(),
        storage.cache_root is Some,
        absent(storage.local_root, spec, world),
        absent(storage.cache_root, spec, world),
        (world.fetched)(tarball_url(spec)) == Some(FetchView::Response { status, body }),
        !is_success(status),
        status != 404,
    ensures
        resolve_run(storage, spec, world).result == Some(
            Err::<PathView, ErrorView>(ErrorView::NetworkFailed(Some(status_detail(status)))),
        ),
{
    reveal_with_fuel(resolve_from, 9);
}

/// Where the request for such a package gets no answer, the network has
/// failed, and the error says why.
pub proof fn law_transport_failure(
    storage: StorageView,
    spec: SpecView,
    world: World,
    detail: Seq<char>,
)
    requires
        spec.is_curated(),
        storage.cache_root is Some,
        absent(storage.local_root, spec, world),
        absent(storage.cache_root, spec, world),
        (world.fetched)(tarball_url(spec)) == Some(FetchView::Failed(detail)),
    ensures
        resolve_run(storage, spec, world).result == Some(
            Err::<PathView, ErrorView>(ErrorView::NetworkFailed(Some(detail))),
        ),
{
    reveal_with_fuel(resolve_from, 9);
}

/// Where the archive of such a package is no gzip stream, or cannot be
/// unpacked, the archive is malformed. The last thing done before the
/// resolution ends is the removal of the directory that the package was
/// to be unpacked into.
pub proof fn law_malformed_archive(storage: StorageView, spec: SpecView, world: World)
    requires
        spec.is_curated(),
        storage.cache_root is Some,
        absent(storage.local_root, spec, world),
        absent(storage.cache_root, spec, world),
        downloaded(spec, world) matches Some(ErrorView::MalformedArchive(_)),
    ensures
        resolve_run(storage, spec, world).result == Some(
            Err::<PathView, ErrorView>(downloaded(spec, world)->Some_0),
        ),
        resolve_run(storage, spec, world).requests.len() > 0,
        resolve_run(storage, spec, world).requests.last() == RequestView::Remove(
            storage.cache_root->Some_0.join(spec.subdir()),
        ),
{
    reveal_with_fuel(resolve_from, 9);
}

/// The run of the making of the index from a state and an event on, cut
/// short after `fuel` requests.
pub open spec fn index_from(
    storage: StorageView,
    world: World,
    state: IndexState,
    event: EventView,
    fuel: nat,
) -> Run<()>
    decreases fuel,
{
    let step = index_step(storage, state, event);
    match step.2 {
        Move::Done(_) => Run { storage: step.0, requests: Seq::empty(), result: Some(()) },
        Move::Ask(request) => if fuel == 0 {
            Run { storage: step.0, requests: seq![request], result: None }
        } else {
            let rest = index_from(
                step.0,
                world,
                step.1,
                world.answer(request, false),
                (fuel - 1) as nat,
            );
            Run {
                storage: rest.storage,
                requests: seq![request] + rest.requests,
                result: rest.result,
            }
        },
    }
}

/// The run of the making of the index in `world`.
pub open spec fn index_run(storage: StorageView, world: World) -> Run<()> {
    index_from(storage, world, IndexState::Start, EventView::Begin, 4)
}

/// At most one request among `requests` goes out to the network.
pub open spec fn at_most_one_fetch(requests: Seq<RequestView>) -> bool {
    forall|i: int, j: int|
        0 <= i < requests.len() && 0 <= j < requests.len() && (#[trigger] requests[i]).is_fetch()
            && (#[trigger] requests[j]).is_fetch() ==> i == j
}

/// The index is fetched at most once. Making it comes to an end whatever
/// the world answers, with at most one request to the network, and leaves
/// an index behind. Making it again, in whatever world, asks for nothing
/// and changes nothing.
pub proof fn law_index_fetched_once(storage: StorageView, first: World, second: World)
    ensures
        index_run(storage, first).result is Some,
        index_run(storage, first).storage.index is Some,
        at_most_one_fetch(index_run(storage, first).requests),
        index_run(index_run(storage, first).storage, second).requests.len() == 0,
        index_run(index_run(storage, first).storage, second).storage == index_run(
            storage,
            first,
        ).storage,
        storage.index is Some ==> index_run(storage, first).storage == storage && index_run(
            storage,
            first,
        ).requests.len() == 0,
{
    reveal_with_fuel(index_from, 5);
}

/// The run of the search for the latest version from a state and an event
/// on, cut short after `fuel` requests.
pub open spec fn latest_from(
    storage: StorageView,
    spec: VersionlessView,
    world: World,
    state: LatestState,
    event: EventView,
    fuel: nat,
) -> Run<Result<PackageVersion, Seq<char>>>
    decreases fuel,
{
    let step = latest_step(storage, spec, state, event);
    match step.2 {
        Move::Done(result) => Run { storage: step.0, requests: Seq::empty(), result: Some(result) },
        Move::Ask(request) => if fuel == 0 {
            Run { storage: step.0, requests: seq![request], result: None }
        } else {
            let rest = latest_from(
                step.0,
                spec,
                world,
                step.1,
                world.answer(request, false),
                (fuel - 1) as nat,
            );
            Run {
                storage: rest.storage,
                requests: seq![request] + rest.requests,
                result: rest.result,
            }
        },
    }
}

/// The run of the search for the latest version of `spec` in `world`.
pub open spec fn latest_run(storage: StorageView, spec: VersionlessView, world: World) -> Run<
    Result<PackageVersion, Seq<char>>,
> {
    latest_from(storage, spec, world, LatestState::Start, EventView::Begin, 4)
}

/// The latest version of a package of the curated namespace is the latest
/// that the index holds of it, where the index is the one that making it
/// in the same world leaves behind. The index is fetched at most once on
/// the way.
pub proof fn law_latest_curated(storage: StorageView, spec: VersionlessView, world: World)
    requires
        spec.is_curated(),
    ensures
        latest_run(storage, spec, world).result == Some(
            latest_indexed(index_run(storage, world).storage.entries(), spec),
        ),
        latest_run(storage, spec, world).storage == index_run(storage, world).storage,
        latest_run(storage, spec, world).requests == index_run(storage, world).requests,
        at_most_one_fetch(latest_run(storage, spec, world).requests),
{
    reveal_with_fuel(latest_from, 5);
    reveal_with_fuel(index_from, 5);
    assert(latest_run(storage, spec, world).requests =~= index_run(storage, world).requests);
}

/// The latest version of a package of any other namespace is searched
/// below the local root alone: it is the latest among the names of the
/// children of the package's directory there. Nothing is fetched and the
/// storage is as it was before.
pub proof fn law_latest_local_only(storage: StorageView, spec: VersionlessView, world: World)
    requires
        !spec.is_curated(),
    ensures
        latest_run(storage, spec, world).result == Some(
            match storage.local_root {
                Some(local) => latest_listed((world.listed)(local.join(spec.subdir()))),
                None => Err(unspecified_detail()),
            },
        ),
        no_download(latest_run(storage, spec, world).requests),
        latest_run(storage, spec, world).storage == storage,
{
    reveal_with_fuel(latest_from, 5);
}

} // verus!
