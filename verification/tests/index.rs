use tinymist_package::{
    DownloadState, DummyNotifier, Event, FetchOutcome, IndexEntry, IndexState, LatestState,
    Notifier, PackageError, PackagePath, PackageSpec, PackageStorage, PackageVersion,
    RemotePackageIndex, Request, Step, VersionlessPackageSpec,
};

fn entry(name: &str, major: u32, minor: u32, patch: u32) -> IndexEntry {
    (
        PackageSpec::new(
            "preview".to_string(),
            name.to_string(),
            PackageVersion::new(major, minor, patch),
        ),
        None,
    )
}

fn storage() -> PackageStorage {
    PackageStorage::new(
        Some(PackagePath::new("/cache".to_string())),
        Some(PackagePath::new("/local".to_string())),
        None,
    )
}

fn versionless(namespace: &str, name: &str) -> VersionlessPackageSpec {
    VersionlessPackageSpec::new(namespace.to_string(), name.to_string())
}

fn index_request() -> Request {
    Request::Fetch { url: "https://packages.typst.org/preview/index.json".to_string(), cert_path: None }
}

/// A notifier that counts what it is told.
struct Counting(std::cell::Cell<usize>);

impl Notifier for Counting {
    fn downloading(&self, _spec: &PackageSpec) {
        self.0.set(self.0.get() + 1);
    }
}

#[test]
fn latest_version_is_the_greatest_in_the_index() {
    let mut storage = storage();
    storage.memoize_index(vec![
        entry("foo", 0, 1, 0),
        entry("foo", 0, 2, 0),
        entry("bar", 9, 9, 9),
        entry("foo", 0, 1, 5),
    ]);
    let (state, step) = storage.determine_latest_version(
        &versionless("preview", "foo"),
        LatestState::Start,
        Event::Begin,
    );
    assert_eq!(state, LatestState::Finished);
    assert_eq!(step, Step::Done(Ok(PackageVersion::new(0, 2, 0))));
}

#[test]
fn latest_version_compares_numbers_not_texts() {
    let mut storage = storage();
    storage.memoize_index(vec![entry("foo", 0, 9, 0), entry("foo", 0, 10, 0), entry("foo", 0, 2, 7)]);
    let (_, step) = storage.determine_latest_version(
        &versionless("preview", "foo"),
        LatestState::Start,
        Event::Begin,
    );
    assert_eq!(step, Step::Done(Ok(PackageVersion::new(0, 10, 0))));
}

#[test]
fn package_missing_from_the_index_is_an_error() {
    let mut storage = storage();
    storage.memoize_index(vec![entry("bar", 1, 0, 0)]);
    let (_, step) = storage.determine_latest_version(
        &versionless("preview", "foo"),
        LatestState::Start,
        Event::Begin,
    );
    assert_eq!(step, Step::Done(Err("failed to find package @preview/foo".to_string())));
}

#[test]
fn latest_version_fetches_the_index_when_it_is_missing() {
    let mut storage = storage();
    let spec = versionless("preview", "foo");
    let (state, step) = storage.determine_latest_version(&spec, LatestState::Start, Event::Begin);
    assert_eq!(state, LatestState::Indexing(IndexState::Fetching));
    assert_eq!(step, Step::Ask(index_request()));
    let body = b"[]".to_vec();
    let fetched = Event::Fetched(Some(FetchOutcome::Response { status: 200, body: body.clone() }));
    let (state, step) = storage.determine_latest_version(&spec, state, fetched);
    assert_eq!(state, LatestState::Indexing(IndexState::Parsing));
    assert_eq!(step, Step::Ask(Request::Parse(body)));
    let records = vec![
        RemotePackageIndex {
            name: "foo".to_string(),
            version: PackageVersion::new(0, 1, 0),
            description: Some("a package".to_string()),
        },
        RemotePackageIndex {
            name: "foo".to_string(),
            version: PackageVersion::new(1, 0, 0),
            description: None,
        },
    ];
    let (state, step) = storage.determine_latest_version(&spec, state, Event::Parsed(Ok(records)));
    assert_eq!(state, LatestState::Finished);
    assert_eq!(step, Step::Done(Ok(PackageVersion::new(1, 0, 0))));
    let expected = vec![
        (
            PackageSpec::new("preview".to_string(), "foo".to_string(), PackageVersion::new(0, 1, 0)),
            Some("a package".to_string()),
        ),
        entry("foo", 1, 0, 0),
    ];
    assert_eq!(storage.cached_index(), Some(&expected));
}

#[test]
fn local_versions_are_the_names_that_read_as_versions() {
    let mut storage = storage();
    let spec = versionless("local", "foo");
    let (state, step) = storage.determine_latest_version(&spec, LatestState::Start, Event::Begin);
    assert_eq!(state, LatestState::Listing);
    assert_eq!(
        step,
        Step::Ask(Request::List(PackagePath::new("/local".to_string()).join("local/foo")))
    );
    let names = vec![
        "0.1.0".to_string(),
        "notes.txt".to_string(),
        "0.3.1".to_string(),
        "0.3".to_string(),
        "0.2.9".to_string(),
    ];
    let (state, step) = storage.determine_latest_version(&spec, state, Event::Listed(names));
    assert_eq!(state, LatestState::Finished);
    assert_eq!(step, Step::Done(Ok(PackageVersion::new(0, 3, 1))));
}

#[test]
fn directory_without_versions_asks_for_a_version() {
    let mut storage = storage();
    let spec = versionless("local", "foo");
    let (state, _) = storage.determine_latest_version(&spec, LatestState::Start, Event::Begin);
    let (_, step) =
        storage.determine_latest_version(&spec, state, Event::Listed(vec!["readme".to_string()]));
    assert_eq!(step, Step::Done(Err("please specify the desired version".to_string())));
}

#[test]
fn local_versions_need_a_local_root() {
    let mut storage =
        PackageStorage::new(Some(PackagePath::new("/cache".to_string())), None, None);
    let (state, step) = storage.determine_latest_version(
        &versionless("local", "foo"),
        LatestState::Start,
        Event::Begin,
    );
    assert_eq!(state, LatestState::Finished);
    assert_eq!(step, Step::Done(Err("please specify the desired version".to_string())));
}

#[test]
fn index_is_fetched_at_most_once() {
    let mut storage = storage();
    assert_eq!(storage.cached_index(), None);
    let (state, step) = storage.download_index(IndexState::Start, Event::Begin);
    assert_eq!(step, Step::Ask(index_request()));
    let fetched = Event::Fetched(Some(FetchOutcome::Response { status: 200, body: b"[]".to_vec() }));
    let (state, _) = storage.download_index(state, fetched);
    let (state, step) = storage.download_index(state, Event::Parsed(Ok(vec![])));
    assert_eq!((state, step), (IndexState::Finished, Step::Done(())));
    assert_eq!(storage.cached_index(), Some(&vec![]));
    let (state, step) = storage.download_index(IndexState::Start, Event::Begin);
    assert_eq!((state, step), (IndexState::Finished, Step::Done(())));
}

#[test]
fn index_that_cannot_be_fetched_is_empty_and_logged() {
    let mut storage = storage();
    let (state, _) = storage.download_index(IndexState::Start, Event::Begin);
    let fetched = Event::Fetched(Some(FetchOutcome::Response { status: 503, body: vec![] }));
    let (state, step) = storage.download_index(state, fetched);
    assert_eq!(state, IndexState::Logging);
    assert_eq!(
        step,
        Step::Ask(Request::Log(
            "Failed to fetch package index: status code 503 from \
             https://packages.typst.org/preview/index.json"
                .to_string()
        ))
    );
    assert_eq!(storage.cached_index(), Some(&vec![]));
    let (state, step) = storage.download_index(state, Event::Logged);
    assert_eq!((state, step), (IndexState::Finished, Step::Done(())));
    let (_, step) = storage.download_index(IndexState::Start, Event::Begin);
    assert_eq!(step, Step::Done(()));
}

#[test]
fn index_without_an_answer_is_empty_and_logged() {
    let mut storage = storage();
    let (state, _) = storage.download_index(IndexState::Start, Event::Begin);
    let fetched = Event::Fetched(Some(FetchOutcome::Failed("timed out".to_string())));
    let (_, step) = storage.download_index(state, fetched);
    assert_eq!(
        step,
        Step::Ask(Request::Log(
            "Failed to fetch package index: timed out from \
             https://packages.typst.org/preview/index.json"
                .to_string()
        ))
    );
    assert_eq!(storage.cached_index(), Some(&vec![]));
}

#[test]
fn index_request_that_cannot_start_leaves_an_empty_index() {
    let mut storage = storage();
    let (state, _) = storage.download_index(IndexState::Start, Event::Begin);
    let (state, step) = storage.download_index(state, Event::Fetched(None));
    assert_eq!((state, step), (IndexState::Finished, Step::Done(())));
    assert_eq!(storage.cached_index(), Some(&vec![]));
}

#[test]
fn index_that_cannot_be_read_is_empty_and_logged() {
    let mut storage = storage();
    let (state, _) = storage.download_index(IndexState::Start, Event::Begin);
    let fetched = Event::Fetched(Some(FetchOutcome::Response { status: 200, body: b"{".to_vec() }));
    let (state, _) = storage.download_index(state, fetched);
    let (state, step) =
        storage.download_index(state, Event::Parsed(Err("EOF while parsing".to_string())));
    assert_eq!(state, IndexState::Logging);
    assert_eq!(
        step,
        Step::Ask(Request::Log(
            "Failed to parse package index: EOF while parsing from \
             https://packages.typst.org/preview/index.json"
                .to_string()
        ))
    );
    assert_eq!(storage.cached_index(), Some(&vec![]));
}

#[test]
fn first_index_stays() {
    let mut storage = storage();
    storage.memoize_index(vec![entry("foo", 1, 0, 0)]);
    storage.memoize_index(vec![entry("bar", 2, 0, 0)]);
    storage.index_get_or_init(|| panic!("the index is there"));
    assert_eq!(storage.cached_index(), Some(&vec![entry("foo", 1, 0, 0)]));
}

#[test]
fn notifier_is_told_before_the_archive_is_fetched() {
    let mut storage = storage();
    let notifier = Counting(std::cell::Cell::new(0));
    let spec =
        PackageSpec::new("preview".to_string(), "foo".to_string(), PackageVersion::new(1, 0, 0));
    let target = PackagePath::new("/cache".to_string()).join("preview/foo/1.0.0");
    let (state, step) = storage.download_package(&spec, &target, DownloadState::Start, Event::Begin);
    assert_eq!(state, DownloadState::Notifying);
    match step {
        Step::Ask(Request::Notify(told)) => {
            assert_eq!(told, spec);
            notifier.downloading(&told);
            DummyNotifier.downloading(&told);
        }
        other => panic!("the notifier comes first, not {other:?}"),
    }
    let (state, step) = storage.download_package(&spec, &target, state, Event::Notified);
    assert_eq!(state, DownloadState::Fetching);
    assert_eq!(
        step,
        Step::Ask(Request::Fetch {
            url: "https://packages.typst.org/preview/foo-1.0.0.tar.gz".to_string(),
            cert_path: None,
        })
    );
    let fetched = Event::Fetched(Some(FetchOutcome::Response { status: 404, body: vec![] }));
    let (state, step) = storage.download_package(&spec, &target, state, fetched);
    assert_eq!(state, DownloadState::Finished);
    assert_eq!(step, Step::Done(Err(PackageError::NotFound(spec))));
    assert_eq!(notifier.0.get(), 1);
}

#[test]
fn download_that_unpacks_ends_well() {
    let mut storage = storage();
    let spec =
        PackageSpec::new("preview".to_string(), "foo".to_string(), PackageVersion::new(1, 0, 0));
    let target = PackagePath::new("/cache".to_string()).join("preview/foo/1.0.0");
    let (state, step) =
        storage.download_package(&spec, &target, DownloadState::Unpacking, Event::Unpacked(None));
    assert_eq!((state, step), (DownloadState::Finished, Step::Done(Ok(()))));
    let (state, step) = storage.download_package(
        &spec,
        &target,
        DownloadState::Removing("bad block".to_string()),
        Event::Removed,
    );
    assert_eq!(state, DownloadState::Finished);
    assert_eq!(step, Step::Done(Err(PackageError::MalformedArchive(Some("bad block".to_string())))));
}
