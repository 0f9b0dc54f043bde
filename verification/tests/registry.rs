use tinymist_package::{
    BrowserRegistry, DummyRegistry, Event, HttpRegistry, IndexState, LatestState, PackageError,
    PackagePath, PackageSpec, PackageVersion, Request, ResolveState, Step, VersionlessPackageSpec,
    DEFAULT_PACKAGES_SUBDIR, DEFAULT_REGISTRY,
};

fn spec(namespace: &str) -> PackageSpec {
    PackageSpec::new(namespace.to_string(), "foo".to_string(), PackageVersion::new(0, 1, 0))
}

fn root(base: &str) -> PackagePath {
    PackagePath::new(base.to_string())
}

#[test]
fn constants_are_those_of_the_curated_registry() {
    assert_eq!(DEFAULT_REGISTRY, "https://packages.typst.org");
    assert_eq!(DEFAULT_PACKAGES_SUBDIR, "typst/packages");
}

#[test]
fn dummy_registry_finds_nothing() {
    let registry = DummyRegistry::default();
    assert_eq!(registry.resolve(&spec("preview")), Err(PackageError::NotFound(spec("preview"))));
    assert_eq!(registry.resolve(&spec("local")), Err(PackageError::NotFound(spec("local"))));
    assert!(registry.packages().is_empty());
}

#[test]
fn http_registry_keeps_the_roots_it_is_given() {
    let mut registry = HttpRegistry::new(
        Some("/etc/root.pem".to_string()),
        Some(root("/local")),
        Some(root("/cache")),
    );
    assert_eq!(registry.local_path(), Some(root("/local")));
    assert_eq!(registry.paths(), vec![root("/local"), root("/cache")]);
    let storage = registry.storage();
    assert_eq!(storage.package_path(), Some(&root("/local")));
    assert_eq!(storage.package_cache_path(), Some(&root("/cache")));
    assert_eq!(storage.cert_path(), Some(&"/etc/root.pem".to_string()));
    assert_eq!(storage.cached_index(), None);
}

#[test]
fn http_registry_takes_missing_roots_from_the_platform() {
    let mut registry = HttpRegistry::new(None, None, Some(root("/cache")));
    let storage = registry.storage();
    assert_eq!(storage.package_cache_path(), Some(&root("/cache")));
    if let Some(local) = storage.package_path() {
        assert_eq!(local.parts, vec!["typst/packages".to_string()]);
    }
}

#[test]
fn http_registry_resolves_step_by_step() {
    let mut registry = HttpRegistry::new(None, Some(root("/local")), Some(root("/cache")));
    let local = root("/local").join("local/foo/0.1.0");
    let (state, step) = registry.resolve(&spec("local"), ResolveState::Start, Event::Begin);
    assert_eq!(step, Step::Ask(Request::Probe(local.clone())));
    let (state, step) = registry.resolve(&spec("local"), state, Event::Probed(true));
    assert_eq!(state, ResolveState::Finished);
    assert_eq!(step, Step::Done(Ok(local)));
}

#[test]
fn http_registry_serves_the_list_set_for_tests() {
    let mut registry = HttpRegistry::new(None, Some(root("/local")), Some(root("/cache")));
    let list = || vec![(spec("preview"), Some("first".to_string()))];
    registry.test_package_list(list);
    registry.test_package_list(|| panic!("the list is set"));
    let (state, step) = registry.packages(IndexState::Start, Event::Begin);
    assert_eq!((state, step), (IndexState::Finished, Step::Done(())));
    assert_eq!(registry.storage().cached_index(), Some(&list()));
    let (_, step) = registry.determine_latest_version(
        &VersionlessPackageSpec::new("preview".to_string(), "foo".to_string()),
        LatestState::Start,
        Event::Begin,
    );
    assert_eq!(step, Step::Done(Ok(PackageVersion::new(0, 1, 0))));
}

#[test]
fn browser_registry_has_only_the_roots_it_is_given() {
    let mut registry = BrowserRegistry::new(None, Some(root("/cache")));
    assert_eq!(registry.local_path(), None);
    assert_eq!(registry.storage().package_cache_path(), Some(&root("/cache")));
    assert_eq!(registry.storage().cert_path(), None);
    let (state, step) = registry.resolve(&spec("preview"), ResolveState::Start, Event::Begin);
    assert_eq!(state, ResolveState::ProbingCache);
    assert_eq!(step, Step::Ask(Request::Probe(root("/cache").join("preview/foo/0.1.0"))));
    let (state, step) = registry.packages(IndexState::Start, Event::Begin);
    assert_eq!(state, IndexState::Fetching);
    assert!(matches!(step, Step::Ask(Request::Fetch { .. })));
}

#[test]
fn browser_registry_without_roots_finds_nothing() {
    let mut registry = BrowserRegistry::new(None, None);
    let (state, step) = registry.resolve(&spec("preview"), ResolveState::Start, Event::Begin);
    assert_eq!(state, ResolveState::Finished);
    assert_eq!(step, Step::Done(Err(PackageError::NotFound(spec("preview")))));
}

#[test]
fn registry_fetches_the_index_once() {
    let mut registry = HttpRegistry::new(None, Some(root("/local")), Some(root("/cache")));
    let mut fetches = 0;
    for _ in 0..2 {
        let mut state = IndexState::Start;
        let mut event = Event::Begin;
        loop {
            let (next, step) = registry.packages(state, event);
            state = next;
            event = match step {
                Step::Done(()) => break,
                Step::Ask(Request::Fetch { .. }) => {
                    fetches += 1;
                    Event::Fetched(Some(tinymist_package::FetchOutcome::Response {
                        status: 500,
                        body: vec![],
                    }))
                }
                Step::Ask(Request::Log(_)) => Event::Logged,
                Step::Ask(other) => panic!("the index does not ask for {other:?}"),
            };
        }
    }
    assert_eq!(fetches, 1);
    assert_eq!(registry.storage().cached_index(), Some(&vec![]));
}

#[test]
fn default_registry_has_no_certificate_and_no_index() {
    let mut registry = HttpRegistry::default();
    assert_eq!(registry.storage().cert_path(), None);
    assert_eq!(registry.storage().cached_index(), None);
    let roots = registry.paths();
    assert!(roots.iter().all(|root| root.parts == vec!["typst/packages".to_string()]));
}

#[test]
fn registry_downloads_step_by_step() {
    let mut registry = HttpRegistry::new(None, None, Some(root("/cache")));
    let target = root("/cache").join("preview/foo/0.1.0");
    let (state, step) = registry.download_package(
        &spec("preview"),
        &target,
        tinymist_package::DownloadState::Start,
        Event::Begin,
    );
    assert_eq!(step, Step::Ask(Request::Notify(spec("preview"))));
    let (state, _) = registry.download_package(&spec("preview"), &target, state, Event::Notified);
    let (_, step) = registry.download_package(&spec("preview"), &target, state, Event::Fetched(None));
    assert_eq!(step, Step::Done(Err(PackageError::Other(Some("cannot spawn http thread".to_string())))));
}

#[test]
fn browser_registry_finds_the_latest_version() {
    let mut registry = BrowserRegistry::default();
    let spec = VersionlessPackageSpec::new("local".to_string(), "foo".to_string());
    let (state, step) = registry.determine_latest_version(&spec, LatestState::Start, Event::Begin);
    assert_eq!(state, LatestState::Finished);
    assert_eq!(step, Step::Done(Err("please specify the desired version".to_string())));
}
