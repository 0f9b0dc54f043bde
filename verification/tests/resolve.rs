use tinymist_package::{
    Event, FetchOutcome, PackageError, PackagePath, PackageSpec, PackageStorage, PackageVersion,
    Request, ResolveState, Step,
};

/// How the outside answers in a test.
struct World {
    present: Vec<PackagePath>,
    fetched: Option<FetchOutcome>,
    unpack_failure: Option<String>,
    lands: bool,
}

/// Runs a resolution to its end and returns the result with the requests made.
fn run(
    storage: &mut PackageStorage,
    spec: &PackageSpec,
    mut world: World,
) -> (Result<PackagePath, PackageError>, Vec<Request>) {
    let mut requests = Vec::new();
    let mut state = ResolveState::Start;
    let mut event = Event::Begin;
    let mut unpacked = false;
    loop {
        let (next, step) = storage.prepare_package(spec, state, event);
        state = next;
        let request = match step {
            Step::Done(result) => return (result, requests),
            Step::Ask(request) => request,
        };
        event = match &request {
            Request::Notify(_) => Event::Notified,
            Request::Probe(path) => {
                Event::Probed(if unpacked { world.lands } else { world.present.contains(path) })
            }
            Request::Fetch { .. } => Event::Fetched(world.fetched.take()),
            Request::Unpack { .. } => {
                unpacked = world.unpack_failure.is_none();
                Event::Unpacked(world.unpack_failure.clone())
            }
            Request::Remove(_) => Event::Removed,
            other => panic!("a resolution does not ask for {other:?}"),
        };
        requests.push(request);
    }
}

fn spec(namespace: &str) -> PackageSpec {
    PackageSpec::new(namespace.to_string(), "foo".to_string(), PackageVersion::new(0, 1, 0))
}

fn root(base: &str) -> PackagePath {
    PackagePath::new(base.to_string())
}

fn storage() -> PackageStorage {
    PackageStorage::new(Some(root("/cache")), Some(root("/local")), None)
}

fn is_notify(request: &Request) -> bool {
    matches!(request, Request::Notify(_))
}

fn is_fetch(request: &Request) -> bool {
    matches!(request, Request::Fetch { .. })
}

fn gzip(data: &[u8]) -> Vec<u8> {
    let mut encoder = flate2::write::GzEncoder::new(Vec::new(), flate2::Compression::default());
    std::io::Write::write_all(&mut encoder, data).unwrap();
    encoder.finish().unwrap()
}

fn empty_world() -> World {
    World { present: vec![], fetched: None, unpack_failure: None, lands: false }
}

#[test]
fn subdir_is_namespace_name_version() {
    assert_eq!(spec("preview").subdir(), "preview/foo/0.1.0");
    assert_eq!(spec("preview").versionless().subdir(), "preview/foo");
    assert_eq!(spec("local").versionless().to_text(), "@local/foo");
}

#[test]
fn local_root_wins_over_cache_root() {
    let local = root("/local").join("preview/foo/0.1.0");
    let cache = root("/cache").join("preview/foo/0.1.0");
    let world = World { present: vec![cache, local.clone()], ..empty_world() };
    let (result, requests) = run(&mut storage(), &spec("preview"), world);
    assert_eq!(result, Ok(local.clone()));
    assert_eq!(requests, vec![Request::Probe(local)]);
}

#[test]
fn cache_root_answers_when_local_root_does_not() {
    let local = root("/local").join("preview/foo/0.1.0");
    let cache = root("/cache").join("preview/foo/0.1.0");
    let world = World { present: vec![cache.clone()], ..empty_world() };
    let (result, requests) = run(&mut storage(), &spec("preview"), world);
    assert_eq!(result, Ok(cache.clone()));
    assert_eq!(requests, vec![Request::Probe(local), Request::Probe(cache)]);
}

#[test]
fn other_namespaces_are_never_fetched() {
    let (result, requests) = run(&mut storage(), &spec("local"), empty_world());
    assert_eq!(result, Err(PackageError::NotFound(spec("local"))));
    assert!(!requests.iter().any(is_fetch));
    assert!(!requests.iter().any(is_notify));
    assert_eq!(requests.len(), 2);
}

#[test]
fn without_roots_nothing_is_found_or_fetched() {
    let mut storage = PackageStorage::new(None, None, None);
    let (result, requests) = run(&mut storage, &spec("preview"), empty_world());
    assert_eq!(result, Err(PackageError::NotFound(spec("preview"))));
    assert!(requests.is_empty());
}

#[test]
fn without_cache_root_nothing_is_fetched() {
    let mut storage = PackageStorage::new(None, Some(root("/local")), None);
    let (result, requests) = run(&mut storage, &spec("preview"), empty_world());
    assert_eq!(result, Err(PackageError::NotFound(spec("preview"))));
    assert!(!requests.iter().any(is_fetch));
}

#[test]
fn status_404_is_not_found() {
    let world = World {
        fetched: Some(FetchOutcome::Response { status: 404, body: vec![] }),
        ..empty_world()
    };
    let (result, requests) = run(&mut storage(), &spec("preview"), world);
    assert_eq!(result, Err(PackageError::NotFound(spec("preview"))));
    assert_eq!(
        requests,
        vec![
            Request::Probe(root("/local").join("preview/foo/0.1.0")),
            Request::Probe(root("/cache").join("preview/foo/0.1.0")),
            Request::Notify(spec("preview")),
            Request::Fetch {
                url: "https://packages.typst.org/preview/foo-0.1.0.tar.gz".to_string(),
                cert_path: None,
            },
        ]
    );
}

#[test]
fn status_500_is_a_network_failure() {
    let world = World {
        fetched: Some(FetchOutcome::Response { status: 500, body: vec![] }),
        ..empty_world()
    };
    let (result, _) = run(&mut storage(), &spec("preview"), world);
    assert_eq!(result, Err(PackageError::NetworkFailed(Some("status code 500".to_string()))));
}

#[test]
fn transport_failure_is_a_network_failure() {
    let world =
        World { fetched: Some(FetchOutcome::Failed("connection refused".to_string())), ..empty_world() };
    let (result, _) = run(&mut storage(), &spec("preview"), world);
    assert_eq!(result, Err(PackageError::NetworkFailed(Some("connection refused".to_string()))));
}

#[test]
fn request_that_cannot_start_is_an_environment_failure() {
    let (result, requests) = run(&mut storage(), &spec("preview"), empty_world());
    assert_eq!(result, Err(PackageError::Other(Some("cannot spawn http thread".to_string()))));
    assert!(requests.iter().any(is_fetch));
}

#[test]
fn corrupted_gzip_trailer_is_malformed_and_cleaned_up() {
    let mut body = gzip(b"some bytes that stand for a tar stream");
    let at = body.len() - 8;
    body[at] ^= 0xff;
    let world = World { fetched: Some(FetchOutcome::Response { status: 200, body }), ..empty_world() };
    let (result, requests) = run(&mut storage(), &spec("preview"), world);
    assert!(matches!(result, Err(PackageError::MalformedArchive(Some(_)))));
    let target = root("/cache").join("preview/foo/0.1.0");
    assert_eq!(requests.last(), Some(&Request::Remove(target)));
    assert!(!requests.iter().any(|request| matches!(request, Request::Unpack { .. })));
}

#[test]
fn failed_unpacking_is_malformed_and_cleaned_up() {
    let world = World {
        fetched: Some(FetchOutcome::Response { status: 200, body: gzip(b"not a tar stream") }),
        unpack_failure: Some("unexpected end of file".to_string()),
        ..empty_world()
    };
    let (result, requests) = run(&mut storage(), &spec("preview"), world);
    assert_eq!(
        result,
        Err(PackageError::MalformedArchive(Some("unexpected end of file".to_string())))
    );
    let target = root("/cache").join("preview/foo/0.1.0");
    assert_eq!(
        requests[requests.len() - 2],
        Request::Unpack { archive: b"not a tar stream".to_vec(), target: target.clone() }
    );
    assert_eq!(requests.last(), Some(&Request::Remove(target)));
}

#[test]
fn downloaded_package_is_found_in_the_cache_root() {
    let world = World {
        fetched: Some(FetchOutcome::Response { status: 200, body: gzip(b"tar") }),
        lands: true,
        ..empty_world()
    };
    let (result, requests) = run(&mut storage(), &spec("preview"), world);
    let target = root("/cache").join("preview/foo/0.1.0");
    assert_eq!(result, Ok(target.clone()));
    assert_eq!(requests.len(), 6);
    assert_eq!(requests[4], Request::Unpack { archive: b"tar".to_vec(), target: target.clone() });
    assert_eq!(requests[5], Request::Probe(target));
}

#[test]
fn download_that_leaves_no_directory_is_not_found() {
    let world = World {
        fetched: Some(FetchOutcome::Response { status: 204, body: gzip(b"") }),
        lands: false,
        ..empty_world()
    };
    let (result, _) = run(&mut storage(), &spec("preview"), world);
    assert_eq!(result, Err(PackageError::NotFound(spec("preview"))));
}

#[test]
fn certificate_file_goes_with_the_request() {
    let mut storage =
        PackageStorage::new(Some(root("/cache")), None, Some("/etc/root.pem".to_string()));
    let (_, requests) = run(&mut storage, &spec("preview"), empty_world());
    assert_eq!(
        requests.last(),
        Some(&Request::Fetch {
            url: "https://packages.typst.org/preview/foo-0.1.0.tar.gz".to_string(),
            cert_path: Some("/etc/root.pem".to_string()),
        })
    );
}

#[test]
fn event_out_of_turn_ends_the_resolution() {
    let mut storage = storage();
    let (state, step) = storage.prepare_package(&spec("preview"), ResolveState::Start, Event::Removed);
    assert_eq!(state, ResolveState::Finished);
    assert_eq!(step, Step::Done(Err(PackageError::Other(Some("unexpected event".to_string())))));
}
