use tinymist_package::{
    ArchiveEntry, FetchOutcome, GitHubReleasePack, HttpPack, PackFile, PackFs, PackageError,
    PackageSpec, PackageVersion, TarballPack, UniversePack,
};

fn spec() -> PackageSpec {
    PackageSpec::new("preview".to_string(), "foo".to_string(), PackageVersion::new(0, 1, 0))
}

/// A tar stream with a directory and the files `a.txt` and `b/c.txt`.
fn tar_stream() -> Vec<u8> {
    let mut builder = tar::Builder::new(Vec::new());
    let mut dir = tar::Header::new_gnu();
    dir.set_entry_type(tar::EntryType::Directory);
    dir.set_size(0);
    dir.set_mode(0o755);
    builder.append_data(&mut dir, "b/", std::io::empty()).unwrap();
    for (path, data) in [("a.txt", "x"), ("b/c.txt", "y")] {
        let mut header = tar::Header::new_gnu();
        header.set_size(data.len() as u64);
        header.set_mode(0o644);
        builder.append_data(&mut header, path, data.as_bytes()).unwrap();
    }
    builder.into_inner().unwrap()
}

fn gzip(data: &[u8]) -> Vec<u8> {
    let mut encoder = flate2::write::GzEncoder::new(Vec::new(), flate2::Compression::default());
    std::io::Write::write_all(&mut encoder, data).unwrap();
    encoder.finish().unwrap()
}

fn collect<P>(read: P) -> (Result<(), PackageError>, Vec<(String, Vec<u8>)>)
where
    P: FnOnce(&mut dyn FnMut(&String, &PackFile) -> Result<(), PackageError>) -> Result<(), PackageError>,
{
    let mut seen = Vec::new();
    let result = read(&mut |name: &String, file: &PackFile| {
        seen.push((name.clone(), file.data.clone()));
        Ok(())
    });
    (result, seen)
}

fn files() -> Vec<(String, Vec<u8>)> {
    vec![("a.txt".to_string(), b"x".to_vec()), ("b/c.txt".to_string(), b"y".to_vec())]
}

#[test]
fn tarball_visits_each_file_once() {
    let mut pack = TarballPack::new(tar_stream());
    let (result, mut seen) = collect(|mut f| pack.read_all(&mut f));
    assert_eq!(result, Ok(()));
    seen.sort();
    assert_eq!(seen, files());
}

#[test]
fn tarball_lists_its_members_in_order() {
    let pack = TarballPack::new(tar_stream());
    let members = pack.members().unwrap();
    let expected = vec![
        ArchiveEntry { path: "b/".to_string(), is_file: false, file: PackFile { data: vec![] } },
        ArchiveEntry { path: "a.txt".to_string(), is_file: true, file: PackFile { data: b"x".to_vec() } },
        ArchiveEntry {
            path: "b/c.txt".to_string(),
            is_file: true,
            file: PackFile { data: b"y".to_vec() },
        },
    ];
    assert_eq!(members, expected);
}

#[test]
fn tarball_lists_its_files_and_nothing_else() {
    let pack = TarballPack::new(tar_stream());
    let listed: Vec<(String, Vec<u8>)> =
        pack.files().unwrap().into_iter().map(|entry| (entry.path, entry.file.data)).collect();
    assert_eq!(listed, files());
}

#[test]
fn tarball_hands_on_the_error_of_the_visitor() {
    let mut pack = TarballPack::new(tar_stream());
    let mut calls = 0;
    let result = pack.read_all(&mut |_name: &String, _file: &PackFile| {
        calls += 1;
        Err(PackageError::Other(Some("stop".to_string())))
    });
    assert_eq!(result, Err(PackageError::Other(Some("stop".to_string()))));
    assert_eq!(calls, 1);
}

#[test]
fn broken_tarball_is_malformed() {
    let mut stream = tar_stream();
    stream[512 + 10] ^= 0xff;
    let mut pack = TarballPack::new(stream.clone());
    let (result, seen) = collect(|mut f| pack.read_all(&mut f));
    assert!(matches!(result, Err(PackageError::MalformedArchive(Some(_)))));
    assert!(seen.is_empty());
    assert!(matches!(
        TarballPack::new(stream).members(),
        Err(PackageError::MalformedArchive(Some(_)))
    ));
}

#[test]
fn empty_stream_has_no_files() {
    let mut pack = TarballPack::new(vec![]);
    let (result, seen) = collect(|mut f| pack.read_all(&mut f));
    assert_eq!(result, Ok(()));
    assert!(seen.is_empty());
}

#[test]
fn http_pack_reads_a_compressed_archive() {
    let mut pack = HttpPack::new(spec(), "https://example.org/foo.tar.gz".to_string());
    let outcome = Some(FetchOutcome::Response { status: 200, body: gzip(&tar_stream()) });
    let (result, seen) = collect(|mut f| pack.read_all(outcome, &mut f));
    assert_eq!(result, Ok(()));
    assert_eq!(seen, files());
}

#[test]
fn http_pack_maps_statuses_to_errors() {
    let mut pack = HttpPack::new(spec(), "https://example.org/foo.tar.gz".to_string());
    let outcome = Some(FetchOutcome::Response { status: 404, body: vec![] });
    let (result, seen) = collect(|mut f| pack.read_all(outcome, &mut f));
    assert_eq!(result, Err(PackageError::NotFound(spec())));
    assert!(seen.is_empty());
    let outcome = Some(FetchOutcome::Response { status: 500, body: vec![] });
    let (result, _) = collect(|mut f| pack.read_all(outcome, &mut f));
    assert_eq!(result, Err(PackageError::NetworkFailed(Some("status code 500".to_string()))));
    let outcome = Some(FetchOutcome::Failed("no route to host".to_string()));
    let (result, _) = collect(|mut f| pack.read_all(outcome, &mut f));
    assert_eq!(result, Err(PackageError::NetworkFailed(Some("no route to host".to_string()))));
    let (result, _) = collect(|mut f| pack.read_all(None, &mut f));
    assert_eq!(result, Err(PackageError::Other(Some("cannot spawn http thread".to_string()))));
}

#[test]
fn http_pack_rejects_what_is_not_gzip() {
    let mut pack = HttpPack::new(spec(), "https://example.org/foo.tar.gz".to_string());
    let outcome = Some(FetchOutcome::Response { status: 200, body: tar_stream() });
    let (result, seen) = collect(|mut f| pack.read_all(outcome, &mut f));
    assert!(matches!(result, Err(PackageError::MalformedArchive(Some(_)))));
    assert!(seen.is_empty());
}

#[test]
fn universe_pack_is_fetched_from_the_registry() {
    let mut pack = UniversePack::new(spec());
    assert_eq!(pack.url(), "https://packages.typst.org/preview/foo-0.1.0.tar.gz");
    let outcome = Some(FetchOutcome::Response { status: 200, body: gzip(&tar_stream()) });
    let (result, seen) = collect(|mut f| pack.read_all(outcome, &mut f));
    assert_eq!(result, Ok(()));
    assert_eq!(seen, files());
}

#[test]
fn release_pack_is_fetched_from_the_latest_release() {
    let mut pack = GitHubReleasePack {
        specifier: spec(),
        repo: "typst/packages".to_string(),
        name: "foo.tar.gz".to_string(),
    };
    assert_eq!(
        pack.url(),
        "https://api.github.com/repos/typst/packages/releases/latest/foo.tar.gz"
    );
    let outcome = Some(FetchOutcome::Response { status: 404, body: vec![] });
    let (result, _) = collect(|mut f| pack.read_all(outcome, &mut f));
    assert_eq!(result, Err(PackageError::NotFound(spec())));
}
