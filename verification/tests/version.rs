use tinymist_package::version::PackageVersion;

#[test]
fn version_text_is_dotted_decimal() {
    assert_eq!(PackageVersion::new(0, 1, 0).to_text(), "0.1.0");
    assert_eq!(PackageVersion::new(12, 0, 345).to_text(), "12.0.345");
    assert_eq!(PackageVersion::new(u32::MAX, 10, 9).to_text(), "4294967295.10.9");
}

#[test]
fn version_text_is_that_of_typst() {
    for (major, minor, patch) in [(0, 0, 0), (1, 20, 300), (7, 0, 10), (99, 100, 101)] {
        let ours = PackageVersion::new(major, minor, patch);
        let theirs = typst_syntax::package::PackageVersion { major, minor, patch };
        assert_eq!(ours.to_text(), format!("{theirs}"));
    }
}

#[test]
fn version_parse_reads_three_numbers() {
    assert_eq!(PackageVersion::parse("0.1.0"), Some(PackageVersion::new(0, 1, 0)));
    assert_eq!(PackageVersion::parse("10.20.30"), Some(PackageVersion::new(10, 20, 30)));
    assert_eq!(PackageVersion::parse("1.2"), None);
    assert_eq!(PackageVersion::parse("1.2.3.4"), None);
    assert_eq!(PackageVersion::parse("1..3"), None);
    assert_eq!(PackageVersion::parse("a.b.c"), None);
    assert_eq!(PackageVersion::parse(""), None);
    assert_eq!(PackageVersion::parse("1.2.4294967296"), None);
}

#[test]
fn version_parse_undoes_version_text() {
    for version in [PackageVersion::new(0, 1, 0), PackageVersion::new(3, 14, 159)] {
        assert_eq!(PackageVersion::parse(&version.to_text()), Some(version));
    }
}

#[test]
fn versions_are_ordered_by_major_then_minor_then_patch() {
    let versions = [
        PackageVersion::new(0, 1, 0),
        PackageVersion::new(0, 1, 5),
        PackageVersion::new(0, 2, 0),
        PackageVersion::new(1, 0, 0),
        PackageVersion::new(1, 0, 1),
    ];
    for (i, a) in versions.iter().enumerate() {
        for (j, b) in versions.iter().enumerate() {
            assert_eq!(a.is_before(b), i < j);
            assert_eq!(a.is_before(b), a < b);
        }
    }
    assert_eq!(versions.iter().max(), Some(&PackageVersion::new(1, 0, 1)));
}
