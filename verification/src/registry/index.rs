//! The index of the curated registry, and the choice of the latest
//! version.

use vstd::prelude::*;
use crate::error::clone_detail;
use crate::sequence::lemma_filter_push;
use crate::package::{PackageSpec, SpecView, VersionlessPackageSpec, VersionlessView, CURATED_NAMESPACE};
use crate::version::{version_from_text, PackageVersion};

verus! {

/// One record of the index as the registry serves it.
#[derive(Debug, PartialEq, Eq)]
pub struct RemotePackageIndex {
    /// The name of the package.
    pub name: String,
    /// The version of the package.
    pub version: PackageVersion,
    /// What the package is for, in a sentence.
    pub description: Option<String>,
}

/// A record of the index as a mathematical value.
pub struct RecordView {
    pub name: Seq<char>,
    pub version: PackageVersion,
    pub description: Option<Seq<char>>,
}

impl View for RemotePackageIndex {
    type V = RecordView;

    open spec fn view(&self) -> RecordView {
        RecordView {
            name: self.name@,
            version: self.version,
            description: self.description.deep_view(),
        }
    }
}

impl DeepView for RemotePackageIndex {
    type V = RecordView;

    open spec fn deep_view(&self) -> RecordView {
        self@
    }
}

/// An entry of the index: a package and its description.
pub type IndexEntry = (PackageSpec, Option<String>);

/// An entry of the index as a mathematical value.
pub type IndexEntryView = (SpecView, Option<Seq<char>>);

/// The entry that a record of the index stands for: a package of the
/// curated namespace.
pub open spec fn entry_of(record: RecordView) -> IndexEntryView {
    (
        SpecView { namespace: CURATED_NAMESPACE@, name: record.name, version: record.version },
        record.description,
    )
}

/// The entries that the records of the index stand for, in their order.
pub open spec fn entries_of(records: Seq<RecordView>) -> Seq<IndexEntryView> {
    records.map_values(|record: RecordView| entry_of(record))
}

/// The latest of `versions`, if there is any.
pub open spec fn latest(versions: Seq<PackageVersion>) -> Option<PackageVersion>
    decreases versions.len(),
{
    if versions.len() == 0 {
        None
    } else {
        match latest(versions.drop_last()) {
            None => Some(versions.last()),
            Some(best) => if best.precedes(versions.last()) {
                Some(versions.last())
            } else {
                Some(best)
            },
        }
    }
}

/// The versions that the index holds of the package `name`, in the order
/// of the index.
pub open spec fn index_versions(index: Seq<IndexEntryView>, name: Seq<char>) -> Seq<
    PackageVersion,
> {
    index.filter(|entry: IndexEntryView| entry.0.name == name).map_values(
        |entry: IndexEntryView| entry.0.version,
    )
}

/// The versions that the names of a directory's children stand for: each
/// name that reads as a version gives one, in the order of the names.
pub open spec fn listed_versions(names: Seq<Seq<char>>) -> Seq<PackageVersion> {
    names.filter(|name: Seq<char>| version_from_text(name) is Some).map_values(
        |name: Seq<char>| version_from_text(name)->Some_0,
    )
}

/// The text that reports a package that the index does not hold:
/// `failed to find package @{namespace}/{name}`.
pub open spec fn missing_detail(spec: VersionlessView) -> Seq<char> {
    "failed to find package "@ + spec.text()
}

/// The text that reports that no version of a package is at hand.
pub open spec fn unspecified_detail() -> Seq<char> {
    "please specify the desired version"@
}

/// The latest version that the index holds of the package `spec`. Only the
/// name is looked at. A package that the index does not hold is an error.
pub open spec fn latest_indexed(index: Seq<IndexEntryView>, spec: VersionlessView) -> Result<
    PackageVersion,
    Seq<char>,
> {
    match latest(index_versions(index, spec.name)) {
        Some(version) => Ok(version),
        None => Err(missing_detail(spec)),
    }
}

/// The latest version among the names of a directory's children. A
/// directory in which no name reads as a version is an error.
pub open spec fn latest_listed(names: Seq<Seq<char>>) -> Result<PackageVersion, Seq<char>> {
    match latest(listed_versions(names)) {
        Some(version) => Ok(version),
        None => Err(unspecified_detail()),
    }
}

/// The view of a result that holds a version or a text.
pub open spec fn version_view(r: Result<PackageVersion, String>) -> Result<
    PackageVersion,
    Seq<char>,
> {
    match r {
        Ok(version) => Ok(version),
        Err(detail) => Err(detail@),
    }
}

/// The latest of a sequence that ends in `last` is `last` where it is
/// newer than the latest before it, and the latest before it otherwise.
pub proof fn lemma_latest_push(versions: Seq<PackageVersion>, last: PackageVersion)
    ensures
        latest(versions.push(last)) == match latest(versions) {
            None => Some(last),
            Some(best) => if best.precedes(last) {
                Some(last)
            } else {
                Some(best)
            },
        },
{
    assert(versions.push(last).drop_last() =~= versions);
}

/// The latest of some versions is one of them, and none of them is newer.
/// There is no latest version only where there is no version.
pub proof fn law_latest_is_greatest(versions: Seq<PackageVersion>)
    ensures
        latest(versions) is None <==> versions.len() == 0,
        latest(versions) matches Some(best) ==> versions.contains(best) && forall|i: int|
            0 <= i < versions.len() ==> (#[trigger] versions[i]).at_most(best),
    decreases versions.len(),
{
    if versions.len() > 0 {
        let front = versions.drop_last();
        law_latest_is_greatest(front);
        let best = latest(versions)->Some_0;
        match latest(front) {
            None => {
                assert(versions[versions.len() - 1] == best);
            },
            Some(before) => {
                if before.precedes(versions.last()) {
                    assert(versions[versions.len() - 1] == best);
                } else {
                    let k = choose|k: int| 0 <= k < front.len() && front[k] == before;
                    assert(versions[k] == best);
                }
                assert forall|i: int| 0 <= i < versions.len() implies (
                #[trigger] versions[i]).at_most(best) by {
                    if i < front.len() {
                        assert(front[i].at_most(before));
                    }
                }
            },
        }
    }
}

/// The latest version that the index holds of a package is the version of
/// an entry with that name, and no entry with that name has a newer one.
/// There is none only where no entry has that name.
pub proof fn law_latest_indexed_is_greatest(index: Seq<IndexEntryView>, spec: VersionlessView)
    ensures
        match latest_indexed(index, spec) {
            Ok(version) => (exists|i: int|
                0 <= i < index.len() && (#[trigger] index[i]).0.name == spec.name && index[i].0.version
                    == version) && (forall|j: int|
                0 <= j < index.len() && (#[trigger] index[j]).0.name == spec.name
                    ==> index[j].0.version.at_most(version)),
            Err(detail) => detail == missing_detail(spec) && forall|j: int|
                0 <= j < index.len() ==> (#[trigger] index[j]).0.name != spec.name,
        },
    decreases index.len(),
{
    if index.len() > 0 {
        let front = index.drop_last();
        let entry = index.last();
        let wanted = |entry: IndexEntryView| entry.0.name == spec.name;
        law_latest_indexed_is_greatest(front, spec);
        assert(index =~= front.push(entry));
        lemma_filter_push(front, entry, wanted);
        if wanted(entry) {
            assert(index_versions(front.push(entry), spec.name) =~= index_versions(
                front,
                spec.name,
            ).push(entry.0.version));
            lemma_latest_push(index_versions(front, spec.name), entry.0.version);
        }
        match latest_indexed(index, spec) {
            Ok(version) => {
                if wanted(entry) && version == entry.0.version {
                    assert(index[index.len() - 1].0.version == version);
                } else {
                    let i = choose|i: int|
                        0 <= i < front.len() && (#[trigger] front[i]).0.name == spec.name
                            && front[i].0.version == version;
                    assert(index[i] == front[i]);
                }
                assert forall|j: int|
                    0 <= j < index.len() && (#[trigger] index[j]).0.name
                        == spec.name implies index[j].0.version.at_most(version) by {
                    if j < front.len() {
                        assert(index[j] == front[j]);
                    }
                }
            },
            Err(_) => {
                assert forall|j: int| 0 <= j < index.len() implies (#[trigger] index[j]).0.name
                    != spec.name by {
                    if j < front.len() {
                        assert(index[j] == front[j]);
                    }
                }
            },
        }
    }
}

/// The latest version among the names of a directory's children is what
/// one of the names reads as, and no name reads as a newer one. There is
/// none only where no name reads as a version.
pub proof fn law_latest_listed_is_greatest(names: Seq<Seq<char>>)
    ensures
        match latest_listed(names) {
            Ok(version) => (exists|i: int|
                0 <= i < names.len() && version_from_text(#[trigger] names[i]) == Some(version))
                && (forall|j: int|
                0 <= j < names.len() && version_from_text(#[trigger] names[j]) is Some
                    ==> version_from_text(names[j])->Some_0.at_most(version)),
            Err(detail) => detail == unspecified_detail() && forall|j: int|
                0 <= j < names.len() ==> version_from_text(#[trigger] names[j]) is None,
        },
    decreases names.len(),
{
    if names.len() > 0 {
        let front = names.drop_last();
        let name = names.last();
        let readable = |name: Seq<char>| version_from_text(name) is Some;
        law_latest_listed_is_greatest(front);
        assert(names =~= front.push(name));
        lemma_filter_push(front, name, readable);
        if readable(name) {
            assert(listed_versions(front.push(name)) =~= listed_versions(front).push(
                version_from_text(name)->Some_0,
            ));
            lemma_latest_push(listed_versions(front), version_from_text(name)->Some_0);
        }
        match latest_listed(names) {
            Ok(version) => {
                if readable(name) && version_from_text(name) == Some(version) {
                    assert(version_from_text(names[names.len() - 1]) == Some(version));
                } else {
                    let i = choose|i: int|
                        0 <= i < front.len() && version_from_text(#[trigger] front[i]) == Some(
                            version,
                        );
                    assert(names[i] == front[i]);
                }
                assert forall|j: int|
                    0 <= j < names.len() && version_from_text(
                        #[trigger] names[j],
                    ) is Some implies version_from_text(names[j])->Some_0.at_most(version) by {
                    if j < front.len() {
                        assert(names[j] == front[j]);
                    }
                }
            },
            Err(_) => {
                assert forall|j: int| 0 <= j < names.len() implies version_from_text(
                    #[trigger] names[j],
                ) is None by {
                    if j < front.len() {
                        assert(names[j] == front[j]);
                    }
                }
            },
        }
    }
}

/// The newer of the best version so far and a candidate.
fn newer(best: Option<PackageVersion>, candidate: PackageVersion) -> (r: Option<PackageVersion>)
    ensures
        r == match best {
            None => Some(candidate),
            Some(b) => if b.precedes(candidate) {
                Some(candidate)
            } else {
                Some(b)
            },
        },
{
    match best {
        None => Some(candidate),
        Some(b) => if b.is_before(&candidate) {
            Some(candidate)
        } else {
            Some(b)
        },
    }
}

/// The entries that the records of the index stand for.
pub fn index_from_records(records: &Vec<RemotePackageIndex>) -> (r: Vec<IndexEntry>)
    ensures
        r.deep_view() == entries_of(records.deep_view()),
{
    let mut out: Vec<IndexEntry> = Vec::new();
    let mut i: usize = 0;
    while i < records.len()
        invariant
            i <= records.len(),
            out.len() == i,
            forall|j: int| 0 <= j < i ==> (#[trigger] out[j]).deep_view() == entry_of(records[j]@),
        decreases records.len() - i,
    {
        let record = &records[i];
        let spec = PackageSpec {
            namespace: String::from_str(CURATED_NAMESPACE),
            name: record.name.clone(),
            version: record.version,
        };
        out.push((spec, clone_detail(&record.description)));
        i = i + 1;
    }
    assert(out.deep_view() =~= entries_of(records.deep_view()));
    out
}

/// The latest version that the index holds of the package `spec`.
pub fn latest_in_index(index: &Vec<IndexEntry>, spec: &VersionlessPackageSpec) -> (r: Result<
    PackageVersion,
    String,
>)
    ensures
        version_view(r) == latest_indexed(index.deep_view(), spec@),
{
    let ghost entries = index.deep_view();
    let ghost wanted = |entry: IndexEntryView| entry.0.name == spec@.name;
    let mut best: Option<PackageVersion> = None;
    let mut i: usize = 0;
    while i < index.len()
        invariant
            i <= index.len(),
            entries == index.deep_view(),
            wanted == |entry: IndexEntryView| entry.0.name == spec@.name,
            best == latest(index_versions(entries.take(i as int), spec@.name)),
        decreases index.len() - i,
    {
        proof {
            let before = entries.take(i as int);
            let entry = entries[i as int];
            assert(entries.take(i + 1) =~= before.push(entry));
            lemma_filter_push(before, entry, wanted);
            if wanted(entry) {
                assert(index_versions(before.push(entry), spec@.name) =~= index_versions(
                    before,
                    spec@.name,
                ).push(entry.0.version));
                lemma_latest_push(index_versions(before, spec@.name), entry.0.version);
            }
        }
        if index[i].0.name == spec.name {
            best = newer(best, index[i].0.version);
        }
        i = i + 1;
    }
    assert(entries.take(index.len() as int) =~= entries);
    match best {
        Some(version) => Ok(version),
        None => {
            let mut detail = String::from_str("failed to find package ");
            detail.append(spec.to_text().as_str());
            Err(detail)
        },
    }
}

/// The latest version among the names of a directory's children.
pub fn latest_in_listing(names: &Vec<String>) -> (r: Result<PackageVersion, String>)
    ensures
        version_view(r) == latest_listed(names.deep_view()),
{
    let ghost texts = names.deep_view();
    let ghost readable = |name: Seq<char>| version_from_text(name) is Some;
    let mut best: Option<PackageVersion> = None;
    let mut i: usize = 0;
    while i < names.len()
        invariant
            i <= names.len(),
            texts == names.deep_view(),
            readable == |name: Seq<char>| version_from_text(name) is Some,
            best == latest(listed_versions(texts.take(i as int))),
        decreases names.len() - i,
    {
        proof {
            let before = texts.take(i as int);
            let name = texts[i as int];
            assert(texts.take(i + 1) =~= before.push(name));
            lemma_filter_push(before, name, readable);
            if readable(name) {
                assert(listed_versions(before.push(name)) =~= listed_versions(before).push(
                    version_from_text(name)->Some_0,
                ));
                lemma_latest_push(listed_versions(before), version_from_text(name)->Some_0);
            }
        }
        match PackageVersion::parse(names[i].as_str()) {
            Some(version) => {
                best = newer(best, version);
            },
            None => {},
        }
        i = i + 1;
    }
    assert(texts.take(names.len() as int) =~= texts);
    match best {
        Some(version) => Ok(version),
        None => Err(String::from_str("please specify the desired version")),
    }
}

} // verus!
