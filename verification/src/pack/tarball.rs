//! A package held as a tar stream.

use vstd::prelude::*;
use crate::error::{ErrorView, PackageError};
use crate::pack::archive::{list_tar, tar_listing, ArchiveEntry, EntryView, PackFile};
use crate::sequence::lemma_filter_push;

verus! {

/// What a visit of the files among `members` with the visitor `f` may end
/// in. The visit goes through the members in their order and hands each
/// regular file to `f`. It ends well where `f` accepted every file. It ends
/// in the error that `f` gave for a file, where `f` accepted every file
/// before that one.
pub open spec fn visited<F>(f: F, members: Seq<ArchiveEntry>, r: Result<(), PackageError>) -> bool where
    F: FnMut(&String, &PackFile) -> Result<(), PackageError>,
 {
    match r {
        Ok(()) => forall|i: int|
            0 <= i < members.len() && members[i].is_file ==> call_ensures(
                f,
                (&#[trigger] members[i].path, &members[i].file),
                Ok(()),
            ),
        Err(err) => exists|k: int|
            0 <= k < members.len() && members[k].is_file && call_ensures(
                f,
                (&#[trigger] members[k].path, &members[k].file),
                Err(err),
            ) && forall|i: int|
                0 <= i < k && members[i].is_file ==> call_ensures(
                    f,
                    (&#[trigger] members[i].path, &members[i].file),
                    Ok(()),
                ),
    }
}

/// Hands each regular file among `members` to the visitor, in order, and
/// stops at the first that the visitor rejects. The visitor is the same
/// afterwards and may be handed on to another visit.
pub fn visit_files<F>(members: &Vec<ArchiveEntry>, f: &mut F) -> (r: Result<(), PackageError>) where
    F: FnMut(&String, &PackFile) -> Result<(), PackageError>,

    requires
        forall|name: &String, file: &PackFile| call_requires(*old(f), (name, file)),
    ensures
        *final(f) == *old(f),
        visited(*old(f), members@, r),
{
    broadcast use vstd::function::group_function_axioms;

    let mut i: usize = 0;
    while i < members.len()
        invariant
            i <= members.len(),
            forall|name: &String, file: &PackFile| call_requires(*f, (name, file)),
            *f == *old(f),
            forall|j: int|
                0 <= j < i && members[j].is_file ==> call_ensures(
                    *old(f),
                    (&#[trigger] members[j].path, &members[j].file),
                    Ok(()),
                ),
        decreases members.len() - i,
    {
        let member = &members[i];
        if member.is_file {
            let outcome = f(&member.path, &member.file);
            match outcome {
                Ok(()) => {
                    assert(outcome->Ok_0 == ());
                },
                Err(err) => {
                    return Err(err);
                },
            }
        }
        i = i + 1;
    }
    Ok(())
}

/// A source of package files: it hands each of its files to a visitor.
pub trait PackFs {
    /// Hands every file of the package to the visitor `f`, with its path.
    /// An error of the visitor ends the visit and is returned.
    fn read_all<F>(&mut self, f: &mut F) -> (r: Result<(), PackageError>) where
        F: FnMut(&String, &PackFile) -> Result<(), PackageError>,

        requires
            forall|name: &String, file: &PackFile| call_requires(*old(f), (name, file)),
    ;
}

/// A package held as a tar stream, already decompressed.
#[derive(Debug, PartialEq, Eq)]
pub struct TarballPack {
    /// The bytes of the tar stream.
    pub reader: Vec<u8>,
}

/// The regular files among the members of a tar stream, in their order.
pub open spec fn files_of(members: Seq<EntryView>) -> Seq<EntryView> {
    members.filter(|member: EntryView| member.is_file)
}

/// The members of a tar stream as mathematical values.
pub open spec fn members_view(members: Seq<ArchiveEntry>) -> Seq<EntryView> {
    members.map_values(|m: ArchiveEntry| m@)
}

/// What reading the tar stream `data` with the visitor `f` may end in. The
/// members that could be read are visited first. Where the visitor rejects
/// a file, its error is the result. Where it accepts them all, the result
/// is success if the stream was read to its end, and "malformed archive"
/// with the text of the failure if the stream broke.
pub open spec fn read_outcome<F>(f: F, data: Seq<u8>, r: Result<(), PackageError>) -> bool where
    F: FnMut(&String, &PackFile) -> Result<(), PackageError>,
 {
    exists|members: Seq<ArchiveEntry>|
        #![trigger members_view(members)]
        members_view(members) == tar_listing(data).0 && match tar_listing(data).1 {
            None => visited(f, members, r),
            Some(detail) => match r {
                Ok(()) => false,
                Err(err) => visited(f, members, r) || (visited(f, members, Ok(())) && err@
                    == ErrorView::MalformedArchive(Some(detail))),
            },
        }
}

impl TarballPack {
    /// The package held by the tar stream `reader`.
    pub fn new(reader: Vec<u8>) -> (r: Self)
        ensures
            r.reader == reader,
    {
        TarballPack { reader }
    }

    /// The members of the stream, in their order. A stream that breaks is
    /// a malformed archive, with the text of the failure.
    pub fn members(&self) -> (r: Result<Vec<ArchiveEntry>, PackageError>)
        ensures
            match tar_listing(self.reader@).1 {
                None => r matches Ok(members) && members.deep_view() == tar_listing(
                    self.reader@,
                ).0,
                Some(detail) => r matches Err(err) && err@ == ErrorView::MalformedArchive(
                    Some(detail),
                ),
            },
    {
        let (members, failure) = list_tar(&self.reader);
        match failure {
            None => Ok(members),
            Some(detail) => Err(PackageError::MalformedArchive(Some(detail))),
        }
    }

    /// The regular files of the stream, in their order: each of them once
    /// and nothing else. A stream that breaks is a malformed archive, with
    /// the text of the failure.
    pub fn files(&self) -> (r: Result<Vec<ArchiveEntry>, PackageError>)
        ensures
            match tar_listing(self.reader@).1 {
                None => r matches Ok(files) && files.deep_view() == files_of(
                    tar_listing(self.reader@).0,
                ),
                Some(detail) => r matches Err(err) && err@ == ErrorView::MalformedArchive(
                    Some(detail),
                ),
            },
    {
        let members = self.members()?;
        let ghost listed = members.deep_view();
        let ghost regular = |member: EntryView| member.is_file;
        let mut files: Vec<ArchiveEntry> = Vec::new();
        let mut i: usize = 0;
        while i < members.len()
            invariant
                i <= members.len(),
                listed == members.deep_view(),
                regular == |member: EntryView| member.is_file,
                files.deep_view() == files_of(listed.take(i as int)),
            decreases members.len() - i,
        {
            proof {
                let before = listed.take(i as int);
                assert(listed.take(i + 1) =~= before.push(listed[i as int]));
                lemma_filter_push(before, listed[i as int], regular);
            }
            if members[i].is_file {
                let ghost kept = files.deep_view();
                files.push(members[i].clone());
                assert(files.deep_view() =~= kept.push(listed[i as int]));
            }
            i = i + 1;
        }
        assert(listed.take(members.len() as int) =~= listed);
        Ok(files)
    }
}

impl PackFs for TarballPack {
    fn read_all<F>(&mut self, f: &mut F) -> (r: Result<(), PackageError>) where
        F: FnMut(&String, &PackFile) -> Result<(), PackageError>,

        ensures
            final(self).reader == old(self).reader,
            *final(f) == *old(f),
            read_outcome(*old(f), old(self).reader@, r),
    {
        let (members, failure) = list_tar(&self.reader);
        assert(members_view(members@) =~= members.deep_view());
        let visit = visit_files(&members, f);
        match visit {
            Err(err) => Err(err),
            Ok(()) => {
                assert(visit->Ok_0 == ());
                match failure {
                    None => Ok(()),
                    Some(detail) => Err(PackageError::MalformedArchive(Some(detail))),
                }
            },
        }
    }
}

} // verus!
