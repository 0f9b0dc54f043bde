//! Reading archives that are held in memory.
//!
//! Decompression is done by `flate2` and the reading of tar streams by
//! `tar`. What they return is a function of the bytes given to them; the
//! contracts here name these results and do not spell them out.

use vstd::prelude::*;

verus! {

/// The contents of one file of a package.
#[derive(Debug, PartialEq, Eq)]
pub struct PackFile {
    /// The bytes of the file.
    pub data: Vec<u8>,
}

/// One member of a tar stream.
#[derive(Debug, PartialEq, Eq)]
pub struct ArchiveEntry {
    /// The path of the member inside the archive.
    pub path: String,
    /// Whether the member is a regular file.
    pub is_file: bool,
    /// The contents of the member.
    pub file: PackFile,
}

/// A member of a tar stream as a mathematical value.
pub struct EntryView {
    pub path: Seq<char>,
    pub is_file: bool,
    pub data: Seq<u8>,
}

impl View for PackFile {
    type V = Seq<u8>;

    open spec fn view(&self) -> Seq<u8> {
        self.data@
    }
}

impl DeepView for PackFile {
    type V = Seq<u8>;

    open spec fn deep_view(&self) -> Seq<u8> {
        self@
    }
}

impl View for ArchiveEntry {
    type V = EntryView;

    open spec fn view(&self) -> EntryView {
        EntryView { path: self.path@, is_file: self.is_file, data: self.file@ }
    }
}

impl DeepView for ArchiveEntry {
    type V = EntryView;

    open spec fn deep_view(&self) -> EntryView {
        self@
    }
}

impl Clone for PackFile {
    fn clone(&self) -> (r: Self)
        ensures
            r@ == self@,
    {
        let data = self.data.clone();
        assert(data@ =~= self.data@);
        PackFile { data }
    }
}

impl Clone for ArchiveEntry {
    fn clone(&self) -> (r: Self)
        ensures
            r@ == self@,
    {
        ArchiveEntry { path: self.path.clone(), is_file: self.is_file, file: self.file.clone() }
    }
}

/// What decompressing `data` as a gzip stream yields: the decompressed
/// bytes, or the text of the error.
pub uninterp spec fn gzip_decoded(data: Seq<u8>) -> Result<Seq<u8>, Seq<char>>;

/// What reading `data` as a tar stream yields: the members that were read
/// before the stream ended or broke, in their order, and the text of the
/// error where it broke.
pub uninterp spec fn tar_listing(data: Seq<u8>) -> (Seq<EntryView>, Option<Seq<char>>);

/// The view of a result that holds bytes or a text.
pub open spec fn decoded_view(r: Result<Vec<u8>, String>) -> Result<Seq<u8>, Seq<char>> {
    match r {
        Ok(data) => Ok(data@),
        Err(detail) => Err(detail@),
    }
}

/// Decompresses a gzip stream with `flate2::read::GzDecoder`, read to its
/// end. The contract names the result; it claims only that the same bytes
/// give the same result.
#[verifier::external_body]
pub(crate) fn gunzip(data: &Vec<u8>) -> (r: Result<Vec<u8>, String>)
    ensures
        decoded_view(r) == gzip_decoded(data@),
{
    let mut decoder = flate2::read::GzDecoder::new(data.as_slice());
    let mut out = Vec::new();
    match std::io::Read::read_to_end(&mut decoder, &mut out) {
        Ok(_) => Ok(out),
        Err(err) => Err(err.to_string()),
    }
}

/// Reads the members of a tar stream with `tar::Archive::entries`, each
/// with its path, its kind and its contents, up to the first error. The
/// contract names the result; it claims only that the same bytes give the
/// same result.
#[verifier::external_body]
pub(crate) fn list_tar(data: &Vec<u8>) -> (r: (Vec<ArchiveEntry>, Option<String>))
    ensures
        r.0.deep_view() == tar_listing(data@).0,
        r.1.deep_view() == tar_listing(data@).1,
{
    let mut archive = tar::Archive::new(data.as_slice());
    let mut out = Vec::new();
    let read = (|| -> std::io::Result<()> {
        for entry in archive.entries()? {
            let mut entry = entry?;
            let path = String::from_utf8_lossy(&entry.path_bytes()).into_owned();
            let is_file = entry.header().entry_type().is_file();
            let mut data = Vec::new();
            std::io::Read::read_to_end(&mut entry, &mut data)?;
            out.push(ArchiveEntry { path, is_file, file: PackFile { data } });
        }
        Ok(())
    })();
    (out, read.err().map(|err| err.to_string()))
}

} // verus!
