//! Directories as plain values.
//!
//! The engine never touches the file system. It names a directory by the
//! path it starts from and the relative paths joined to it, in order, and
//! leaves it to its caller to make a path of the platform out of these.

use vstd::prelude::*;

verus! {

/// A directory: a base path and the relative paths joined to it.
#[derive(Debug, PartialEq, Eq, Hash)]
pub struct PackagePath {
    /// The path that the directory is reached from.
    pub base: String,
    /// The relative paths joined to the base, first to last.
    pub parts: Vec<String>,
}

/// A directory as a mathematical value.
pub struct PathView {
    pub base: Seq<char>,
    pub parts: Seq<Seq<char>>,
}

impl PathView {
    /// The directory reached from `self` by the relative path `part`.
    pub open spec fn join(self, part: Seq<char>) -> PathView {
        PathView { base: self.base, parts: self.parts.push(part) }
    }
}

impl View for PackagePath {
    type V = PathView;

    open spec fn view(&self) -> PathView {
        PathView { base: self.base@, parts: self.parts.deep_view() }
    }
}

impl DeepView for PackagePath {
    type V = PathView;

    open spec fn deep_view(&self) -> PathView {
        self@
    }
}

impl Clone for PackagePath {
    fn clone(&self) -> (r: Self)
        ensures
            r@ == self@,
    {
        let parts = self.parts.clone();
        assert(parts.deep_view() =~= self.parts.deep_view());
        PackagePath { base: self.base.clone(), parts }
    }
}

impl PackagePath {
    /// The directory at `base`.
    pub fn new(base: String) -> (r: Self)
        ensures
            r@ == (PathView { base: base@, parts: Seq::empty() }),
    {
        let parts: Vec<String> = Vec::new();
        assert(parts.deep_view() =~= Seq::<Seq<char>>::empty());
        PackagePath { base, parts }
    }

    /// The directory reached from this one by the relative path `part`.
    pub fn join(&self, part: &str) -> (r: Self)
        ensures
            r@ == self@.join(part@),
    {
        let mut parts = self.parts.clone();
        parts.push(String::from_str(part));
        assert(parts.deep_view() =~= self.parts.deep_view().push(part@));
        PackagePath { base: self.base.clone(), parts }
    }
}

/// A copy of an optional directory.
pub fn clone_path(path: &Option<PackagePath>) -> (r: Option<PackagePath>)
    ensures
        r.deep_view() == path.deep_view(),
{
    match path {
        Some(p) => Some(p.clone()),
        None => None,
    }
}

} // verus!
