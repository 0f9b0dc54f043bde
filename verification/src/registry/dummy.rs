//! A registry that holds nothing.

use vstd::prelude::*;
use crate::error::{ErrorView, PackageError};
use crate::package::PackageSpec;
use crate::path::PackagePath;
use crate::registry::index::{IndexEntry, IndexEntryView};

verus! {

/// A registry in which no package is ever found. It stands in where
/// packages must be asked for but resolution is switched off.
#[derive(Debug, Clone, Copy, PartialEq, Eq)]
pub struct DummyRegistry;

impl Default for DummyRegistry {
    fn default() -> (r: Self) {
        DummyRegistry
    }
}

impl DummyRegistry {
    /// The package is not found, whichever it is.
    pub fn resolve(&self, spec: &PackageSpec) -> (r: Result<PackagePath, PackageError>)
        ensures
            r matches Err(err) && err@ == ErrorView::NotFound(spec@),
    {
        Err(PackageError::NotFound(spec.clone()))
    }

    /// The packages that the registry offers: none.
    pub fn packages(&self) -> (r: Vec<IndexEntry>)
        ensures
            r.deep_view() == Seq::<IndexEntryView>::empty(),
    {
        let r: Vec<IndexEntry> = Vec::new();
        assert(r.deep_view() =~= Seq::<IndexEntryView>::empty());
        r
    }
}

} // verus!
