//! The registry for targets without platform directories, such as a
//! browser.

use vstd::prelude::*;
use crate::error::PackageError;
use crate::package::{PackageSpec, VersionlessPackageSpec};
use crate::path::{clone_path, PackagePath};
use crate::registry::http::RegistryView;
use crate::registry::model::{
    index_step,
    latest_step,
    resolve_step,
    IndexState,
    LatestState,
    ResolveState,
    StorageView,
};
use crate::registry::step::{Event, Step};
use crate::registry::storage::{index_move, latest_move, resolve_move, PackageStorage};
use crate::version::PackageVersion;

verus! {

/// A registry that works with the roots it is given and no others.
pub struct BrowserRegistry {
    /// The directory that local packages are kept in, if it is set.
    package_path: Option<PackagePath>,
    /// The directory that downloaded packages are kept in, if it is set.
    package_cache_path: Option<PackagePath>,
    /// The storage, made when it is first needed.
    storage: Option<PackageStorage>,
}

impl View for BrowserRegistry {
    type V = RegistryView;

    closed spec fn view(&self) -> RegistryView {
        RegistryView {
            package_path: self.package_path.deep_view(),
            package_cache_path: self.package_cache_path.deep_view(),
            cert_path: None,
            storage: match self.storage {
                Some(storage) => Some(storage@),
                None => None,
            },
        }
    }
}

/// The storage that a registry without platform directories works with:
/// the one it has, or else one with the roots as they were set.
pub open spec fn working_storage(registry: RegistryView) -> StorageView {
    match registry.storage {
        Some(made) => made,
        None => registry.fresh_storage(None, None),
    }
}

impl Default for BrowserRegistry {
    /// A registry without roots.
    fn default() -> (r: Self)
        ensures
            r@ == (RegistryView {
                package_path: None,
                package_cache_path: None,
                cert_path: None,
                storage: None,
            }),
    {
        BrowserRegistry::new(None, None)
    }
}

impl BrowserRegistry {
    /// A registry with the given roots. The storage is not made yet.
    pub fn new(package_path: Option<PackagePath>, package_cache_path: Option<PackagePath>) -> (r:
        Self)
        ensures
            r@ == (RegistryView {
                package_path: package_path.deep_view(),
                package_cache_path: package_cache_path.deep_view(),
                cert_path: None,
                storage: None,
            }),
    {
        BrowserRegistry { package_path, package_cache_path, storage: None }
    }

    /// Makes the storage if it is not made yet.
    fn make_storage(&mut self)
        ensures
            final(self).storage is Some,
            final(self)@ == old(self)@.holding(working_storage(old(self)@)),
    {
        if self.storage.is_none() {
            let storage = PackageStorage::new(
                clone_path(&self.package_cache_path),
                clone_path(&self.package_path),
                None,
            );
            self.storage = Some(storage);
        }
    }

    /// The storage of the registry. It is made if it is not made yet.
    pub fn storage(&mut self) -> (r: &PackageStorage)
        ensures
            r@ == working_storage(old(self)@),
            final(self)@ == old(self)@.holding(r@),
    {
        self.make_storage();
        match &self.storage {
            Some(storage) => storage,
            None => vstd::pervasive::unreached(),
        }
    }

    /// The directory that local packages are kept in.
    pub fn local_path(&mut self) -> (r: Option<PackagePath>)
        ensures
            r.deep_view() == working_storage(old(self)@).local_root,
            final(self)@ == old(self)@.holding(working_storage(old(self)@)),
    {
        let storage = self.storage();
        let r = match storage.package_path() {
            Some(path) => Some(path.clone()),
            None => None,
        };
        r
    }

    /// One step of making the package `spec` available in a directory.
    pub fn resolve(&mut self, spec: &PackageSpec, state: ResolveState, event: Event) -> (r: (
        ResolveState,
        Step<Result<PackagePath, PackageError>>,
    ))
        ensures
            final(self)@.storage is Some,
            final(self)@ == old(self)@.holding(final(self)@.storage->Some_0),
            (final(self)@.storage->Some_0, r.0@, resolve_move(r.1)) == resolve_step(
                working_storage(old(self)@),
                spec@,
                state@,
                event@,
            ),
    {
        self.make_storage();
        match &mut self.storage {
            Some(storage) => storage.prepare_package(spec, state, event),
            None => vstd::pervasive::unreached(),
        }
    }

    /// One step of the search for the latest version of the package
    /// `spec`.
    pub fn determine_latest_version(
        &mut self,
        spec: &VersionlessPackageSpec,
        state: LatestState,
        event: Event,
    ) -> (r: (LatestState, Step<Result<PackageVersion, String>>))
        ensures
            final(self)@.storage is Some,
            final(self)@ == old(self)@.holding(final(self)@.storage->Some_0),
            (final(self)@.storage->Some_0, r.0, latest_move(r.1)) == latest_step(
                working_storage(old(self)@),
                spec@,
                state,
                event@,
            ),
    {
        self.make_storage();
        match &mut self.storage {
            Some(storage) => storage.determine_latest_version(spec, state, event),
            None => vstd::pervasive::unreached(),
        }
    }

    /// One step of making the index of the curated registry.
    pub fn packages(&mut self, state: IndexState, event: Event) -> (r: (IndexState, Step<()>))
        ensures
            final(self)@.storage is Some,
            final(self)@ == old(self)@.holding(final(self)@.storage->Some_0),
            (final(self)@.storage->Some_0, r.0, index_move(r.1)) == index_step(
                working_storage(old(self)@),
                state,
                event@,
            ),
    {
        self.make_storage();
        match &mut self.storage {
            Some(storage) => storage.download_index(state, event),
            None => vstd::pervasive::unreached(),
        }
    }
}

} // verus!
