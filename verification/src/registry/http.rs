//! The registry for targets that have a file system and threads.

use vstd::prelude::*;
use crate::error::{clone_detail, PackageError};
use crate::package::{PackageSpec, VersionlessPackageSpec};
use crate::path::{clone_path, PackagePath, PathView};
use crate::registry::index::IndexEntry;
use crate::registry::model::{
    download_step,
    index_step,
    latest_step,
    resolve_step,
    DownloadState,
    IndexState,
    LatestState,
    ResolveState,
    StorageView,
};
use crate::registry::step::{Event, Step};
use crate::registry::storage::{
    download_move,
    index_move,
    latest_move,
    resolve_move,
    PackageStorage,
};
use crate::registry::DEFAULT_PACKAGES_SUBDIR;
use crate::version::PackageVersion;

verus! {

/// A registry that keeps packages in directories of the platform and
/// fetches what is missing over HTTP.
pub struct HttpRegistry {
    /// The directory that local packages are kept in, if it is set.
    package_path: Option<PackagePath>,
    /// The directory that downloaded packages are kept in, if it is set.
    package_cache_path: Option<PackagePath>,
    /// The storage, made when it is first needed.
    storage: Option<PackageStorage>,
    /// The file that holds a root certificate to trust.
    cert_path: Option<String>,
}

/// A registry as a mathematical value.
pub struct RegistryView {
    /// The local root as it was set.
    pub package_path: Option<PathView>,
    /// The cache root as it was set.
    pub package_cache_path: Option<PathView>,
    /// The certificate file as it was set.
    pub cert_path: Option<Seq<char>>,
    /// The storage, once it is made.
    pub storage: Option<StorageView>,
}

/// The root to work with: the one that was set, or else the packages
/// directory below the directory that the platform offers, or else none.
pub open spec fn default_root(configured: Option<PathView>, platform: Option<Seq<char>>) -> Option<
    PathView,
> {
    match configured {
        Some(root) => Some(root),
        None => match platform {
            Some(dir) => Some(
                PathView { base: dir, parts: Seq::empty() }.join(DEFAULT_PACKAGES_SUBDIR@),
            ),
            None => None,
        },
    }
}

impl RegistryView {
    /// The storage that is made for this registry where the platform
    /// offers `cache_dir` for caches and `data_dir` for data.
    pub open spec fn fresh_storage(
        self,
        cache_dir: Option<Seq<char>>,
        data_dir: Option<Seq<char>>,
    ) -> StorageView {
        StorageView {
            cache_root: default_root(self.package_cache_path, cache_dir),
            local_root: default_root(self.package_path, data_dir),
            cert_path: self.cert_path,
            index: None,
        }
    }

    /// `storage` is the storage that this registry works with: the one it
    /// has, or else one made for it, whatever the platform offers.
    pub open spec fn works_with(self, storage: StorageView) -> bool {
        match self.storage {
            Some(made) => storage == made,
            None => exists|cache_dir: Option<Seq<char>>, data_dir: Option<Seq<char>>|
                storage == #[trigger] self.fresh_storage(cache_dir, data_dir),
        }
    }

    /// The registry with `storage` in the place of its storage.
    pub open spec fn holding(self, storage: StorageView) -> RegistryView {
        RegistryView { storage: Some(storage), ..self }
    }
}

impl View for HttpRegistry {
    type V = RegistryView;

    closed spec fn view(&self) -> RegistryView {
        RegistryView {
            package_path: self.package_path.deep_view(),
            package_cache_path: self.package_cache_path.deep_view(),
            cert_path: self.cert_path.deep_view(),
            storage: match self.storage {
                Some(storage) => Some(storage@),
                None => None,
            },
        }
    }
}

/// The cache directory of the current user, from `dirs::cache_dir`. It
/// depends on the platform and the environment, so nothing is said of it.
#[verifier::external_body]
fn platform_cache_dir() -> (r: Option<String>) {
    dirs::cache_dir().map(|dir| dir.to_string_lossy().into_owned())
}

/// The data directory of the current user, from `dirs::data_dir`. It
/// depends on the platform and the environment, so nothing is said of it.
#[verifier::external_body]
fn platform_data_dir() -> (r: Option<String>) {
    dirs::data_dir().map(|dir| dir.to_string_lossy().into_owned())
}

/// The packages directory below the directory that the platform offers.
pub fn platform_root(platform: Option<String>) -> (r: Option<PackagePath>)
    ensures
        r.deep_view() == default_root(None, platform.deep_view()),
{
    match platform {
        Some(dir) => Some(PackagePath::new(dir).join(DEFAULT_PACKAGES_SUBDIR)),
        None => None,
    }
}

impl Default for HttpRegistry {
    /// A registry with no certificate file, whose roots are taken from the
    /// platform.
    fn default() -> (r: Self)
        ensures
            r@ == (RegistryView {
                package_path: None,
                package_cache_path: None,
                cert_path: None,
                storage: None,
            }),
    {
        HttpRegistry::new(None, None, None)
    }
}

impl HttpRegistry {
    /// A registry with the given certificate file and roots. The storage
    /// is not made yet.
    pub fn new(
        cert_path: Option<String>,
        package_path: Option<PackagePath>,
        package_cache_path: Option<PackagePath>,
    ) -> (r: Self)
        ensures
            r@ == (RegistryView {
                package_path: package_path.deep_view(),
                package_cache_path: package_cache_path.deep_view(),
                cert_path: cert_path.deep_view(),
                storage: None,
            }),
    {
        HttpRegistry { package_path, package_cache_path, storage: None, cert_path }
    }

    /// Makes the storage if it is not made yet. A root that was not set is
    /// taken from the platform.
    fn make_storage(&mut self)
        ensures
            old(self)@.works_with(final(self)@.storage->Some_0),
            final(self)@ == old(self)@.holding(final(self)@.storage->Some_0),
            final(self).storage is Some,
    {
        if self.storage.is_none() {
            let cache = match clone_path(&self.package_cache_path) {
                Some(root) => Some(root),
                None => platform_root(platform_cache_dir()),
            };
            let local = match clone_path(&self.package_path) {
                Some(root) => Some(root),
                None => platform_root(platform_data_dir()),
            };
            let ghost cache_dir: Option<Seq<char>> = match cache.deep_view() {
                Some(root) => Some(root.base),
                None => None,
            };
            let ghost data_dir: Option<Seq<char>> = match local.deep_view() {
                Some(root) => Some(root.base),
                None => None,
            };
            let storage = PackageStorage::new(
                cache,
                local,
                clone_detail(&self.cert_path),
            );
            proof {
                let fresh = old(self)@.fresh_storage(cache_dir, data_dir);
                assert(fresh.cache_root == storage@.cache_root);
                assert(fresh.local_root == storage@.local_root);
                assert(storage@ == fresh);
            }
            self.storage = Some(storage);
        }
    }

    /// The storage of the registry. It is made if it is not made yet.
    pub fn storage(&mut self) -> (r: &PackageStorage)
        ensures
            old(self)@.works_with(r@),
            final(self)@ == old(self)@.holding(r@),
    {
        self.make_storage();
        match &self.storage {
            Some(storage) => storage,
            None => vstd::pervasive::unreached(),
        }
    }

    /// The directory that local packages are kept in.
    pub fn package_path(&mut self) -> (r: Option<&PackagePath>)
        ensures
            exists|storage: StorageView| #[trigger]
                old(self)@.works_with(storage) && final(self)@ == old(self)@.holding(storage)
                    && r.deep_view() == storage.local_root,
    {
        self.storage().package_path()
    }

    /// The directory that downloaded packages are kept in.
    pub fn package_cache_path(&mut self) -> (r: Option<&PackagePath>)
        ensures
            exists|storage: StorageView| #[trigger]
                old(self)@.works_with(storage) && final(self)@ == old(self)@.holding(storage)
                    && r.deep_view() == storage.cache_root,
    {
        self.storage().package_cache_path()
    }

    /// The directory that local packages are kept in.
    pub fn local_path(&mut self) -> (r: Option<PackagePath>)
        ensures
            exists|storage: StorageView| #[trigger]
                old(self)@.works_with(storage) && final(self)@ == old(self)@.holding(storage)
                    && r.deep_view() == storage.local_root,
    {
        let storage = self.storage();
        let r = match storage.package_path() {
            Some(path) => Some(path.clone()),
            None => None,
        };
        r
    }

    /// The directories that packages are kept in: the local root, then the
    /// cache root, as far as there are such.
    pub fn paths(&mut self) -> (r: Vec<PackagePath>)
        ensures
            exists|storage: StorageView| #[trigger]
                old(self)@.works_with(storage) && final(self)@ == old(self)@.holding(storage)
                    && r.deep_view() == roots_of(storage),
    {
        let storage = self.storage();
        let mut out: Vec<PackagePath> = Vec::new();
        match storage.package_path() {
            Some(path) => {
                out.push(path.clone());
            },
            None => {},
        }
        match storage.package_cache_path() {
            Some(path) => {
                out.push(path.clone());
            },
            None => {},
        }
        assert(out.deep_view() =~= roots_of(storage@));
        out
    }

    /// Sets the index to what `make` returns, for tests. Where there is an
    /// index already, it stays and `make` is not called.
    pub fn test_package_list<F>(&mut self, make: F) where F: FnOnce() -> Vec<IndexEntry>
        requires
            call_requires(make, ()),
        ensures
            exists|before: StorageView, after: StorageView| #[trigger]
                old(self)@.works_with(before) && final(self)@ == #[trigger] old(self)@.holding(after)
                    && if before.index is Some {
                    after == before
                } else {
                    exists|entries: Vec<IndexEntry>|
                        call_ensures(make, (), entries) && after == before.memoizing(
                            #[trigger] entries.deep_view(),
                        )
                },
    {
        self.make_storage();
        let ghost before = self@.storage->Some_0;
        match &mut self.storage {
            Some(storage) => {
                storage.index_get_or_init(make);
            },
            None => {},
        }
        proof {
            let after = self@.storage->Some_0;
            assert(old(self)@.works_with(before) && self@ == old(self)@.holding(after));
        }
    }

    /// One step of making the package `spec` available in a directory.
    pub fn resolve(&mut self, spec: &PackageSpec, state: ResolveState, event: Event) -> (r: (
        ResolveState,
        Step<Result<PackagePath, PackageError>>,
    ))
        ensures
            exists|before: StorageView, after: StorageView| #[trigger]
                old(self)@.works_with(before) && final(self)@ == #[trigger] old(self)@.holding(after)
                    && (after, r.0@, resolve_move(r.1)) == resolve_step(
                    before,
                    spec@,
                    state@,
                    event@,
                ),
    {
        self.make_storage();
        let ghost before = self@.storage->Some_0;
        let r = match &mut self.storage {
            Some(storage) => storage.prepare_package(spec, state, event),
            None => vstd::pervasive::unreached(),
        };
        proof {
            let after = self@.storage->Some_0;
            assert(old(self)@.works_with(before) && self@ == old(self)@.holding(after));
        }
        r
    }

    /// One step of the download of `spec` into `package_dir`. The package
    /// must be one of the curated namespace.
    pub fn download_package(
        &mut self,
        spec: &PackageSpec,
        package_dir: &PackagePath,
        state: DownloadState,
        event: Event,
    ) -> (r: (DownloadState, Step<Result<(), PackageError>>))
        requires
            spec@.is_curated(),
        ensures
            exists|before: StorageView, after: StorageView| #[trigger]
                old(self)@.works_with(before) && final(self)@ == #[trigger] old(self)@.holding(after)
                    && (after, r.0@, download_move(r.1)) == download_step(
                    before,
                    spec@,
                    package_dir@,
                    state@,
                    event@,
                ),
    {
        self.make_storage();
        let ghost before = self@.storage->Some_0;
        let r = match &mut self.storage {
            Some(storage) => storage.download_package(spec, package_dir, state, event),
            None => vstd::pervasive::unreached(),
        };
        proof {
            let after = self@.storage->Some_0;
            assert(old(self)@.works_with(before) && self@ == old(self)@.holding(after));
        }
        r
    }

    /// One step of making the index of the curated registry.
    pub fn packages(&mut self, state: IndexState, event: Event) -> (r: (IndexState, Step<()>))
        ensures
            exists|before: StorageView, after: StorageView| #[trigger]
                old(self)@.works_with(before) && final(self)@ == #[trigger] old(self)@.holding(after)
                    && (after, r.0, index_move(r.1)) == index_step(before, state, event@),
    {
        self.make_storage();
        let ghost before = self@.storage->Some_0;
        let r = match &mut self.storage {
            Some(storage) => storage.download_index(state, event),
            None => vstd::pervasive::unreached(),
        };
        proof {
            let after = self@.storage->Some_0;
            assert(old(self)@.works_with(before) && self@ == old(self)@.holding(after));
        }
        r
    }

    /// One step of the search for the latest version of the package
    /// `spec`.
    pub fn determine_latest_version(
        &mut self,
        spec: &VersionlessPackageSpec,
        state: LatestState,
        event: Event,
    ) -> (r: (LatestState, Step<Result<PackageVersion, String>>))
        ensures
            exists|before: StorageView, after: StorageView| #[trigger]
                old(self)@.works_with(before) && final(self)@ == #[trigger] old(self)@.holding(after)
                    && (after, r.0, latest_move(r.1)) == latest_step(
                    before,
                    spec@,
                    state,
                    event@,
                ),
    {
        self.make_storage();
        let ghost before = self@.storage->Some_0;
        let r = match &mut self.storage {
            Some(storage) => storage.determine_latest_version(spec, state, event),
            None => vstd::pervasive::unreached(),
        };
        proof {
            let after = self@.storage->Some_0;
            assert(old(self)@.works_with(before) && self@ == old(self)@.holding(after));
        }
        r
    }
}

/// The roots of a storage: the local root, then the cache root, as far as
/// there are such.
pub open spec fn roots_of(storage: StorageView) -> Seq<PathView> {
    let local = match storage.local_root {
        Some(root) => seq![root],
        None => Seq::empty(),
    };
    let cache = match storage.cache_root {
        Some(root) => seq![root],
        None => Seq::empty(),
    };
    local + cache
}

} // verus!
