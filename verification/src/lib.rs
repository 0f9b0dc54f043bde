//! Resolution of package identifiers to local directories.
//!
//! A package is named by a namespace, a name and a version. The engine in
//! [`registry`] turns such a name into a directory that holds the package's
//! files: it looks in a local root, then in a cache root, and downloads
//! packages of the curated namespace that are in neither. The engine itself
//! performs no input or output: it states what has to be done and is told
//! what came of it.

pub mod error;
pub mod notifier;
pub mod pack;
pub mod package;
pub mod path;
pub mod registry;
pub mod sequence;
pub mod transport;
pub mod version;

pub use error::PackageError;
pub use notifier::{DummyNotifier, Notifier};
pub use pack::archive::{ArchiveEntry, PackFile};
pub use pack::http::HttpPack;
pub use pack::release::GitHubReleasePack;
pub use pack::tarball::{PackFs, TarballPack};
pub use pack::universe::UniversePack;
pub use package::{PackageSpec, VersionlessPackageSpec};
pub use path::PackagePath;
pub use registry::browser::BrowserRegistry;
pub use registry::dummy::DummyRegistry;
pub use registry::http::HttpRegistry;
pub use registry::index::{IndexEntry, RemotePackageIndex};
pub use registry::model::{DownloadState, IndexState, LatestState, ResolveState};
pub use registry::step::{Event, Request, Step};
pub use registry::storage::PackageStorage;
pub use registry::{DEFAULT_PACKAGES_SUBDIR, DEFAULT_REGISTRY};
pub use transport::FetchOutcome;
pub use version::PackageVersion;
