//! Sources of package files.

pub mod archive;
pub mod http;
pub mod release;
pub mod tarball;
pub mod universe;
