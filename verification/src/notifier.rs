//! Telling the outside that a download is about to start.

use vstd::prelude::*;
use crate::package::PackageSpec;

verus! {

/// Is told of each download before it starts. The engine asks for this
/// with `Request::Notify`; whoever carries the request out calls
/// `downloading`.
pub trait Notifier {
    /// Called when the download of `spec` is about to start.
    fn downloading(&self, spec: &PackageSpec);
}

/// A notifier that does nothing with what it is told.
#[derive(Debug, Clone, Copy, PartialEq, Eq, Hash)]
pub struct DummyNotifier;

impl Default for DummyNotifier {
    fn default() -> (r: Self) {
        DummyNotifier
    }
}

impl Notifier for DummyNotifier {
    fn downloading(&self, spec: &PackageSpec) {
    }
}

} // verus!
