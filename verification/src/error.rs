//! The errors of package resolution.

use vstd::prelude::*;
use crate::package::{PackageSpec, SpecView};

verus! {

/// Why a package could not be made available.
#[derive(Debug, PartialEq, Eq)]
pub enum PackageError {
    /// The package is neither at hand nor upstream.
    NotFound(PackageSpec),
    /// The request failed in transport, or the server answered with a
    /// status that is neither a success nor 404.
    NetworkFailed(Option<String>),
    /// The archive could not be decompressed or unpacked, or the index
    /// could not be read.
    MalformedArchive(Option<String>),
    /// The environment failed, or the operation is not supported here.
    Other(Option<String>),
}

/// An error as a mathematical value.
pub enum ErrorView {
    NotFound(SpecView),
    NetworkFailed(Option<Seq<char>>),
    MalformedArchive(Option<Seq<char>>),
    Other(Option<Seq<char>>),
}

impl View for PackageError {
    type V = ErrorView;

    open spec fn view(&self) -> ErrorView {
        match self {
            PackageError::NotFound(spec) => ErrorView::NotFound(spec@),
            PackageError::NetworkFailed(detail) => ErrorView::NetworkFailed(detail.deep_view()),
            PackageError::MalformedArchive(detail) => ErrorView::MalformedArchive(
                detail.deep_view(),
            ),
            PackageError::Other(detail) => ErrorView::Other(detail.deep_view()),
        }
    }
}

impl DeepView for PackageError {
    type V = ErrorView;

    open spec fn deep_view(&self) -> ErrorView {
        self@
    }
}

/// A copy of an optional text.
pub fn clone_detail(detail: &Option<String>) -> (r: Option<String>)
    ensures
        r == *detail,
{
    match detail {
        Some(text) => Some(text.clone()),
        None => None,
    }
}

impl Clone for PackageError {
    fn clone(&self) -> (r: Self)
        ensures
            r == *self,
    {
        match self {
            PackageError::NotFound(spec) => PackageError::NotFound(spec.clone()),
            PackageError::NetworkFailed(detail) => PackageError::NetworkFailed(
                clone_detail(detail),
            ),
            PackageError::MalformedArchive(detail) => PackageError::MalformedArchive(
                clone_detail(detail),
            ),
            PackageError::Other(detail) => PackageError::Other(clone_detail(detail)),
        }
    }
}

} // verus!
