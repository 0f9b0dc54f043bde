//! What a GET request brought back, and how it is judged.
//!
//! The request itself is made by the caller. The functions here take its
//! outcome and decide what it means.

use vstd::prelude::*;
use crate::error::{ErrorView, PackageError};
use crate::package::{PackageSpec, SpecView};
use crate::version::{decimal, push_decimal};

verus! {

/// The outcome of one GET request.
#[derive(Debug, PartialEq, Eq)]
pub enum FetchOutcome {
    /// The server answered with a status and a body.
    Response { status: u16, body: Vec<u8> },
    /// No answer came. The text says why.
    Failed(String),
}

/// The outcome of a request as a mathematical value.
pub enum FetchView {
    Response { status: u16, body: Seq<u8> },
    Failed(Seq<char>),
}

impl View for FetchOutcome {
    type V = FetchView;

    open spec fn view(&self) -> FetchView {
        match self {
            FetchOutcome::Response { status, body } => FetchView::Response {
                status: *status,
                body: body@,
            },
            FetchOutcome::Failed(detail) => FetchView::Failed(detail@),
        }
    }
}

impl DeepView for FetchOutcome {
    type V = FetchView;

    open spec fn deep_view(&self) -> FetchView {
        self@
    }
}

/// A status in the range of success, 200 to 299.
pub open spec fn is_success(status: u16) -> bool {
    200 <= status < 300
}

/// The text that reports an unwelcome status: `status code {status}`.
pub open spec fn status_detail(status: u16) -> Seq<char> {
    "status code "@ + decimal(status as nat)
}

/// What the plain transport makes of an outcome: the body where the status
/// is 200, a network failure in every other case.
pub open spec fn plain_body(outcome: FetchView) -> Result<Seq<u8>, ErrorView> {
    match outcome {
        FetchView::Response { status, body } => if status == 200 {
            Ok(body)
        } else {
            Err(ErrorView::NetworkFailed(Some(status_detail(status))))
        },
        FetchView::Failed(detail) => Err(ErrorView::NetworkFailed(Some(detail))),
    }
}

/// What a download of `spec` makes of an outcome: the body on success, "not
/// found" on 404, a network failure in every other case.
pub open spec fn archive_body(spec: SpecView, outcome: FetchView) -> Result<Seq<u8>, ErrorView> {
    match outcome {
        FetchView::Response { status, body } => if is_success(status) {
            Ok(body)
        } else if status == 404 {
            Err(ErrorView::NotFound(spec))
        } else {
            Err(ErrorView::NetworkFailed(Some(status_detail(status))))
        },
        FetchView::Failed(detail) => Err(ErrorView::NetworkFailed(Some(detail))),
    }
}

/// The view of a result that holds bytes or an error.
pub open spec fn body_view(r: Result<Vec<u8>, PackageError>) -> Result<Seq<u8>, ErrorView> {
    match r {
        Ok(body) => Ok(body@),
        Err(err) => Err(err@),
    }
}

/// Tells whether `status` is in the range of success.
pub fn status_is_success(status: u16) -> (r: bool)
    ensures
        r == is_success(status),
{
    200 <= status && status < 300
}

/// The text that reports an unwelcome status.
pub fn status_text(status: u16) -> (r: String)
    ensures
        r@ == status_detail(status),
{
    let mut detail = String::from_str("status code ");
    push_decimal(&mut detail, status as u32);
    detail
}

/// The failure that reports an unwelcome status.
pub fn status_failure(status: u16) -> (r: PackageError)
    ensures
        r@ == ErrorView::NetworkFailed(Some(status_detail(status))),
{
    PackageError::NetworkFailed(Some(status_text(status)))
}

/// Judges the outcome of a request as the plain transport does: only the
/// status 200 is accepted.
pub fn get(outcome: FetchOutcome) -> (r: Result<Vec<u8>, PackageError>)
    ensures
        body_view(r) == plain_body(outcome@),
{
    match outcome {
        FetchOutcome::Response { status, body } => {
            if status == 200 {
                Ok(body)
            } else {
                Err(status_failure(status))
            }
        },
        FetchOutcome::Failed(detail) => Err(PackageError::NetworkFailed(Some(detail))),
    }
}

/// Judges the outcome of a request and reads a value from the body with
/// `parse`. An outcome that `get` rejects is rejected here with the same
/// error and `parse` is not called. A body that `parse` rejects is a
/// malformed archive, with the text that `parse` gave.
pub fn get_to_value<T, P>(outcome: FetchOutcome, parse: P) -> (r: Result<T, PackageError>) where
    P: FnOnce(Vec<u8>) -> Result<T, String>,

    requires
        forall|body: Vec<u8>| call_requires(parse, (body,)),
    ensures
        match plain_body(outcome@) {
            Err(err) => r matches Err(e) && e@ == err,
            Ok(bytes) => match r {
                Ok(value) => exists|body: Vec<u8>|
                    body@ == bytes && call_ensures(parse, (body,), Ok::<T, String>(value)),
                Err(e) => exists|body: Vec<u8>, detail: String|
                    body@ == bytes && call_ensures(parse, (body,), Err::<T, String>(detail))
                        && e@ == ErrorView::MalformedArchive(Some(detail@)),
            },
        },
{
    match get(outcome) {
        Err(err) => Err(err),
        Ok(body) => match parse(body) {
            Ok(value) => Ok(value),
            Err(detail) => Err(PackageError::MalformedArchive(Some(detail))),
        },
    }
}

/// Judges the outcome of the request for the archive of `spec`.
pub fn accept_archive(spec: &PackageSpec, outcome: FetchOutcome) -> (r: Result<
    Vec<u8>,
    PackageError,
>)
    ensures
        body_view(r) == archive_body(spec@, outcome@),
{
    match outcome {
        FetchOutcome::Response { status, body } => {
            if status_is_success(status) {
                Ok(body)
            } else if status == 404 {
                Err(PackageError::NotFound(spec.clone()))
            } else {
                Err(status_failure(status))
            }
        },
        FetchOutcome::Failed(detail) => Err(PackageError::NetworkFailed(Some(detail))),
    }
}

/// Hands the outcome of a request to the continuation `f` and returns what
/// `f` makes of it. `outcome` is `None` where the request could not even be
/// started, because no execution context could be had for it: only then is
/// the result `None`, and `f` is not called.
pub fn threaded_http<T, F>(outcome: Option<FetchOutcome>, f: F) -> (r: Option<T>) where
    F: FnOnce(FetchOutcome) -> T,

    requires
        forall|o: FetchOutcome| call_requires(f, (o,)),
    ensures
        r is None <==> outcome is None,
        r matches Some(value) ==> call_ensures(f, (outcome->Some_0,), value),
{
    match outcome {
        Some(o) => Some(f(o)),
        None => None,
    }
}

} // verus!
