//! The exchange between the engine and its caller.
//!
//! The engine does no input or output of its own. An operation of the
//! engine is a sequence of steps. Each step takes the event that the last
//! request led to and answers with the next request, or with the result of
//! the operation. The caller carries the requests out.

use vstd::prelude::*;
use crate::pack::http::attempt_view;
use crate::package::{PackageSpec, SpecView};
use crate::path::{PackagePath, PathView};
use crate::registry::index::{RecordView, RemotePackageIndex};
use crate::transport::{FetchOutcome, FetchView};

verus! {

/// What the engine asks of its caller.
#[derive(Debug, PartialEq, Eq)]
pub enum Request {
    /// Tell the notifier that the download of the package is about to
    /// start. Answered by `Event::Notified`.
    Notify(PackageSpec),
    /// Find out whether the directory exists. Answered by `Event::Probed`.
    Probe(PackagePath),
    /// Make a GET request for the URL, trusting the root certificate in
    /// the file at `cert_path` if there is one. Answered by
    /// `Event::Fetched`.
    Fetch { url: String, cert_path: Option<String> },
    /// Unpack the tar stream into the directory. Answered by
    /// `Event::Unpacked`.
    Unpack { archive: Vec<u8>, target: PackagePath },
    /// Remove the directory and all below it, if it is there. Answered by
    /// `Event::Removed`.
    Remove(PackagePath),
    /// Read the records of the index from the JSON text. Answered by
    /// `Event::Parsed`.
    Parse(Vec<u8>),
    /// List the names of the directory's children. Answered by
    /// `Event::Listed`.
    List(PackagePath),
    /// Log the text as an error. Answered by `Event::Logged`.
    Log(String),
}

/// What the caller tells the engine.
#[derive(Debug, PartialEq, Eq)]
pub enum Event {
    /// The operation starts.
    Begin,
    /// The notifier is told.
    Notified,
    /// Whether the probed directory exists.
    Probed(bool),
    /// What the request brought back, `None` where it could not be
    /// started.
    Fetched(Option<FetchOutcome>),
    /// Why unpacking failed, `None` where it did not.
    Unpacked(Option<String>),
    /// The directory is removed, as far as that was possible.
    Removed,
    /// The records read from the index, or why it could not be read.
    Parsed(Result<Vec<RemotePackageIndex>, String>),
    /// The names of the children of the listed directory. A directory that
    /// cannot be listed has none.
    Listed(Vec<String>),
    /// The text is logged.
    Logged,
}

/// One step of an operation: a request to the caller, or the result.
#[derive(Debug, PartialEq, Eq)]
pub enum Step<T> {
    /// The caller is to carry out the request and to come back with the
    /// event that answers it.
    Ask(Request),
    /// The operation is over, with this result.
    Done(T),
}

/// A request as a mathematical value.
pub enum RequestView {
    Notify(SpecView),
    Probe(PathView),
    Fetch { url: Seq<char>, cert_path: Option<Seq<char>> },
    Unpack { archive: Seq<u8>, target: PathView },
    Remove(PathView),
    Parse(Seq<u8>),
    List(PathView),
    Log(Seq<char>),
}

/// An event as a mathematical value.
pub enum EventView {
    Begin,
    Notified,
    Probed(bool),
    Fetched(Option<FetchView>),
    Unpacked(Option<Seq<char>>),
    Removed,
    Parsed(Result<Seq<RecordView>, Seq<char>>),
    Listed(Seq<Seq<char>>),
    Logged,
}

/// A step as a mathematical value.
pub enum Move<T> {
    Ask(RequestView),
    Done(T),
}

impl View for Request {
    type V = RequestView;

    open spec fn view(&self) -> RequestView {
        match self {
            Request::Notify(spec) => RequestView::Notify(spec@),
            Request::Probe(path) => RequestView::Probe(path@),
            Request::Fetch { url, cert_path } => RequestView::Fetch {
                url: url@,
                cert_path: cert_path.deep_view(),
            },
            Request::Unpack { archive, target } => RequestView::Unpack {
                archive: archive@,
                target: target@,
            },
            Request::Remove(path) => RequestView::Remove(path@),
            Request::Parse(text) => RequestView::Parse(text@),
            Request::List(path) => RequestView::List(path@),
            Request::Log(text) => RequestView::Log(text@),
        }
    }
}

impl View for Event {
    type V = EventView;

    open spec fn view(&self) -> EventView {
        match self {
            Event::Begin => EventView::Begin,
            Event::Notified => EventView::Notified,
            Event::Probed(found) => EventView::Probed(*found),
            Event::Fetched(outcome) => EventView::Fetched(attempt_view(*outcome)),
            Event::Unpacked(failure) => EventView::Unpacked(failure.deep_view()),
            Event::Removed => EventView::Removed,
            Event::Parsed(records) => EventView::Parsed(
                match records {
                    Ok(list) => Ok(list.deep_view()),
                    Err(detail) => Err(detail@),
                },
            ),
            Event::Listed(names) => EventView::Listed(names.deep_view()),
            Event::Logged => EventView::Logged,
        }
    }
}

impl RequestView {
    /// The request asks for something to be fetched over the network.
    pub open spec fn is_fetch(self) -> bool {
        self is Fetch
    }

    /// The request belongs to a download: it tells the notifier or asks
    /// for something to be fetched over the network.
    pub open spec fn is_download(self) -> bool {
        self is Fetch || self is Notify
    }
}

/// No request among `requests` belongs to a download: the notifier is told
/// of nothing and nothing goes out to the network.
pub open spec fn no_download(requests: Seq<RequestView>) -> bool {
    forall|i: int| 0 <= i < requests.len() ==> !(#[trigger] requests[i]).is_download()
}

} // verus!
