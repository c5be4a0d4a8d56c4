//! Why a retrieval failed.

use vstd::prelude::*;

verus! {

/// The kinds of failure.
#[derive(Clone, Copy, Debug, PartialEq, Eq, Structural)]
pub enum ErrorKind {
    /// No session with the provider could be opened.
    ProviderUnavailable,
    /// The provider answered, but had no quote to give.
    NoDataForSymbol,
    /// The provider's answer cannot be turned into quotes.
    MalformedProviderResponse,
    /// The call to the provider failed in flight.
    NetworkFailure,
}

/// A failed retrieval: its kind, and a message for people to read.
#[derive(Clone, Debug, PartialEq, Eq)]
pub struct RetrievalError {
    pub kind: ErrorKind,
    pub message: String,
}

/// What a [`RetrievalError`] stands for.
pub struct RetrievalErrorView {
    pub kind: ErrorKind,
    pub message: Seq<char>,
}

impl View for RetrievalError {
    type V = RetrievalErrorView;

    open spec fn view(&self) -> RetrievalErrorView {
        RetrievalErrorView { kind: self.kind, message: self.message@ }
    }
}

/// The message of the failure that a timestamp without a calendar date gives.
pub open spec fn out_of_range_text() -> Seq<char> {
    "the provider reported a timestamp after 9999-12-31 23:59:59 UTC"@
}

impl RetrievalError {
    /// A failure of the given kind with the given message.
    pub fn new(kind: ErrorKind, message: String) -> (error: RetrievalError)
        ensures
            error@ == (RetrievalErrorView { kind, message: message@ }),
            error.message == message,
    {
        RetrievalError { kind, message }
    }

    /// The failure that a timestamp without a calendar date gives.
    pub fn timestamp_out_of_range() -> (error: RetrievalError)
        ensures
            error@ == (RetrievalErrorView {
                kind: ErrorKind::MalformedProviderResponse,
                message: out_of_range_text(),
            }),
    {
        RetrievalError {
            kind: ErrorKind::MalformedProviderResponse,
            message: "the provider reported a timestamp after 9999-12-31 23:59:59 UTC".to_owned(),
        }
    }
}

} // verus!
