//! What is asked of the provider, and what it may hand back.

use crate::quote::RawQuote;
use vstd::prelude::*;

verus! {

/// 2020-01-01 00:00:00 UTC in epoch seconds.
pub const HISTORY_START: u64 = 1_577_836_800;

/// 2020-01-31 23:59:59 UTC in epoch seconds.
pub const HISTORY_END: u64 = 1_580_515_199;

/// The request for the most recent quote of a symbol.
#[derive(Clone, Debug, PartialEq, Eq)]
pub struct LatestQuery {
    pub symbol: String,
    pub interval: String,
}

/// The request for the quotes of a symbol between two instants, both
/// included and both in epoch seconds.
#[derive(Clone, Debug, PartialEq, Eq)]
pub struct HistoryQuery {
    pub symbol: String,
    pub start: u64,
    pub end: u64,
}

impl LatestQuery {
    /// The query that the service makes: the last trading day of AAPL.
    pub fn standard() -> (query: LatestQuery)
        ensures
            query.symbol@ == "AAPL"@,
            query.interval@ == "1d"@,
    {
        LatestQuery { symbol: "AAPL".to_owned(), interval: "1d".to_owned() }
    }
}

impl HistoryQuery {
    /// The query that the service makes: AAPL through January 2020.
    pub fn standard() -> (query: HistoryQuery)
        ensures
            query.symbol@ == "AAPL"@,
            query.start == HISTORY_START,
            query.end == HISTORY_END,
    {
        HistoryQuery { symbol: "AAPL".to_owned(), start: HISTORY_START, end: HISTORY_END }
    }
}

/// What came of asking the provider for the most recent quote.
#[derive(Clone, Debug, PartialEq, Eq)]
pub enum LatestReply {
    /// No session with the provider could be opened.
    Unavailable(String),
    /// The call failed in flight.
    Failed(String),
    /// The provider answered without a quote.
    NoQuote(String),
    /// The provider's most recent quote.
    Quote(RawQuote),
}

/// What came of asking the provider for a range of quotes.
#[derive(Clone, Debug, PartialEq, Eq)]
pub enum HistoryReply {
    /// No session with the provider could be opened.
    Unavailable(String),
    /// The call failed in flight.
    Failed(String),
    /// The provider answered, but no rows could be read from the answer.
    NoRows(String),
    /// The provider's rows, in the provider's order.
    Rows(Vec<RawQuote>),
}

} // verus!
