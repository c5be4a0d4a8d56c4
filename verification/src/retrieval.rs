//! The two retrieval operations: from the provider's reply to quotes, or to
//! the failure that is reported.

use crate::error::{out_of_range_text, ErrorKind, RetrievalError, RetrievalErrorView};
use crate::normalize::{
    all_anchored, all_in_range, all_valid, normalize, normalize_all, normalized, normalized_all,
};
use crate::provider::{HistoryReply, LatestReply};
use crate::quote::{quote_views, Quote, QuoteView, RawQuote};
use crate::timestamp::utc_anchored;
use vstd::prelude::*;

verus! {

/// The failure of the given kind with the given message.
pub open spec fn failure(kind: ErrorKind, message: Seq<char>) -> RetrievalErrorView {
    RetrievalErrorView { kind, message }
}

/// The failure that a timestamp without a calendar date gives.
pub open spec fn out_of_range() -> RetrievalErrorView {
    failure(ErrorKind::MalformedProviderResponse, out_of_range_text())
}

/// What the retrieval of the most recent quote makes of each reply: a
/// failure of the provider is handed on with its message, a quote is
/// normalized, and a quote whose timestamp has no calendar date is refused.
pub open spec fn latest_outcome(reply: LatestReply) -> Result<QuoteView, RetrievalErrorView> {
    match reply {
        LatestReply::Unavailable(message) => Err(
            failure(ErrorKind::ProviderUnavailable, message@),
        ),
        LatestReply::Failed(message) => Err(failure(ErrorKind::NetworkFailure, message@)),
        LatestReply::NoQuote(message) => Err(failure(ErrorKind::NoDataForSymbol, message@)),
        LatestReply::Quote(raw) => if raw.valid() {
            Ok(normalized(raw))
        } else {
            Err(out_of_range())
        },
    }
}

/// The rows that a reply holds: those of the provider, or none.
pub open spec fn reply_rows(reply: HistoryReply) -> Seq<RawQuote> {
    match reply {
        HistoryReply::Rows(rows) => rows@,
        _ => Seq::empty(),
    }
}

/// What the retrieval of a range makes of each reply: a failure to reach
/// the provider is handed on with its message, an answer without readable
/// rows counts as no rows, and rows are normalized one for one unless one of
/// them has a timestamp without a calendar date, which refuses them all.
pub open spec fn history_outcome(reply: HistoryReply) -> Result<
    Seq<QuoteView>,
    RetrievalErrorView,
> {
    match reply {
        HistoryReply::Unavailable(message) => Err(
            failure(ErrorKind::ProviderUnavailable, message@),
        ),
        HistoryReply::Failed(message) => Err(failure(ErrorKind::NetworkFailure, message@)),
        HistoryReply::NoRows(_) => Ok(Seq::empty()),
        HistoryReply::Rows(rows) => if all_valid(rows@) {
            Ok(normalized_all(rows@))
        } else {
            Err(out_of_range())
        },
    }
}

/// The view of the result of retrieving one quote.
pub open spec fn quote_result_view(result: Result<Quote, RetrievalError>) -> Result<
    QuoteView,
    RetrievalErrorView,
> {
    match result {
        Ok(quote) => Ok(quote@),
        Err(error) => Err(error@),
    }
}

/// The view of the result of retrieving a range of quotes.
pub open spec fn quotes_result_view(result: Result<Vec<Quote>, RetrievalError>) -> Result<
    Seq<QuoteView>,
    RetrievalErrorView,
> {
    match result {
        Ok(quotes) => Ok(quote_views(quotes@)),
        Err(error) => Err(error@),
    }
}

/// Retrieves the most recent quote from the provider's reply.
pub fn get_latest_quote(reply: LatestReply) -> (result: Result<Quote, RetrievalError>)
    ensures
        quote_result_view(result) == latest_outcome(reply),
        result matches Ok(quote) ==> utc_anchored(quote.timestamp@),
{
    match reply {
        LatestReply::Unavailable(message) => Err(
            RetrievalError::new(ErrorKind::ProviderUnavailable, message),
        ),
        LatestReply::Failed(message) => Err(
            RetrievalError::new(ErrorKind::NetworkFailure, message),
        ),
        LatestReply::NoQuote(message) => Err(
            RetrievalError::new(ErrorKind::NoDataForSymbol, message),
        ),
        LatestReply::Quote(raw) => {
            if raw.is_valid() {
                Ok(normalize(raw))
            } else {
                Err(RetrievalError::timestamp_out_of_range())
            }
        },
    }
}

/// Retrieves the quotes of a range from the provider's reply.
pub fn get_history(reply: HistoryReply) -> (result: Result<Vec<Quote>, RetrievalError>)
    ensures
        quotes_result_view(result) == history_outcome(reply),
        result matches Ok(quotes) ==> {
            &&& quotes@.len() == reply_rows(reply).len()
            &&& forall|i: int|
                0 <= i < quotes@.len() ==> (#[trigger] quotes@[i])@ == normalized(
                    reply_rows(reply)[i],
                )
            &&& all_anchored(quote_views(quotes@))
        },
{
    match reply {
        HistoryReply::Unavailable(message) => Err(
            RetrievalError::new(ErrorKind::ProviderUnavailable, message),
        ),
        HistoryReply::Failed(message) => Err(
            RetrievalError::new(ErrorKind::NetworkFailure, message),
        ),
        HistoryReply::NoRows(_) => {
            let quotes: Vec<Quote> = Vec::new();
            assert(quote_views(quotes@) =~= Seq::<QuoteView>::empty());
            Ok(quotes)
        },
        HistoryReply::Rows(rows) => {
            if all_in_range(&rows) {
                Ok(normalize_all(&rows))
            } else {
                Err(RetrievalError::timestamp_out_of_range())
            }
        },
    }
}

} // verus!
