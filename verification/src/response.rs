//! The response mapper: from the result of a retrieval to what the endpoint
//! sends.

use crate::error::{ErrorKind, RetrievalError, RetrievalErrorView};
use crate::normalize::{all_anchored, all_valid, lemma_normalized_all_keeps_order, normalized};
use crate::provider::{HistoryReply, LatestReply};
use crate::quote::{quote_views, Quote, QuoteView};
use crate::retrieval::{
    failure, get_history, get_latest_quote, history_outcome, latest_outcome, quote_result_view,
    quotes_result_view, reply_rows,
};
use crate::timestamp::utc_anchored;
use vstd::prelude::*;

verus! {

/// The status of a response that carries quotes.
pub const STATUS_OK: u16 = 200;

/// The status of every response that reports a failure.
pub const STATUS_INTERNAL_SERVER_ERROR: u16 = 500;

/// The payload of a successful history request.
#[derive(Clone, Debug, PartialEq, Eq)]
pub struct HistoricalQuotes {
    pub quotes: Vec<Quote>,
}

/// What a response carries: one quote or a list of quotes, to be sent as
/// JSON, or a text to be sent as it is.
#[derive(Clone, Debug, PartialEq, Eq)]
pub enum Body {
    Quote(Quote),
    History(HistoricalQuotes),
    Text(String),
}

/// What an endpoint sends.
#[derive(Clone, Debug, PartialEq, Eq)]
pub struct Response {
    pub status: u16,
    pub body: Body,
}

/// What a [`Body`] stands for.
pub enum BodyView {
    Quote(QuoteView),
    History(Seq<QuoteView>),
    Text(Seq<char>),
}

/// What a [`Response`] stands for.
pub struct ResponseView {
    pub status: u16,
    pub body: BodyView,
}

impl View for Body {
    type V = BodyView;

    open spec fn view(&self) -> BodyView {
        match *self {
            Body::Quote(quote) => BodyView::Quote(quote@),
            Body::History(history) => BodyView::History(quote_views(history.quotes@)),
            Body::Text(text) => BodyView::Text(text@),
        }
    }
}

impl View for Response {
    type V = ResponseView;

    open spec fn view(&self) -> ResponseView {
        ResponseView { status: self.status, body: self.body@ }
    }
}

/// The text that is sent for a failure that came without a message.
pub open spec fn unnamed_failure_text() -> Seq<char> {
    "quote retrieval failed"@
}

/// The text that is sent for a failure: its message, whatever its kind.
pub open spec fn failure_text(error: RetrievalErrorView) -> Seq<char> {
    if error.message.len() == 0 {
        unnamed_failure_text()
    } else {
        error.message
    }
}

/// The response to a failed retrieval.
pub open spec fn failure_response(error: RetrievalErrorView) -> ResponseView {
    ResponseView {
        status: STATUS_INTERNAL_SERVER_ERROR,
        body: BodyView::Text(failure_text(error)),
    }
}

/// The response of the endpoint for the most recent quote.
pub open spec fn latest_response(outcome: Result<QuoteView, RetrievalErrorView>) -> ResponseView {
    match outcome {
        Ok(quote) => ResponseView { status: STATUS_OK, body: BodyView::Quote(quote) },
        Err(error) => failure_response(error),
    }
}

/// The response of the endpoint for the history.
pub open spec fn history_response(
    outcome: Result<Seq<QuoteView>, RetrievalErrorView>,
) -> ResponseView {
    match outcome {
        Ok(quotes) => ResponseView { status: STATUS_OK, body: BodyView::History(quotes) },
        Err(error) => failure_response(error),
    }
}

/// Whether a response reports a failure: status 500, and a text that is not
/// empty in place of quotes.
pub open spec fn reports_failure(response: ResponseView) -> bool {
    response.status == STATUS_INTERNAL_SERVER_ERROR && match response.body {
        BodyView::Text(text) => text.len() > 0,
        _ => false,
    }
}

/// Whether the instant of every quote of a body is given in UTC.
pub open spec fn quotes_in_utc(body: BodyView) -> bool {
    match body {
        BodyView::Quote(quote) => utc_anchored(quote.timestamp),
        BodyView::History(quotes) => all_anchored(quotes),
        BodyView::Text(_) => true,
    }
}

fn respond_failure(error: RetrievalError) -> (response: Response)
    ensures
        response@ == failure_response(error@),
{
    let text = if error.message.as_str().is_empty() {
        "quote retrieval failed".to_owned()
    } else {
        error.message
    };
    Response { status: STATUS_INTERNAL_SERVER_ERROR, body: Body::Text(text) }
}

/// Maps the result of retrieving the most recent quote to a response.
pub fn respond_latest(result: Result<Quote, RetrievalError>) -> (response: Response)
    ensures
        response@ == latest_response(quote_result_view(result)),
{
    match result {
        Ok(quote) => Response { status: STATUS_OK, body: Body::Quote(quote) },
        Err(error) => respond_failure(error),
    }
}

/// Maps the result of retrieving a range of quotes to a response.
pub fn respond_history(result: Result<Vec<Quote>, RetrievalError>) -> (response: Response)
    ensures
        response@ == history_response(quotes_result_view(result)),
{
    match result {
        Ok(quotes) => Response {
            status: STATUS_OK,
            body: Body::History(HistoricalQuotes { quotes }),
        },
        Err(error) => respond_failure(error),
    }
}

/// Answers a request for the most recent quote, given the provider's reply.
pub fn get_latest_quote_handler(reply: LatestReply) -> (response: Response)
    ensures
        response@ == latest_response(latest_outcome(reply)),
        quotes_in_utc(response@.body),
{
    respond_latest(get_latest_quote(reply))
}

/// Answers a request for the history, given the provider's reply.
pub fn get_history_handler(reply: HistoryReply) -> (response: Response)
    ensures
        response@ == history_response(history_outcome(reply)),
        quotes_in_utc(response@.body),
{
    respond_history(get_history(reply))
}

/// Every failed retrieval, of whatever kind and with whatever message, is
/// answered by both endpoints with status 500 and a text that is not empty.
pub proof fn lemma_failure_is_reported(error: RetrievalErrorView)
    ensures
        reports_failure(latest_response(Err(error))),
        reports_failure(history_response(Err(error))),
{
    reveal_strlit("quote retrieval failed");
}

/// Whatever the provider replies, each endpoint answers either with status
/// 200 and quotes or with a report of failure: never with both, and never
/// with a part of the quotes.
pub proof fn lemma_quotes_or_failure(latest: LatestReply, history: HistoryReply)
    ensures
        latest_outcome(latest) is Ok ==> latest_response(latest_outcome(latest)).status
            == STATUS_OK && latest_response(latest_outcome(latest)).body is Quote,
        latest_outcome(latest) is Err ==> reports_failure(
            latest_response(latest_outcome(latest)),
        ),
        history_outcome(history) is Ok ==> history_response(history_outcome(history)).status
            == STATUS_OK && history_response(history_outcome(history)).body is History,
        history_outcome(history) is Err ==> reports_failure(
            history_response(history_outcome(history)),
        ),
{
    if let Err(error) = latest_outcome(latest) {
        lemma_failure_is_reported(error);
    }
    if let Err(error) = history_outcome(history) {
        lemma_failure_is_reported(error);
    }
}

/// A reply that holds no rows, or none that can be read, is answered with
/// status 200 and an empty list.
pub proof fn lemma_no_rows_is_success(reply: HistoryReply)
    requires
        reply is NoRows || (reply is Rows && reply_rows(reply).len() == 0),
    ensures
        history_outcome(reply) == Ok::<Seq<QuoteView>, RetrievalErrorView>(Seq::empty()),
        history_response(history_outcome(reply)) == (ResponseView {
            status: STATUS_OK,
            body: BodyView::History(Seq::empty()),
        }),
{
    lemma_normalized_all_keeps_order(reply_rows(reply));
    assert(history_outcome(reply)->Ok_0 =~= Seq::<QuoteView>::empty());
}

/// Rows that are all valid are answered with status 200 and as many quotes,
/// each made from the row at its place.
pub proof fn lemma_history_keeps_rows(reply: HistoryReply)
    requires
        reply is Rows,
        all_valid(reply_rows(reply)),
    ensures
        history_response(history_outcome(reply)).status == STATUS_OK,
        history_response(history_outcome(reply)).body matches BodyView::History(quotes) && {
            &&& quotes.len() == reply_rows(reply).len()
            &&& forall|i: int|
                0 <= i < quotes.len() ==> (#[trigger] quotes[i]) == normalized(
                    reply_rows(reply)[i],
                )
        },
{
    lemma_normalized_all_keeps_order(reply_rows(reply));
}

/// A call that fails in flight makes both endpoints report a failure of the
/// network.
pub proof fn lemma_network_failure_is_reported(message: String)
    ensures
        latest_outcome(LatestReply::Failed(message)) == Err::<QuoteView, RetrievalErrorView>(
            failure(ErrorKind::NetworkFailure, message@),
        ),
        history_outcome(HistoryReply::Failed(message)) == Err::<
            Seq<QuoteView>,
            RetrievalErrorView,
        >(failure(ErrorKind::NetworkFailure, message@)),
        reports_failure(latest_response(latest_outcome(LatestReply::Failed(message)))),
        reports_failure(history_response(history_outcome(HistoryReply::Failed(message)))),
{
    lemma_failure_is_reported(failure(ErrorKind::NetworkFailure, message@));
}

/// A provider that cannot be reached makes both endpoints report that it is
/// unavailable, with no quote in either response.
pub proof fn lemma_unavailable_provider_is_reported(message: String)
    ensures
        latest_outcome(LatestReply::Unavailable(message)) == Err::<QuoteView, RetrievalErrorView>(
            failure(ErrorKind::ProviderUnavailable, message@),
        ),
        history_outcome(HistoryReply::Unavailable(message)) == Err::<
            Seq<QuoteView>,
            RetrievalErrorView,
        >(failure(ErrorKind::ProviderUnavailable, message@)),
        reports_failure(latest_response(latest_outcome(LatestReply::Unavailable(message)))),
        reports_failure(history_response(history_outcome(HistoryReply::Unavailable(message)))),
{
    lemma_failure_is_reported(failure(ErrorKind::ProviderUnavailable, message@));
}

} // verus!
