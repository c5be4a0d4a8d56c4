use stock_quotes::error::{ErrorKind, RetrievalError};
use stock_quotes::provider::{HistoryReply, LatestReply};
use stock_quotes::quote::{Quote, RawQuote, MAX_EPOCH_SECONDS};
use stock_quotes::response::{
    get_history_handler, get_latest_quote_handler, respond_history, respond_latest, Body,
    HistoricalQuotes, Response, STATUS_INTERNAL_SERVER_ERROR, STATUS_OK,
};

fn raw(timestamp: u64, close: f64) -> RawQuote {
    RawQuote { timestamp, close_bits: close.to_bits() }
}

fn quote(timestamp: &str, close: f64) -> Quote {
    Quote { timestamp: timestamp.to_string(), close_bits: close.to_bits() }
}

fn text(status: u16, text: &str) -> Response {
    Response { status, body: Body::Text(text.to_string()) }
}

#[test]
fn the_two_statuses_are_200_and_500() {
    assert_eq!(STATUS_OK, 200);
    assert_eq!(STATUS_INTERNAL_SERVER_ERROR, 500);
}

#[test]
fn latest_quote_endpoint_answers_with_the_quote() {
    let response = get_latest_quote_handler(LatestReply::Quote(raw(1_577_836_800, 300.35)));
    assert_eq!(
        response,
        Response { status: 200, body: Body::Quote(quote("2020-01-01 0:00:00.0 +00:00:00", 300.35)) }
    );
    match response.body {
        Body::Quote(quote) => assert_eq!(f64::from_bits(quote.close_bits), 300.35),
        _ => panic!("the body holds no quote"),
    }
}

#[test]
fn history_endpoint_answers_with_three_quotes_in_order() {
    let rows = vec![
        raw(1_577_923_200, 75.0875),
        raw(1_578_009_600, 74.3575),
        raw(1_578_268_800, 74.95),
    ];
    let response = get_history_handler(HistoryReply::Rows(rows));
    assert_eq!(response.status, 200);
    match response.body {
        Body::History(history) => {
            assert_eq!(history.quotes.len(), 3);
            assert_eq!(
                history.quotes,
                vec![
                    quote("2020-01-02 0:00:00.0 +00:00:00", 75.0875),
                    quote("2020-01-03 0:00:00.0 +00:00:00", 74.3575),
                    quote("2020-01-06 0:00:00.0 +00:00:00", 74.95),
                ]
            );
        }
        _ => panic!("the body holds no quotes"),
    }
}

#[test]
fn history_endpoint_answers_no_rows_with_an_empty_list() {
    let response = get_history_handler(HistoryReply::Rows(Vec::new()));
    assert_eq!(
        response,
        Response { status: 200, body: Body::History(HistoricalQuotes { quotes: Vec::new() }) }
    );
    let response = get_history_handler(HistoryReply::NoRows("empty data set".to_string()));
    assert_eq!(
        response,
        Response { status: 200, body: Body::History(HistoricalQuotes { quotes: Vec::new() }) }
    );
}

#[test]
fn a_network_failure_is_answered_with_500_and_its_message() {
    let latest = get_latest_quote_handler(LatestReply::Failed("connection reset".to_string()));
    assert_eq!(latest, text(500, "connection reset"));
    let history = get_history_handler(HistoryReply::Failed("connection reset".to_string()));
    assert_eq!(history, text(500, "connection reset"));
}

#[test]
fn an_unavailable_provider_is_answered_with_500_by_both_endpoints() {
    let latest = get_latest_quote_handler(LatestReply::Unavailable("no client".to_string()));
    assert_eq!(latest, text(500, "no client"));
    let history = get_history_handler(HistoryReply::Unavailable("no client".to_string()));
    assert_eq!(history, text(500, "no client"));
}

#[test]
fn a_reply_without_a_quote_is_answered_with_500() {
    let latest = get_latest_quote_handler(LatestReply::NoQuote("empty data set".to_string()));
    assert_eq!(latest, text(500, "empty data set"));
}

#[test]
fn a_failure_without_a_message_is_answered_with_a_text_all_the_same() {
    let latest = get_latest_quote_handler(LatestReply::Failed(String::new()));
    assert_eq!(latest, text(500, "quote retrieval failed"));
    let history = get_history_handler(HistoryReply::Unavailable(String::new()));
    assert_eq!(history, text(500, "quote retrieval failed"));
    let latest = get_latest_quote_handler(LatestReply::NoQuote(String::new()));
    assert_eq!(latest, text(500, "quote retrieval failed"));
}

#[test]
fn a_timestamp_without_a_date_is_answered_with_500() {
    let expected = text(500, "the provider reported a timestamp after 9999-12-31 23:59:59 UTC");
    let latest = get_latest_quote_handler(LatestReply::Quote(raw(MAX_EPOCH_SECONDS + 1, 1.0)));
    assert_eq!(latest, expected);
    let rows = vec![raw(MAX_EPOCH_SECONDS + 1, 1.0), raw(0, 1.0)];
    let history = get_history_handler(HistoryReply::Rows(rows));
    assert_eq!(history, expected);
}

#[test]
fn the_status_does_not_tell_the_kinds_of_failure_apart() {
    let kinds = [
        ErrorKind::ProviderUnavailable,
        ErrorKind::NoDataForSymbol,
        ErrorKind::MalformedProviderResponse,
        ErrorKind::NetworkFailure,
    ];
    for kind in kinds {
        let error = RetrievalError { kind, message: "it failed".to_string() };
        assert_eq!(respond_latest(Err(error.clone())), text(500, "it failed"));
        assert_eq!(respond_history(Err(error)), text(500, "it failed"));
    }
}

#[test]
fn respond_latest_wraps_a_quote() {
    let response = respond_latest(Ok(quote("2020-01-01 0:00:00.0 +00:00:00", 300.35)));
    assert_eq!(
        response,
        Response { status: 200, body: Body::Quote(quote("2020-01-01 0:00:00.0 +00:00:00", 300.35)) }
    );
}

#[test]
fn respond_history_wraps_the_quotes() {
    let quotes = vec![quote("a", 1.0), quote("b", 2.0)];
    let response = respond_history(Ok(quotes.clone()));
    assert_eq!(response, Response { status: 200, body: Body::History(HistoricalQuotes { quotes }) });
}
