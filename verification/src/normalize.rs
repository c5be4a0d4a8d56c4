//! The quote normalizer: from the provider's record to the canonical one.

use crate::quote::{quote_views, Quote, QuoteView, RawQuote};
use crate::timestamp::{format_epoch_seconds, utc_anchored, utc_text};
use vstd::prelude::*;

verus! {

/// The canonical quote of a raw quote: the instant as UTC text, the closing
/// price as it came.
pub open spec fn normalized(raw: RawQuote) -> QuoteView {
    QuoteView { timestamp: utc_text(raw.timestamp), close_bits: raw.close_bits }
}

/// The canonical quotes of a sequence of raw quotes, one for one and in order.
pub open spec fn normalized_all(raws: Seq<RawQuote>) -> Seq<QuoteView> {
    raws.map_values(|raw: RawQuote| normalized(raw))
}

/// Whether every raw quote of a sequence is valid.
pub open spec fn all_valid(raws: Seq<RawQuote>) -> bool {
    forall|i: int| 0 <= i < raws.len() ==> (#[trigger] raws[i]).valid()
}

/// Whether the instant of every quote of a sequence is given in UTC.
pub open spec fn all_anchored(quotes: Seq<QuoteView>) -> bool {
    forall|i: int| 0 <= i < quotes.len() ==> utc_anchored((#[trigger] quotes[i]).timestamp)
}

/// Normalizing a sequence keeps its length, and the quote at each place
/// comes from the raw quote at that place.
pub proof fn lemma_normalized_all_keeps_order(raws: Seq<RawQuote>)
    ensures
        normalized_all(raws).len() == raws.len(),
        forall|i: int|
            0 <= i < raws.len() ==> (#[trigger] normalized_all(raws)[i]) == normalized(raws[i]),
        forall|i: int|
            0 <= i < raws.len() ==> (#[trigger] normalized_all(raws)[i]).close_bits
                == raws[i].close_bits,
{
}

/// Normalizes one raw quote.
pub fn normalize(raw: RawQuote) -> (quote: Quote)
    requires
        raw.valid(),
    ensures
        quote@ == normalized(raw),
        quote.close_bits == raw.close_bits,
        utc_anchored(quote.timestamp@),
{
    Quote::new(format_epoch_seconds(raw.timestamp), raw.close_bits)
}

/// Normalizes a sequence of raw quotes, keeping their number and their order.
pub fn normalize_all(raws: &Vec<RawQuote>) -> (quotes: Vec<Quote>)
    requires
        all_valid(raws@),
    ensures
        quote_views(quotes@) == normalized_all(raws@),
        quotes@.len() == raws@.len(),
        forall|i: int| 0 <= i < raws@.len() ==> (#[trigger] quotes@[i])@ == normalized(raws@[i]),
        all_anchored(quote_views(quotes@)),
{
    let mut quotes: Vec<Quote> = Vec::new();
    let mut i: usize = 0;
    while i < raws.len()
        invariant
            i <= raws@.len(),
            all_valid(raws@),
            quotes@.len() == i,
            forall|j: int| 0 <= j < i ==> (#[trigger] quotes@[j])@ == normalized(raws@[j]),
            forall|j: int| 0 <= j < i ==> utc_anchored((#[trigger] quotes@[j]).timestamp@),
        decreases raws@.len() - i,
    {
        let quote = normalize(raws[i]);
        quotes.push(quote);
        i += 1;
    }
    assert(quote_views(quotes@) =~= normalized_all(raws@));
    assert forall|j: int| 0 <= j < quote_views(quotes@).len() implies utc_anchored(
        (#[trigger] quote_views(quotes@)[j]).timestamp,
    ) by {
        assert(quote_views(quotes@)[j] == quotes@[j]@);
    }
    quotes
}

/// Tests whether every raw quote of a sequence is valid.
pub fn all_in_range(raws: &Vec<RawQuote>) -> (ok: bool)
    ensures
        ok == all_valid(raws@),
{
    let mut i: usize = 0;
    while i < raws.len()
        invariant
            i <= raws@.len(),
            forall|j: int| 0 <= j < i ==> (#[trigger] raws@[j]).valid(),
        decreases raws@.len() - i,
    {
        if !raws[i].is_valid() {
            return false;
        }
        i += 1;
    }
    true
}

} // verus!
