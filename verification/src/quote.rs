//! The two quote records: the provider's and the canonical one.

use vstd::prelude::*;

verus! {

/// The last epoch second with a four-digit calendar year:
/// 9999-12-31 23:59:59 UTC.
pub const MAX_EPOCH_SECONDS: u64 = 253_402_300_799;

/// A quote as the provider reports it.
///
/// `timestamp` counts seconds since 1970-01-01 00:00:00 UTC. `close_bits` is
/// the IEEE 754 binary64 bit pattern of the closing price, so that every
/// price, finite or not, is carried without change.
#[derive(Clone, Copy, Debug, PartialEq, Eq, Structural)]
pub struct RawQuote {
    pub timestamp: u64,
    pub close_bits: u64,
}

impl RawQuote {
    /// A raw quote is valid when its timestamp names an instant that has a
    /// calendar date.
    pub open spec fn valid(&self) -> bool {
        self.timestamp <= MAX_EPOCH_SECONDS
    }

    /// Tests [`RawQuote::valid`].
    pub fn is_valid(&self) -> (ok: bool)
        ensures
            ok == self.valid(),
    {
        self.timestamp <= MAX_EPOCH_SECONDS
    }
}

/// A canonical quote: the instant as UTC text, and the closing price as the
/// bit pattern of its binary64 value.
#[derive(Clone, Debug, PartialEq, Eq)]
pub struct Quote {
    pub timestamp: String,
    pub close_bits: u64,
}

impl Quote {
    /// The canonical quote with the given text for its instant and the given
    /// closing price.
    pub fn new(timestamp: String, close_bits: u64) -> (quote: Quote)
        ensures
            quote@ == (QuoteView { timestamp: timestamp@, close_bits }),
            quote.timestamp == timestamp,
            quote.close_bits == close_bits,
    {
        Quote { timestamp, close_bits }
    }
}

/// What a [`Quote`] stands for.
pub struct QuoteView {
    pub timestamp: Seq<char>,
    pub close_bits: u64,
}

impl View for Quote {
    type V = QuoteView;

    open spec fn view(&self) -> QuoteView {
        QuoteView { timestamp: self.timestamp@, close_bits: self.close_bits }
    }
}

/// The views of a sequence of quotes, in order.
pub open spec fn quote_views(quotes: Seq<Quote>) -> Seq<QuoteView> {
    quotes.map_values(|q: Quote| q@)
}

} // verus!
