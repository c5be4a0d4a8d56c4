//! Epoch seconds as UTC text.

use crate::quote::MAX_EPOCH_SECONDS;
use std::time::{Duration, UNIX_EPOCH};
use time::OffsetDateTime;
use vstd::prelude::*;

verus! {

/// The text that the `time` crate prints for the instant `seconds` after
/// 1970-01-01 00:00:00 UTC: date, time of day and offset, separated by one
/// space each.
pub uninterp spec fn utc_text(seconds: u64) -> Seq<char>;

/// How the offset of a UTC instant is printed.
pub open spec fn utc_suffix() -> Seq<char> {
    " +00:00:00"@
}

/// A text is anchored in UTC when it ends with the zero offset.
pub open spec fn utc_anchored(text: Seq<char>) -> bool {
    text.len() >= utc_suffix().len()
        && text.subrange(text.len() - utc_suffix().len(), text.len() as int) == utc_suffix()
}

/// Prints an instant given in epoch seconds.
///
/// Trusted: the body turns the seconds into a `std::time::SystemTime`, calls
/// `time::OffsetDateTime::from` on it and prints the result with `to_string`.
/// The contract claims that the text depends on `seconds` alone, and that it
/// ends with the offset of UTC, as `OffsetDateTime::UNIX_EPOCH` carries the
/// offset zero and adding a duration keeps it. Beyond
/// [`MAX_EPOCH_SECONDS`] the addition inside `from` panics, so such inputs
/// are left out.
#[verifier::external_body]
pub(crate) fn format_epoch_seconds(seconds: u64) -> (text: String)
    requires
        seconds <= MAX_EPOCH_SECONDS,
    ensures
        text@ == utc_text(seconds),
        utc_anchored(text@),
{
    OffsetDateTime::from(UNIX_EPOCH + Duration::from_secs(seconds)).to_string()
}

} // verus!
