//! Timestamps. Deadlines travel as RFC 3339 text; comparisons happen on
//! milliseconds since the Unix epoch. Parsing and the current time come
//! from the `chrono` crate behind trusted wrappers.

use vstd::prelude::*;

verus! {

/// What `chrono` reads out of an RFC 3339 string: the instant it denotes,
/// in milliseconds since the Unix epoch, or nothing for malformed text.
/// The result depends on the text alone.
pub uninterp spec fn rfc3339_epoch_ms(s: Seq<char>) -> Option<int>;

/// Relies on chrono's `DateTime::parse_from_rfc3339` followed by
/// `timestamp_millis`: parsing is a function of the text alone.
#[verifier::external_body]
pub(crate) fn parse_rfc3339_ms(s: &str) -> (r: Option<i64>)
    ensures
        match r {
            Some(ms) => rfc3339_epoch_ms(s@) == Some(ms as int),
            None => rfc3339_epoch_ms(s@) is None,
        },
{
    match chrono::DateTime::parse_from_rfc3339(s) {
        Ok(dt) => Some(dt.timestamp_millis()),
        Err(_) => None,
    }
}

/// Relies on chrono's `Utc::now` and `timestamp_millis`. The clock is
/// outside the model, so nothing is promised of the value.
#[verifier::external_body]
pub(crate) fn now_epoch_ms() -> i64 {
    chrono::Utc::now().timestamp_millis()
}

/// Relies on chrono's `Utc::now` and `to_rfc3339`. The clock is outside
/// the model, so nothing is promised of the value.
#[verifier::external_body]
pub(crate) fn now_rfc3339() -> String {
    chrono::Utc::now().to_rfc3339()
}

} // verus!
