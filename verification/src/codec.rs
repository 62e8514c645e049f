//! Trusted views of the outside codecs the delegate protocol relies on:
//! RFC 3339 timestamp parsing and base64 decoding.

use vstd::prelude::*;

use crate::date::{MIN_DATE_ORDINAL, SCAN_ORDINAL_CAP};

verus! {

/// The day ordinal (UTC calendar date) encoded by an RFC 3339 timestamp, or
/// nothing when the text is not a valid RFC 3339 timestamp.
pub uninterp spec fn rfc3339_utc_day(s: Seq<char>) -> Option<int>;

/// The bytes a base64 text decodes to, or nothing when the text is not valid
/// base64.
pub uninterp spec fn base64_decoded(s: Seq<char>) -> Option<Seq<u8>>;

/// Relies on chrono's `DateTime::parse_from_rfc3339`, `with_timezone` and
/// `Datelike::num_days_from_ce`: parses an RFC 3339 timestamp, converts it
/// to UTC and returns the day ordinal of its calendar date (day 1 is
/// January 1 of year 1).  The result depends on the text alone.  RFC 3339
/// years have exactly four digits and chrono bounds offsets below one day,
/// so the UTC date lies within one day of a year-0000-to-9999 date; its
/// ordinal therefore lies between -366 and 3652060, inside the range the
/// library converts back to a calendar date.
#[verifier::external_body]
pub fn parse_rfc3339_utc_day(s: &str) -> (r: Option<i64>)
    ensures
        r is Some <==> rfc3339_utc_day(s@) is Some,
        r matches Some(d) ==> rfc3339_utc_day(s@) == Some(d as int),
        r matches Some(d) ==> MIN_DATE_ORDINAL < d <= SCAN_ORDINAL_CAP,
{
    match chrono::DateTime::parse_from_rfc3339(s) {
        Ok(dt) => {
            let date = dt.with_timezone(&chrono::Utc).date_naive();
            Some(chrono::Datelike::num_days_from_ce(&date) as i64)
        },
        Err(_) => None,
    }
}

/// Relies on `base64::decode`: decodes standard base64 text to its bytes.
/// The result depends on the text alone.
#[verifier::external_body]
pub fn base64_decode(s: &str) -> (r: Option<Vec<u8>>)
    ensures
        r is Some <==> base64_decoded(s@) is Some,
        r matches Some(v) ==> base64_decoded(s@) == Some(v@),
{
    match base64::decode(s) {
        Ok(v) => Some(v),
        Err(_) => None,
    }
}

} // verus!
