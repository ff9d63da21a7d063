//! Calendar dates at day granularity, and trusted parsing of the service's
//! fixed timestamp format through the `chrono` crate.

use vstd::prelude::*;
use chrono::Datelike;

verus! {

/// A calendar date; no time of day is retained.
#[derive(Copy, Clone, PartialEq, Eq, Structural, Hash, Debug)]
pub struct Date {
    pub year: i32,
    pub month: u32,
    pub day: u32,
}

/// The calendar date that a timestamp in the exact format
/// `YYYY-MM-DDThh:mm:ss.sssZ` denotes, as (year, month, day), if the text
/// matches the format and names a real date.
pub uninterp spec fn date_of_text(s: Seq<char>) -> Option<(i32, u32, u32)>;

/// The `Date` a parsed (year, month, day) triple stands for.
pub open spec fn date_from_triple(t: (i32, u32, u32)) -> Date {
    Date { year: t.0, month: t.1, day: t.2 }
}

/// Relies on `chrono::NaiveDate::parse_from_str` with the fixed format
/// `%Y-%m-%dT%H:%M:%S%.3fZ`: whether the text parses, and to which date,
/// depends on the text alone, and the time of day is dropped.
#[verifier::external_body]
pub(crate) fn parse_written_on(s: &str) -> (r: Option<Date>)
    ensures
        (r is Some <==> date_of_text(s@) is Some),
        r is Some ==> date_of_text(s@) == Some((r->Some_0.year, r->Some_0.month, r->Some_0.day)),
{
    match chrono::naive::NaiveDate::parse_from_str(s, "%Y-%m-%dT%H:%M:%S%.3fZ") {
        Ok(d) => Some(Date { year: d.year(), month: d.month(), day: d.day() }),
        Err(_) => None,
    }
}

} // verus!
