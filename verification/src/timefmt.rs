//! Rendering of event timestamps for the table's first column.
use vstd::prelude::*;

verus! {

/// The text that stands for a millisecond timestamp in the event table:
/// a calendar date and time of day in UTC. A function of the timestamp
/// alone; its letters are not spelled out here.
pub uninterp spec fn time_row_label(millis: i64) -> Seq<char>;

/// Relies on chrono: `Utc.timestamp_millis_opt` reads the timestamp as a
/// UTC date and time (absent only outside chrono's date range), and
/// `DateTime::format` renders it as `%Y-%m-%d %H:%M:%S %Z`. Both depend on
/// the timestamp alone.
#[verifier::external_body]
pub fn format_event_time(millis: i64) -> (r: String)
    ensures
        r@ == time_row_label(millis),
{
    match chrono::TimeZone::timestamp_millis_opt(&chrono::Utc, millis).single() {
        Some(dt) => dt.format("%Y-%m-%d %H:%M:%S %Z").to_string(),
        None => String::new(),
    }
}

} // verus!
