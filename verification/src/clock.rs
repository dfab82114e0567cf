//! Wall-clock time for the status records.

use vstd::prelude::*;
use vstd::string::StringExecFns;

verus! {

/// What a record carries in place of the time when the clock cannot be read.
pub open spec fn unknown_time() -> Seq<char> {
    "--:--:--"@
}

/// The time a record carries: what the clock gave, or the mark for an
/// unknown time.
pub open spec fn time_or_unknown(clock: Option<Seq<char>>) -> Seq<char> {
    match clock {
        Some(text) => text,
        None => unknown_time(),
    }
}

/// Reads the system clock with `std::time::SystemTime::now` and
/// `SystemTime::duration_since` the Unix epoch, and has `chrono` render the
/// time of day, shifted east of UTC by `utc_offset_secs`, as hours, minutes
/// and seconds (`chrono::DateTime::from_timestamp`, `FixedOffset::east_opt`,
/// `DateTime::with_timezone`, `DateTime::format`).
///
/// Trusted, and nothing is claimed of the text: it depends on the moment of
/// the call. The answer is `None` where the clock stands before 1970 or
/// beyond the years `chrono` holds, or where the offset is a day or more.
#[verifier::external_body]
pub(crate) fn clock_text(utc_offset_secs: i32) -> (text: Option<String>) {
    let since = std::time::SystemTime::now().duration_since(std::time::UNIX_EPOCH).ok()?;
    let secs = i64::try_from(since.as_secs()).ok()?;
    let utc = chrono::DateTime::from_timestamp(secs, since.subsec_nanos())?;
    let zone = chrono::FixedOffset::east_opt(utc_offset_secs)?;
    Some(utc.with_timezone(&zone).format("%H:%M:%S").to_string())
}

/// The time a record carries, given what the clock gave.
pub fn timestamp_text(clock: Option<String>) -> (text: String)
    ensures
        text@ == time_or_unknown(clock.deep_view()),
{
    match clock {
        Some(text) => text,
        None => String::from_str("--:--:--"),
    }
}

} // verus!
