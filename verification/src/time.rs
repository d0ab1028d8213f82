//! Clock readings and timestamp display.  Both come from chrono behind
//! trusted wrappers: a clock reading promises nothing, and the rendering
//! of a Unix timestamp is a named function of the timestamp alone.

use vstd::prelude::*;

use std::time::SystemTime;

verus! {

/// The minute-precision display chrono renders for a Unix timestamp with
/// the format `%Y-%m-%d %H:%M`: a function of the timestamp alone.
pub uninterp spec fn minute_display(secs: i64) -> Seq<char>;

/// Whether `secs` lies in the range chrono can represent as a date-time:
/// a function of the timestamp alone.
pub uninterp spec fn minute_display_valid(secs: i64) -> bool;

/// Relies on `chrono::DateTime::<Utc>::from_timestamp`, which returns a
/// value exactly when the timestamp is in chrono's representable range,
/// and on `DateTime::format` with `"%Y-%m-%d %H:%M"`, whose rendering
/// depends on the timestamp alone.
#[verifier::external_body]
fn chrono_minute(secs: i64) -> (r: Option<String>)
    ensures
        r is Some <==> minute_display_valid(secs),
        r matches Some(s) ==> s@ == minute_display(secs),
{
    chrono::DateTime::<chrono::Utc>::from_timestamp(secs, 0).map(
        |dt| dt.format("%Y-%m-%d %H:%M").to_string(),
    )
}

/// Relies on `chrono::Utc::now().to_rfc3339()`: a clock reading; nothing
/// is promised of the value.
#[verifier::external_body]
pub(crate) fn now_rfc3339() -> (r: String) {
    chrono::Utc::now().to_rfc3339()
}

/// Relies on `SystemTime::duration_since(UNIX_EPOCH)` and
/// `Duration::as_secs`: the whole seconds since the Unix epoch, or
/// nothing for a time before the epoch.
#[verifier::external_body]
fn system_time_unix_secs(time: &SystemTime) -> (r: Option<u64>) {
    time.duration_since(std::time::UNIX_EPOCH).ok().map(|d| d.as_secs())
}

/// Formats a Unix timestamp (whole seconds) at minute precision, or
/// `"Unknown"` for a timestamp chrono cannot represent.
pub fn format_unix_minute(secs: i64) -> (r: String)
    ensures
        r@ == if minute_display_valid(secs) {
            minute_display(secs)
        } else {
            "Unknown"@
        },
{
    match chrono_minute(secs) {
        Some(s) => s,
        None => String::from_str("Unknown"),
    }
}

/// Formats a file time at minute precision; a time before the Unix epoch
/// or outside chrono's range renders as `"Unknown"`.
pub fn format_timestamp(time: SystemTime) -> (r: String)
    ensures
        r@ == "Unknown"@ || exists|secs: i64|
            minute_display_valid(secs) && r@ == #[trigger] minute_display(secs),
{
    match system_time_unix_secs(&time) {
        Some(secs) => format_unix_minute(#[verifier::truncate] (secs as i64)),
        None => String::from_str("Unknown"),
    }
}

} // verus!
