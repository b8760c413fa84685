//! Wall-clock time, as milliseconds since the Unix epoch (UTC).
//!
//! Every instant the library stores is such a count. chrono's `DateTime<Utc>`
//! covers the years -262143 to 262142, which lie within
//! `TIMESTAMP_LIMIT` milliseconds of the epoch.
use vstd::prelude::*;

verus! {

/// A bound on the distance from the epoch of any `DateTime<Utc>`, in milliseconds.
pub const TIMESTAMP_LIMIT: i64 = 9_000_000_000_000_000;

/// The timestamp of `DateTime::<Utc>::MIN_UTC` (January 1 of the year -262143).
pub const MIN_UTC_MILLIS: i64 = -8_334_601_315_200_000;

/// The timestamp of the last millisecond of December 31 of the year 262142,
/// the last day chrono represents.
pub const MAX_UTC_MILLIS: i64 = 8_210_266_876_799_999;

/// The text that chrono's `format` makes of the instant `millis` with the
/// strftime pattern `pattern`, or `None` where chrono has no `DateTime<Utc>`
/// for that instant.
pub uninterp spec fn utc_format(millis: i64, pattern: Seq<char>) -> Option<Seq<char>>;

/// The pattern of the human-readable timestamps ("2024-05-01 12:00:00 UTC").
pub open spec fn display_pattern() -> Seq<char> {
    "%Y-%m-%d %H:%M:%S UTC"@
}

/// The pattern of the default file names ("2024-05-01_12-00-00").
pub open spec fn file_pattern() -> Seq<char> {
    "%Y-%m-%d_%H-%M-%S"@
}

/// `chrono::Utc::now().timestamp_millis()`: the current wall-clock time.
/// It depends on the machine's clock, so nothing ties it to an argument. What
/// is claimed is what chrono's source shows: `Utc::now` reads the system time
/// since the epoch (it panics on a clock set before 1970) and builds a
/// `DateTime` from it, so the count is neither negative nor past the last
/// day chrono represents.
#[verifier::external_body]
pub(crate) fn now_millis() -> (r: i64)
    ensures
        0 <= r <= MAX_UTC_MILLIS,
{
    chrono::Utc::now().timestamp_millis()
}

/// `DateTime::<Utc>::from_timestamp_millis(millis)` formatted with chrono's
/// `format(pattern).to_string()`. The text is named `utc_format`: chrono's
/// calendar arithmetic is not restated here. Only the two patterns the
/// library uses are admitted, since `to_string` panics on a malformed one.
/// Beside the name, the contract states that every instant between the first
/// and the last day chrono represents has a `DateTime`.
#[verifier::external_body]
pub(crate) fn format_utc(millis: i64, pattern: &str) -> (r: Option<String>)
    requires
        pattern@ == display_pattern() || pattern@ == file_pattern(),
    ensures
        MIN_UTC_MILLIS <= millis <= MAX_UTC_MILLIS ==> r is Some,
        match r {
            Some(s) => utc_format(millis, pattern@) == Some(s@),
            None => utc_format(millis, pattern@) is None,
        },
{
    let t = chrono::DateTime::<chrono::Utc>::from_timestamp_millis(millis)?;
    Some(t.format(pattern).to_string())
}

/// The text the screens show for the instant `millis`: its UTC date and
/// time ("2024-05-01 12:00:00 UTC"), or the empty text where the calendar
/// has no such instant.
pub open spec fn display_text(millis: i64) -> Seq<char> {
    match utc_format(millis, display_pattern()) {
        Some(s) => s,
        None => Seq::empty(),
    }
}

/// The UTC date and time of the instant `millis` as the screens show it
/// (see `display_text`); every instant of the calendar has one.
pub fn utc_display(millis: i64) -> (r: String)
    ensures
        r@ == display_text(millis),
        MIN_UTC_MILLIS <= millis <= MAX_UTC_MILLIS ==> r@ == utc_format(millis, display_pattern())->Some_0,
{
    proof {
        reveal_strlit("%Y-%m-%d %H:%M:%S UTC");
    }
    match format_utc(millis, "%Y-%m-%d %H:%M:%S UTC") {
        Some(s) => s,
        None => String::new(),
    }
}

} // verus!
