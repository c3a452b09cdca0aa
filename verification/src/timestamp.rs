//! Timestamp rendering: a unix timestamp shifted to an offset and written
//! out under a configured format description, through the `time` crate.

use vstd::prelude::*;

verus! {

/// The text the formatting backend produces for the timestamp `secs`
/// seconds after the epoch, shifted east by `offset_secs` seconds and
/// written under the format description `fmt`; absent when the timestamp
/// or the format description is not renderable. The text is a function of
/// these three values alone.
pub uninterp spec fn time_text_of(secs: i64, offset_secs: i32, fmt: Seq<char>) -> Option<
    Seq<char>,
>;

/// The widest UTC offset the formatting backend can represent, in whole
/// seconds (25:59:59 east or west).
pub const MAX_UTC_OFFSET_SECS: i32 = 93599;

/// The view of an optional rendered string.
pub open spec fn opt_text(r: Option<String>) -> Option<Seq<char>> {
    match r {
        Some(s) => Some(s@),
        None => None,
    }
}

/// Relies on the `time` crate's rendering pipeline —
/// `OffsetDateTime::from_unix_timestamp`, `UtcOffset::from_whole_seconds`,
/// `OffsetDateTime::checked_to_offset`, `format_description::parse_borrowed`
/// and `OffsetDateTime::format` — whose composed result depends on the
/// three arguments alone; any step failing (a timestamp or offset outside
/// the backend's range, a malformed format description, a shifted datetime
/// past the year bounds) yields nothing rather than failing.
#[verifier::external_body]
pub(crate) fn format_unix(secs: i64, offset_secs: i32, fmt: &str) -> (r: Option<String>)
    ensures
        opt_text(r) == time_text_of(secs, offset_secs, fmt@),
{
    let dt = time::OffsetDateTime::from_unix_timestamp(secs).ok()?;
    let off = time::UtcOffset::from_whole_seconds(offset_secs).ok()?;
    let items = time::format_description::parse_borrowed::<2>(fmt).ok()?;
    dt.checked_to_offset(off)?.format(&items).ok()
}

/// Relies on time::UtcOffset::current_local_offset: the process's current
/// UTC offset in whole seconds, absent when it cannot be determined (the
/// caller then falls back to UTC). A `UtcOffset` can only hold offsets up
/// to 25:59:59 either way, so the seconds lie within that bound.
#[verifier::external_body]
pub(crate) fn local_offset_seconds() -> (r: Option<i32>)
    ensures
        r matches Some(o) ==> -MAX_UTC_OFFSET_SECS <= o <= MAX_UTC_OFFSET_SECS,
{
    time::UtcOffset::current_local_offset().ok().map(|o| o.whole_seconds())
}

} // verus!
