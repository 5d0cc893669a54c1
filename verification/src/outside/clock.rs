//! The clock and the RFC 3339 form of instants, by the `time` crate.
use vstd::prelude::*;

verus! {

/// The first instant that a date can have, in nanoseconds from the Unix epoch:
/// the start of the year -9999.
pub const FIRST_INSTANT: i128 = -377_705_116_800_000_000_000;

/// The last instant that a date can have: the end of the year 9999.
pub const LAST_INSTANT: i128 = 253_402_300_799_999_999_999;

/// The RFC 3339 form of an instant seen at an offset from UTC; `None` where it
/// has none.
pub uninterp spec fn rfc3339_text(unix_nanos: i128, offset_secs: i32) -> Option<Seq<char>>;

/// `time::OffsetDateTime::now_utc`, in nanoseconds from the Unix epoch. The
/// instant is up to the clock; it lies in the range that dates have.
#[verifier::external_body]
pub(crate) fn now_utc() -> (r: i128)
    ensures
        FIRST_INSTANT <= r <= LAST_INSTANT,
{
    time::OffsetDateTime::now_utc().unix_timestamp_nanos()
}

/// `now` is an instant that a call of [`now_utc`] returned: one that the clock gave.
/// Nothing but such a call shows that of an instant.
pub open(crate) spec fn clock_gave(now: i128) -> bool {
    call_ensures(now_utc, (), now)
}

/// `time::OffsetDateTime::format` with the `Rfc3339` description, on the date of
/// the given instant and offset.
///
/// The result depends on the two alone, and every instant of UTC from the Unix
/// epoch to the end of the year 9999 has a form.
#[verifier::external_body]
pub(crate) fn rfc3339(unix_nanos: i128, offset_secs: i32) -> (r: Option<String>)
    ensures
        match r {
            Some(text) => rfc3339_text(unix_nanos, offset_secs) == Some(text@),
            None => rfc3339_text(unix_nanos, offset_secs) is None,
        },
        0 <= unix_nanos <= LAST_INSTANT && offset_secs == 0 ==> r is Some,
{
    let at = time::OffsetDateTime::from_unix_timestamp_nanos(unix_nanos).ok()?;
    let offset = time::UtcOffset::from_whole_seconds(offset_secs).ok()?;
    let local = at.checked_to_offset(offset)?;
    local.format(&time::format_description::well_known::Rfc3339).ok()
}

} // verus!
