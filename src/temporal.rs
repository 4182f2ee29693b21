use vstd::prelude::*;

verus! {

/// The instant an RFC 3339 date-time with offset denotes, as chrono reads
/// it: seconds since the Unix epoch and the nanoseconds past them.
pub uninterp spec fn offset_datetime_of(text: Seq<char>) -> Option<(i64, u32)>;

/// A local date-time as chrono reads it: the day counted from the common
/// era, the second of the day and the nanoseconds past it.
pub uninterp spec fn local_datetime_of(text: Seq<char>) -> Option<(i32, u32, u32)>;

/// A local date as chrono reads it: the day counted from the common era.
pub uninterp spec fn local_date_of(text: Seq<char>) -> Option<i32>;

/// A local time as chrono reads it: the second of the day and the
/// nanoseconds past it.
pub uninterp spec fn local_time_of(text: Seq<char>) -> Option<(u32, u32)>;

/// Relies on chrono's `FromStr` for `DateTime<FixedOffset>`, read back with
/// `timestamp` and `timestamp_subsec_nanos`: two values are equal under
/// chrono's `==` exactly when these agree.
#[verifier::external_body]
pub(crate) fn parse_offset_datetime(text: &str) -> (r: Option<(i64, u32)>)
    ensures
        r == offset_datetime_of(text@),
{
    text.parse::<chrono::DateTime<chrono::FixedOffset>>().ok().map(
        |d| (d.timestamp(), d.timestamp_subsec_nanos()),
    )
}

/// Relies on chrono's `FromStr` for `NaiveDateTime`, read back with
/// `Datelike::num_days_from_ce`, `Timelike::num_seconds_from_midnight` and
/// `Timelike::nanosecond`, which together determine the value.
#[verifier::external_body]
pub(crate) fn parse_local_datetime(text: &str) -> (r: Option<(i32, u32, u32)>)
    ensures
        r == local_datetime_of(text@),
{
    text.parse::<chrono::NaiveDateTime>().ok().map(
        |d| (
            chrono::Datelike::num_days_from_ce(&d.date()),
            chrono::Timelike::num_seconds_from_midnight(&d.time()),
            chrono::Timelike::nanosecond(&d.time()),
        ),
    )
}

/// Relies on chrono's `FromStr` for `NaiveDate`, read back with
/// `Datelike::num_days_from_ce`, which determines the date.
#[verifier::external_body]
pub(crate) fn parse_local_date(text: &str) -> (r: Option<i32>)
    ensures
        r == local_date_of(text@),
{
    text.parse::<chrono::NaiveDate>().ok().map(|d| chrono::Datelike::num_days_from_ce(&d))
}

/// Relies on chrono's `FromStr` for `NaiveTime`, read back with
/// `Timelike::num_seconds_from_midnight` and `Timelike::nanosecond`, which
/// together determine the time.
#[verifier::external_body]
pub(crate) fn parse_local_time(text: &str) -> (r: Option<(u32, u32)>)
    ensures
        r == local_time_of(text@),
{
    text.parse::<chrono::NaiveTime>().ok().map(
        |t| (chrono::Timelike::num_seconds_from_midnight(&t), chrono::Timelike::nanosecond(&t)),
    )
}

} // verus!
