use vstd::prelude::*;

verus! {

/// The whole seconds since the UNIX epoch of an RFC 3339 date-and-time text
/// (`1996-12-19T16:39:57-08:00`), as chrono reads it; `None` when the text
/// is not RFC 3339.
pub uninterp spec fn rfc3339_seconds(text: Seq<char>) -> Option<i64>;

/// The whole seconds since the UNIX epoch of a UTC date-and-time text in the
/// form `%Y-%m-%d %H:%M:%S%.f` (`2024-01-02 03:04:05.678`), as chrono reads
/// it; `None` when the text is not of that form.
pub uninterp spec fn naive_utc_seconds(text: Seq<char>) -> Option<i64>;

/// The calendar date (`%Y-%m-%d`), at a fixed offset east of UTC, of an
/// instant given in seconds since the UNIX epoch; `None` when chrono cannot
/// represent the instant or the offset.
pub uninterp spec fn offset_date(seconds: i64, offset_seconds: i32) -> Option<Seq<char>>;

/// The timestamps of the instants chrono represents: from the first second
/// of its `NaiveDate::MIN` (1 January of year -262143) to the last of its
/// `NaiveDate::MAX` (31 December of year 262142), in UTC.
pub open spec fn within_chrono_range(seconds: i64) -> bool {
    -8_334_601_315_200 <= seconds <= 8_210_266_876_799
}

/// Reads an RFC 3339 date-and-time with `chrono::DateTime::parse_from_rfc3339`
/// and takes its `timestamp()`. The result is the name `rfc3339_seconds` of
/// the text, and lies in chrono's range of instants.
#[verifier::external_body]
pub(crate) fn parse_rfc3339_seconds(text: &str) -> (r: Option<i64>)
    ensures
        r == rfc3339_seconds(text@),
        r matches Some(s) ==> within_chrono_range(s),
{
    chrono::DateTime::parse_from_rfc3339(text).ok().map(|t| t.timestamp())
}

/// Reads a UTC date-and-time with `chrono::NaiveDateTime::parse_from_str` and
/// the format `%Y-%m-%d %H:%M:%S%.f`, and takes the `timestamp()` of it as a
/// UTC instant. The result is the name `naive_utc_seconds` of the text, and
/// lies in chrono's range of instants.
#[verifier::external_body]
pub(crate) fn parse_naive_utc_seconds(text: &str) -> (r: Option<i64>)
    ensures
        r == naive_utc_seconds(text@),
        r matches Some(s) ==> within_chrono_range(s),
{
    chrono::NaiveDateTime::parse_from_str(text, "%Y-%m-%d %H:%M:%S%.f").ok().map(|t| t.and_utc().timestamp())
}

/// Formats the date of an instant at a fixed offset with chrono
/// (`FixedOffset::east_opt`, `DateTime::from_timestamp`, `with_timezone`,
/// `format("%Y-%m-%d")`). The result is the name `offset_date` of the
/// arguments. `east_opt` takes any offset strictly within a day, and
/// `from_timestamp` any timestamp chrono represents (it round-trips with
/// `timestamp`); the date of such an instant always formats, chrono's
/// year bounds leaving room for an offset. So there is a date then.
#[verifier::external_body]
pub(crate) fn format_offset_date(seconds: i64, offset_seconds: i32) -> (r: Option<String>)
    ensures
        within_chrono_range(seconds) && -86_400 < offset_seconds < 86_400 ==> r is Some,
        match r {
            Some(s) => offset_date(seconds, offset_seconds) == Some(s@),
            None => offset_date(seconds, offset_seconds) is None,
        },
{
    let offset = chrono::FixedOffset::east_opt(offset_seconds)?;
    chrono::DateTime::from_timestamp(seconds, 0).map(|t| t.with_timezone(&offset).format("%Y-%m-%d").to_string())
}

} // verus!
