//! The clock, and the text in which an instant is written down.

use crate::models::Timestamp;
use vstd::prelude::*;

verus! {

/// The RFC 3339 text of the instant that lies `seconds` whole seconds after
/// 1970-01-01T00:00:00Z and `nanoseconds` nanoseconds into that second, such
/// as `2024-01-02T03:04:05.678+00:00`. It is `None` where the calendar has no
/// date for the instant.
pub uninterp spec fn rfc3339_text(seconds: i64, nanoseconds: u32) -> Option<Seq<char>>;

/// `DateTime::from_timestamp` of `chrono`, written out by
/// `DateTime::to_rfc3339`. The first hands back no date where the seconds
/// are out of range or the nanoseconds are no part of the second; otherwise
/// the text depends on the two numbers alone, and [`rfc3339_text`] is its
/// name.
#[verifier::external_body]
fn from_timestamp_to_rfc3339(seconds: i64, nanoseconds: u32) -> (text: Option<String>)
    ensures
        text.deep_view() == rfc3339_text(seconds, nanoseconds),
{
    match chrono::DateTime::from_timestamp(seconds, nanoseconds) {
        Some(instant) => Some(instant.to_rfc3339()),
        None => None,
    }
}

/// `SystemTime::now` of std, turned into a `DateTime<Utc>` by `chrono`'s
/// `From<SystemTime>` and handed back as `DateTime::timestamp` and
/// `DateTime::timestamp_subsec_nanos`. A clock that stands before 1970 is
/// read like any other. Which instant comes back differs from call to call;
/// all that is claimed is that it is one that `chrono` holds, so that
/// `DateTime::from_timestamp` makes the same instant of the two numbers
/// again, as its documentation promises.
#[verifier::external_body]
fn system_time_now() -> (now: Timestamp)
    ensures
        rfc3339_text(now.seconds, now.nanoseconds) is Some,
{
    let instant = chrono::DateTime::<chrono::Utc>::from(std::time::SystemTime::now());
    Timestamp { seconds: instant.timestamp(), nanoseconds: instant.timestamp_subsec_nanos() }
}

/// `text` is the RFC 3339 text of some instant.
pub open spec fn is_time_stamp(text: Seq<char>) -> bool {
    exists|seconds: i64, nanoseconds: u32| #[trigger]
        rfc3339_text(seconds, nanoseconds) == Some(text)
}

/// Reads the clock. The instant that comes back is one that can be written
/// down.
pub fn now() -> (now: Timestamp)
    ensures
        rfc3339_text(now.seconds, now.nanoseconds) is Some,
{
    system_time_now()
}

/// Writes an instant down as an RFC 3339 text in UTC, with as many digits
/// behind the second as the nanoseconds need: none, three, six or nine.
/// `None` comes where the calendar has no date for the instant.
pub fn rfc3339(instant: &Timestamp) -> (text: Option<String>)
    ensures
        text.deep_view() == rfc3339_text(instant.seconds, instant.nanoseconds),
        text matches Some(written) ==> is_time_stamp(written@),
{
    from_timestamp_to_rfc3339(instant.seconds, instant.nanoseconds)
}

} // verus!
