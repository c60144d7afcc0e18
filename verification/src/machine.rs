//! What only the running machine can tell: the time, fresh identifiers and
//! the host's name. Nothing here is the same from one call to the next.

use vstd::prelude::*;

verus! {

/// Length of a UUID in its hyphenated notation.
pub const UUID_TEXT_LENGTH: usize = 36;

/// Calls `uuid::Uuid::new_v4` and renders the identifier with its `Display`
/// impl.
/// Trusted: the text is the hyphenated notation, 36 characters long. Which
/// identifier it is depends on chance. The call fails only where the
/// system has no source of random numbers.
#[verifier::external_body]
pub(crate) fn new_uuid() -> (id: String)
    ensures
        id@.len() == UUID_TEXT_LENGTH,
{
    uuid::Uuid::new_v4().to_string()
}

/// What holds of every time written in RFC 3339 notation for the UTC zone:
/// date, `T` and time of day take at least nineteen characters, and the
/// text ends with the zone offset `+00:00`.
pub open spec fn is_utc_time(text: Seq<char>) -> bool {
    text.len() >= 25 && "+00:00"@.is_suffix_of(text)
}

/// Calls `chrono::Utc::now` and `DateTime::to_rfc3339`: the current time as
/// an RFC 3339 text.
/// Trusted: the text is a date, `T`, a time of day and the offset of the
/// UTC zone written as `+00:00`. Which time it is depends on the clock. The
/// call fails only where the clock stands before 1970.
#[verifier::external_body]
pub(crate) fn now_rfc3339() -> (text: String)
    ensures
        is_utc_time(text@),
{
    chrono::Utc::now().to_rfc3339()
}

/// Calls `chrono::Utc::now` and `DateTime::timestamp`: whole seconds since
/// the Unix epoch. Nothing is claimed of the result. The call fails only
/// where the clock stands before 1970.
#[verifier::external_body]
pub(crate) fn unix_seconds() -> (seconds: i64) {
    chrono::Utc::now().timestamp()
}

/// Calls `chrono::Utc::now` and `DateTime::timestamp_millis`: milliseconds
/// since the Unix epoch. Nothing is claimed of the result. The call fails
/// only where the clock stands before 1970.
#[verifier::external_body]
pub(crate) fn unix_millis() -> (millis: i64) {
    chrono::Utc::now().timestamp_millis()
}

/// Calls `hostname::get`: the system's host name, or `None` when the system
/// does not give one. Nothing is claimed of the result.
#[verifier::external_body]
pub(crate) fn system_hostname() -> (name: Option<String>) {
    hostname::get().ok().map(|name| name.to_string_lossy().to_string())
}

} // verus!
