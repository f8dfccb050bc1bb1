use vstd::prelude::*;

verus! {

/// The instant that an RFC 3339 date-time text denotes, in whole seconds since
/// the Unix epoch, or `None` where the text is no such date-time.
pub uninterp spec fn rfc3339_instant(text: Seq<char>) -> Option<int>;

/// Relies on chrono's `DateTime::parse_from_rfc3339` and `DateTime::timestamp`:
/// the parse depends on the text alone; the instant is read in whole seconds.
#[verifier::external_body]
pub(crate) fn parse_rfc3339(text: &str) -> (r: Result<i64, String>)
    ensures
        match r {
            Ok(t) => rfc3339_instant(text@) == Some(t as int),
            Err(_) => rfc3339_instant(text@) is None,
        },
{
    chrono::DateTime::parse_from_rfc3339(text).map(|t| t.timestamp()).map_err(|e| format!("{:?}", e))
}

/// Relies on chrono's `Utc::now`: the current instant in whole seconds since
/// the Unix epoch. Nothing is known of its value.
#[verifier::external_body]
pub(crate) fn now_seconds() -> (r: i64) {
    chrono::Utc::now().timestamp()
}

/// Relies on chrono's `DateTime::from_timestamp` and its rendering in the
/// machine's local time zone. `None` where the instant is out of chrono's range.
#[verifier::external_body]
pub(crate) fn local_time_text(seconds: i64) -> (r: Option<String>) {
    chrono::DateTime::from_timestamp(seconds, 0).map(|t| t.with_timezone(&chrono::Local).to_string())
}

} // verus!
