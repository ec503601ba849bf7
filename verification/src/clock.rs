//! The current time, from the `chrono` crate.

use vstd::prelude::*;
use crate::models::Timestamp;

verus! {

/// The RFC 3339 text that chrono's `DateTime<Utc>::to_rfc3339` writes for
/// the instant `seconds` and `nanos` after the Unix epoch.
pub uninterp spec fn rfc3339_utc(seconds: i64, nanos: u32) -> Seq<char>;

/// Whether `text` ends with the UTC offset `+00:00`.
pub open spec fn ends_with_utc_offset(text: Seq<char>) -> bool {
    text.len() >= 6 && text.subrange(text.len() - 6, text.len() as int) == "+00:00"@
}

/// The current UTC time, `chrono::Utc::now()`, both as seconds and
/// nanoseconds since the epoch (`timestamp()` and
/// `timestamp_subsec_nanos()`) and as RFC 3339 text (`to_rfc3339()`).
/// Which time comes back is not stated; chrono documents that the
/// nanoseconds stay below two billion (they exceed a billion during a leap
/// second), its formatting depends on the instant alone, and for UTC it
/// writes the offset as `+00:00`.
#[verifier::external_body]
fn utc_now() -> (now: (Timestamp, String))
    ensures
        now.0.nanos < 2_000_000_000,
        now.1@ == rfc3339_utc(now.0.seconds, now.0.nanos),
        ends_with_utc_offset(now.1@),
{
    let now = chrono::Utc::now();
    (Timestamp { seconds: now.timestamp(), nanos: now.timestamp_subsec_nanos() }, now.to_rfc3339())
}

/// The current time.
pub(crate) fn now() -> (t: Timestamp)
    ensures
        t.nanos < 2_000_000_000,
{
    utc_now().0
}

/// The current time in RFC 3339 form: the text of some instant, with the
/// UTC offset `+00:00`.
pub(crate) fn now_rfc3339() -> (text: String)
    ensures
        exists|seconds: i64, nanos: u32| nanos < 2_000_000_000 && text@ == #[trigger] rfc3339_utc(seconds, nanos),
        ends_with_utc_offset(text@),
{
    let (t, text) = utc_now();
    assert(t.nanos < 2_000_000_000 && text@ == rfc3339_utc(t.seconds, t.nanos));
    text
}

} // verus!
