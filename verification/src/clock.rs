use vstd::prelude::*;

use chrono::Timelike;

verus! {

/// The current wall-clock hour and minute in the machine's local time zone,
/// read from one `chrono::Local::now()`.
/// Trusted: chrono's `Timelike::hour` returns 0 to 23 and `minute` 0 to 59;
/// nothing else is said, since the values depend on the time.
#[verifier::external_body]
pub(crate) fn local_hour_minute() -> (r: (u32, u32))
    ensures
        r.0 < 24,
        r.1 < 60,
{
    let now = chrono::Local::now();
    (now.hour(), now.minute())
}

/// The current UTC time as an RFC 3339 string (`chrono::Utc::now().to_rfc3339()`).
/// Trusted for nothing but its type: the text depends on the time.
#[verifier::external_body]
pub(crate) fn utc_now_rfc3339() -> String {
    chrono::Utc::now().to_rfc3339()
}

} // verus!
