use vstd::prelude::*;

verus! {

/// Calls `chrono::Utc::now` and reads it as Unix seconds (`DateTime::timestamp`). The clock
/// decides the value. chrono builds it from the seconds since the Unix epoch (it panics on a
/// clock before 1970) and unwraps `DateTime::from_timestamp`, which refuses dates past the
/// year 262142; so the value is at least 0 and below 10^13.
#[verifier::external_body]
pub fn now_timestamp() -> (t: i64)
    ensures
        0 <= t < 10_000_000_000_000,
{
    chrono::Utc::now().timestamp()
}

/// Calls `chrono::Utc::now` and writes it as RFC 3339 text (`DateTime::to_rfc3339`). The clock
/// decides the value; nothing is promised of the text.
#[verifier::external_body]
pub fn now_rfc3339() -> (t: String) {
    chrono::Utc::now().to_rfc3339()
}

} // verus!
