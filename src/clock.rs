use vstd::prelude::*;

verus! {

/// Seconds for which a verification code stays redeemable after it is issued.
pub const CODE_LIFETIME_SECS: i64 = 3600;

/// Seconds for which a session token, and the cookie that carries it, stay valid.
pub const TOKEN_LIFETIME_SECS: i64 = 3600;

/// An upper bound on any Unix timestamp that the clock can report: the
/// calendar type behind it stops at year 262142, well before this many seconds.
pub const MAX_TIMESTAMP: i64 = 10_000_000_000_000;

/// The current time in whole Unix seconds, or `None` where the system clock
/// reads before the epoch or past the calendar's end (year 262142).
///
/// Relies on std's `SystemTime::now` and `duration_since(UNIX_EPOCH)`, which
/// fail for a clock before the epoch, and on chrono's `DateTime::from_timestamp`
/// and `DateTime::timestamp`: the first returns `None` outside the calendar and
/// otherwise round-trips with the second. This is the reading that
/// `chrono::Utc::now` makes, without its panics.
#[verifier::external_body]
pub(crate) fn now_unix_secs() -> (r: Option<i64>)
    ensures
        r matches Some(t) ==> 0 <= t <= MAX_TIMESTAMP,
{
    let since_epoch = std::time::SystemTime::now().duration_since(std::time::UNIX_EPOCH).ok()?;
    let secs = i64::try_from(since_epoch.as_secs()).ok()?;
    chrono::DateTime::from_timestamp(secs, since_epoch.subsec_nanos()).map(|d| d.timestamp())
}

} // verus!
