use vstd::prelude::*;

verus! {

/// Earliest Unix timestamp that has a calendar date-time: -262143-01-01 00:00:00.
pub const MIN_TIMESTAMP: i64 = -8334601228800;

/// Latest Unix timestamp that has a calendar date-time: +262142-12-31 23:59:59.
pub const MAX_TIMESTAMP: i64 = 8210266876799;

/// A calendar date-time in UTC, held as whole seconds since the Unix epoch
/// and the nanoseconds past that second (above one billion only in a leap second).
#[derive(Clone, Copy, Debug, PartialEq, Eq, Structural)]
pub struct DateTime {
    pub secs: i64,
    pub nanos: u32,
}

/// Whether `secs` seconds after the Unix epoch still falls in the calendar range.
pub open spec fn timestamp_in_range(secs: int) -> bool {
    MIN_TIMESTAMP <= secs <= MAX_TIMESTAMP
}

impl DateTime {
    pub open spec fn valid(self) -> bool {
        timestamp_in_range(self.secs as int) && self.nanos < 2_000_000_000
    }
}

/// Relies on chrono's `NaiveDateTime::from_timestamp_opt(secs, 0)`: a date-time
/// exactly when `secs` lies in the calendar range, and then that very instant.
#[verifier::external_body]
#[allow(deprecated)]
pub(crate) fn naive_from_timestamp(secs: i64) -> (r: Option<DateTime>)
    ensures
        r is Some <==> timestamp_in_range(secs as int),
        r matches Some(d) ==> d.secs == secs && d.nanos == 0,
{
    match chrono::NaiveDateTime::from_timestamp_opt(secs, 0) {
        Some(d) => Some(DateTime { secs: d.and_utc().timestamp(), nanos: d.and_utc().timestamp_subsec_nanos() }),
        None => None,
    }
}

/// Relies on chrono's `From<SystemTime> for DateTime<Utc>`, applied to the system
/// clock: the current time in UTC, also before 1970, with nanoseconds below a second.
#[verifier::external_body]
pub(crate) fn utc_now() -> (r: DateTime)
    ensures
        r.valid(),
        r.nanos < 1_000_000_000,
{
    let t = chrono::DateTime::<chrono::Utc>::from(std::time::SystemTime::now());
    DateTime { secs: t.timestamp(), nanos: t.timestamp_subsec_nanos() }
}

} // verus!
