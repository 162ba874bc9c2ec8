//! The creation timestamp: Unix epoch seconds, validated against the range
//! that the host calendar type can represent.
use vstd::prelude::*;

verus! {

#[verifier::external_type_specification]
#[verifier::external_body]
pub struct ExNaiveDateTime(chrono::NaiveDateTime);

/// The smallest Unix-seconds value representable as a calendar date
/// (midnight, January 1 of year -262143 in the proleptic Gregorian calendar).
pub const TIMESTAMP_SECS_MIN: i64 = -8334601228800;

/// The largest Unix-seconds value representable as a calendar date
/// (the last second of December 31 of year 262142).
pub const TIMESTAMP_SECS_MAX: i64 = 8210266876799;

/// Whether a Unix-seconds value lies in the representable calendar range.
pub open spec fn secs_in_calendar_range(secs: int) -> bool {
    TIMESTAMP_SECS_MIN <= secs <= TIMESTAMP_SECS_MAX
}

/// Relies on `chrono::NaiveDateTime::from_timestamp_opt` with a zero
/// nanosecond part: it returns `Some` exactly when the seconds value falls
/// within chrono's representable year range, whose bounds in Unix seconds
/// are [`TIMESTAMP_SECS_MIN`] and [`TIMESTAMP_SECS_MAX`].
#[verifier::external_body]
pub(crate) fn utc_from_secs(secs: i64) -> (r: Option<chrono::NaiveDateTime>)
    ensures
        r is Some <==> secs_in_calendar_range(secs as int),
{
    #[allow(deprecated)]
    chrono::NaiveDateTime::from_timestamp_opt(secs, 0)
}

} // verus!
