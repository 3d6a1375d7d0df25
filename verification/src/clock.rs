//! Reading the system clock behind total interfaces: a clock before the Unix
//! epoch comes back as an error or a negative count, never a panic.

use vstd::prelude::*;

verus! {

/// The system clock read before the Unix epoch, so no timestamp was
/// available.
#[derive(Clone, Copy, Debug, PartialEq, Eq, Structural)]
pub struct ClockError;

#[verifier::external_type_specification]
#[verifier::external_body]
pub struct ExSystemTime(std::time::SystemTime);

#[verifier::external_type_specification]
#[verifier::external_body]
pub struct ExSystemTimeError(std::time::SystemTimeError);

/// Relies on std::time::SystemTime::now: the current system time, whatever
/// the clock reads.
#[verifier::external_body]
pub(crate) fn system_time_now() -> std::time::SystemTime {
    std::time::SystemTime::now()
}

/// Relies on std::time::SystemTime::duration_since, measured against the Unix
/// epoch: `Err` when the time lies before the epoch; on success the seconds
/// and the nanosecond remainder, the latter below one second as std documents
/// of a duration.
#[verifier::external_body]
pub(crate) fn secs_since_unix_epoch(t: std::time::SystemTime) -> (r: Result<
    (u64, u32),
    std::time::SystemTimeError,
>)
    ensures
        r matches Ok(p) ==> p.1 < 1_000_000_000,
{
    t.duration_since(std::time::UNIX_EPOCH).map(|d| (d.as_secs(), d.subsec_nanos()))
}

/// Relies on std::time::SystemTimeError::duration: the positive gap by which
/// the measured time lay before its anchor, as seconds and a nanosecond
/// remainder below one second.
#[verifier::external_body]
pub(crate) fn pre_epoch_gap(e: &std::time::SystemTimeError) -> (r: (u64, u32))
    ensures
        r.1 < 1_000_000_000,
{
    let d = e.duration();
    (d.as_secs(), d.subsec_nanos())
}

/// `sec` seconds and `nanos` nanoseconds, lying after (`after`) or before the
/// Unix epoch, as whole signed milliseconds clamped to the `i64` range.
pub open spec fn spec_signed_millis(after: bool, sec: u64, nanos: u32) -> int {
    let total = sec * 1000 + nanos / 1_000_000;
    if after {
        if total > i64::MAX {
            i64::MAX as int
        } else {
            total
        }
    } else {
        if -total < i64::MIN {
            i64::MIN as int
        } else {
            -total
        }
    }
}

pub fn signed_millis(after: bool, sec: u64, nanos: u32) -> (r: i64)
    ensures
        r == spec_signed_millis(after, sec, nanos),
{
    let total: u128 = (sec as u128) * 1000 + ((nanos / 1_000_000) as u128);
    if after {
        if total > i64::MAX as u128 {
            i64::MAX
        } else {
            total as i64
        }
    } else {
        if total >= (i64::MAX as u128) + 1 {
            i64::MIN
        } else {
            -(total as i64)
        }
    }
}

/// The wall clock now, as whole signed milliseconds since the Unix epoch —
/// negative when the clock stands before it — clamped to the `i64` range.
pub(crate) fn unix_millis_now() -> i64 {
    let t = system_time_now();
    match secs_since_unix_epoch(t) {
        Ok((sec, nanos)) => signed_millis(true, sec, nanos),
        Err(e) => {
            let (sec, nanos) = pre_epoch_gap(&e);
            signed_millis(false, sec, nanos)
        },
    }
}

} // verus!
