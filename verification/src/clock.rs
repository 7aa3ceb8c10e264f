//! Reading the clocks. Every reading depends on when it is taken, so the
//! wrappers here promise nothing about the values they return.

use std::time::{Duration, Instant, SystemTime, SystemTimeError, UNIX_EPOCH};
use vstd::prelude::*;

verus! {

/// `std::time::Instant`, carried through opaquely.
#[verifier::external_type_specification]
#[verifier::external_body]
pub struct ExInstant(Instant);

/// `std::time::SystemTime`, carried through opaquely.
#[verifier::external_type_specification]
#[verifier::external_body]
pub struct ExSystemTime(SystemTime);

/// `std::time::SystemTimeError`, carried through opaquely.
#[verifier::external_type_specification]
#[verifier::external_body]
pub struct ExSystemTimeError(SystemTimeError);

/// Calls `Instant::now`. The reading depends on the time of the call;
/// nothing is stated about it.
#[verifier::external_body]
pub(crate) fn instant_now() -> Instant {
    Instant::now()
}

/// Calls `Instant::elapsed`: the time since `t`. The value depends on the
/// time of the call; nothing is stated about it.
#[verifier::external_body]
pub(crate) fn instant_elapsed(t: &Instant) -> Duration {
    t.elapsed()
}

/// Calls `Duration::as_millis`: the whole milliseconds of `d`. Nothing is
/// stated, as `Duration` is opaque here.
#[verifier::external_body]
pub(crate) fn duration_millis(d: &Duration) -> u128 {
    d.as_millis()
}

/// Calls `SystemTime::now`. The reading depends on the time of the call;
/// nothing is stated about it.
#[verifier::external_body]
fn system_now() -> SystemTime {
    SystemTime::now()
}

/// Calls `SystemTime::duration_since` with `UNIX_EPOCH` as the earlier time:
/// the time since the epoch, or an error when `t` lies before it. Nothing is
/// stated, as both times are opaque here.
#[verifier::external_body]
fn since_unix_epoch(t: &SystemTime) -> Result<Duration, SystemTimeError> {
    t.duration_since(UNIX_EPOCH)
}

/// Current wall-clock time in milliseconds since the Unix epoch (a clock
/// before the epoch reads as 0; the millisecond count is truncated to 64
/// bits). The value depends on the time of the call.
pub fn now_ms() -> u64 {
    let t = system_now();
    match since_unix_epoch(&t) {
        Ok(d) => {
            let ms = duration_millis(&d);
            #[verifier::truncate]
            (ms as u64)
        },
        Err(_) => 0,
    }
}

} // verus!
