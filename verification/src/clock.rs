//! Clocks: the current time, elapsed time and seconds since the Unix epoch.
//! None of their readings is described; callers state what holds for every
//! reading.
use vstd::prelude::*;

verus! {

#[verifier::external_type_specification]
#[verifier::external_body]
pub struct ExInstant(std::time::Instant);

#[verifier::external_type_specification]
#[verifier::external_body]
pub struct ExSystemTime(std::time::SystemTime);

/// `Instant` is `Copy`: its clone is the same instant.
pub assume_specification[ <std::time::Instant as Clone>::clone ](i: &std::time::Instant) -> (r: std::time::Instant)
    ensures
        r == *i,
;

/// `SystemTime` is `Copy`: its clone is the same time.
pub assume_specification[ <std::time::SystemTime as Clone>::clone ](t: &std::time::SystemTime) -> (r: std::time::SystemTime)
    ensures
        r == *t,
;

/// `Duration` is `Copy`: its clone is the same duration.
pub assume_specification[ <std::time::Duration as Clone>::clone ](d: &std::time::Duration) -> (r: std::time::Duration)
    ensures
        r == *d,
;

/// Calls `Instant::now`. The clock reading is not described.
#[verifier::external_body]
pub(crate) fn instant_now() -> std::time::Instant {
    std::time::Instant::now()
}

/// Calls `SystemTime::now`. The clock reading is not described.
#[verifier::external_body]
pub(crate) fn system_now() -> std::time::SystemTime {
    std::time::SystemTime::now()
}

/// Calls `Instant::elapsed` and returns whole milliseconds. The clock
/// reading is not described.
#[verifier::external_body]
pub(crate) fn elapsed_millis(start: &std::time::Instant) -> u128 {
    start.elapsed().as_millis()
}

/// Calls `Instant::elapsed` and formats the duration with `{:?}`. The clock
/// reading is not described.
#[verifier::external_body]
pub(crate) fn elapsed_debug(start: &std::time::Instant) -> String {
    format!("{:?}", start.elapsed())
}

/// Calls `Instant::elapsed`. The clock reading is not described.
#[verifier::external_body]
pub(crate) fn elapsed(start: &std::time::Instant) -> std::time::Duration {
    start.elapsed()
}

/// Calls `Duration::as_secs`; the number of seconds is not described.
#[verifier::external_body]
pub(crate) fn duration_secs(d: &std::time::Duration) -> u64 {
    d.as_secs()
}

/// Calls `SystemTime::duration_since(UNIX_EPOCH)`: the whole seconds since
/// 1970, or, when the clock reads earlier, the whole seconds it is before
/// 1970 (from the error's `duration`). The reading is not described.
#[verifier::external_body]
pub(crate) fn epoch_offset(t: std::time::SystemTime) -> Result<u64, u64> {
    match t.duration_since(std::time::UNIX_EPOCH) {
        Ok(d) => Ok(d.as_secs()),
        Err(e) => Err(e.duration().as_secs()),
    }
}

} // verus!
