use std::time::SystemTime;
use vstd::prelude::*;

verus! {

#[verifier::external_type_specification]
#[verifier::external_body]
pub struct ExSystemTime(SystemTime);

/// Relies on std::time::SystemTime::now: reads the system clock.  The value
/// depends on the environment, so nothing is promised of it.
#[verifier::external_body]
pub(crate) fn system_time_now() -> SystemTime {
    SystemTime::now()
}

/// Relies on std::time::SystemTime::duration_since: the span from the Unix
/// epoch to `t`, converted to whole seconds with Duration::as_secs; a clock
/// standing before the epoch reads as zero.
#[verifier::external_body]
pub(crate) fn secs_since_unix_epoch(t: &SystemTime) -> u64 {
    match t.duration_since(SystemTime::UNIX_EPOCH) {
        Ok(d) => d.as_secs(),
        Err(_) => 0,
    }
}

} // verus!
