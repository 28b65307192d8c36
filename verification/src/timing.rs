//! The CPU time that a search takes.

use core::time::Duration;
use cpu_time::ProcessTime;
use vstd::prelude::*;

verus! {

/// A reading of the CPU time that the process has used so far: the type
/// `cpu_time::ProcessTime`, of which nothing is known here.
#[verifier::external_type_specification]
#[verifier::external_body]
pub struct ExProcessTime(ProcessTime);

/// Calls `ProcessTime::try_now`, which reads the clock of the CPU time of
/// the process. `None` stands for its error, which it gives where the
/// system cannot read that clock. Nothing is claimed of the reading.
#[verifier::external_body]
pub(crate) fn cpu_time_now() -> Option<ProcessTime> {
    match ProcessTime::try_now() {
        Ok(now) => Some(now),
        Err(_) => None,
    }
}

/// Calls `ProcessTime::try_elapsed`, which reads the clock again and
/// subtracts the earlier reading. `None` stands for its error. The only
/// readings there are come from this clock, which does not run backwards,
/// so the subtraction has a result. Nothing is claimed of the difference.
#[verifier::external_body]
pub(crate) fn cpu_time_since(start: &ProcessTime) -> Option<Duration> {
    match start.try_elapsed() {
        Ok(elapsed) => Some(elapsed),
        Err(_) => None,
    }
}

/// Calls `Duration::as_nanos`, which gives a span of time as its whole
/// number of nanoseconds. Nothing is claimed of that number.
#[verifier::external_body]
pub(crate) fn whole_nanos(span: &Duration) -> u128 {
    span.as_nanos()
}

/// The nanoseconds of CPU time used since `start`, or zero where either
/// reading of the clock failed.
pub(crate) fn nanos_since(start: &Option<ProcessTime>) -> u128 {
    match start {
        Some(start) => match cpu_time_since(start) {
            Some(elapsed) => whole_nanos(&elapsed),
            None => 0,
        },
        None => 0,
    }
}

} // verus!
