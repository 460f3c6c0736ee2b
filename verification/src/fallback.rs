//! The inert backend, for a host whose session cannot be asked.
//!
//! Every operation hands out its neutral value and never fails. A caller on
//! such a host sees a session that is never idle, shows no window and cannot
//! be locked; these are defaults, not measurements.

use crate::error::ProbeError;
use vstd::prelude::*;

verus! {

/// Idle time on a host without a backend: always zero milliseconds.
pub fn idle_time_ms() -> (outcome: Result<u64, ProbeError>)
    ensures
        outcome == Ok::<u64, ProbeError>(0),
{
    Ok(0)
}

/// Foreground title on a host without a backend: always the empty text.
pub fn active_window_title() -> (outcome: Result<String, ProbeError>)
    ensures
        outcome is Ok,
        outcome->Ok_0@ == Seq::<char>::empty(),
{
    Ok(String::new())
}

/// Lock request on a host without a backend: always declined.
pub fn lock_workstation() -> (outcome: Result<bool, ProbeError>)
    ensures
        outcome == Ok::<bool, ProbeError>(false),
{
    Ok(false)
}

} // verus!
