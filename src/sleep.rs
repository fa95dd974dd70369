//! The decisions of a sleep that may or may not be async. Time is counted in
//! nanoseconds on a monotonic clock; the caller reads the clock and waits.

use vstd::prelude::*;
use crate::effects::Effects;

verus! {

/// How a sleep begins.
#[derive(Debug, Clone, Copy, PartialEq, Eq, Structural)]
pub enum SleepStart {
    /// Block the thread for the whole duration.
    Block,
    /// Hand back a future that is ready once the clock reaches this instant.
    Wait(u128),
}

/// Begins a sleep of `dur` nanoseconds at time `now`: the async variant
/// waits for the deadline `now + dur`, the plain one blocks.
pub fn start_sleep(effects: Effects, now: u128, dur: u128) -> (r: SleepStart)
    requires
        now + dur <= u128::MAX,
    ensures
        effects.async_ ==> r == SleepStart::Wait((now + dur) as u128),
        !effects.async_ ==> r == SleepStart::Block,
{
    if effects.async_ {
        SleepStart::Wait(now + dur)
    } else {
        SleepStart::Block
    }
}

/// Whether a sleep with this deadline is over at time `now`.
pub fn sleep_ready(deadline: u128, now: u128) -> (r: bool)
    ensures
        r == (now >= deadline),
{
    !(deadline > now)
}

} // verus!
