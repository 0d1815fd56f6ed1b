//! The race between a delay and a shorter timeout.
//!
//! The driver starts the delay, waits for it no longer than the timeout, and
//! hands the way the race ended to `after_race`. A delay that lost the race
//! is not cancelled: the driver stops waiting for it.

use vstd::prelude::*;

verus! {

/// How long the driver waits for the delay, in seconds.
pub const LIMIT_SECS: u64 = 2;

/// How long the delay lasts, in seconds.
pub const DELAY_SECS: u64 = 5;

/// How the race ended.
#[derive(Clone, Copy, Debug, PartialEq, Eq, Structural)]
pub enum RaceOutcome {
    /// The delay finished within the limit.
    Finished,
    /// The limit passed while the delay was still running.
    TimedOut,
}

/// What the driver does once the race is over.
#[derive(Clone, Copy, Debug, PartialEq, Eq, Structural)]
pub enum RaceAction {
    /// Nothing to report: go on.
    Proceed,
    /// Report that the delay timed out, then go on without its result.
    ReportTimeout,
}

/// The action that follows each outcome: a timeout is reported, and it is
/// the only thing that is.
pub open spec fn action_for(outcome: RaceOutcome) -> RaceAction {
    match outcome {
        RaceOutcome::Finished => RaceAction::Proceed,
        RaceOutcome::TimedOut => RaceAction::ReportTimeout,
    }
}

/// Decides what the driver does once the race is over. Either way the run
/// goes on: a timeout is recovered from on the spot.
pub fn after_race(outcome: RaceOutcome) -> (action: RaceAction)
    ensures
        action == action_for(outcome),
{
    match outcome {
        RaceOutcome::Finished => RaceAction::Proceed,
        RaceOutcome::TimedOut => RaceAction::ReportTimeout,
    }
}

} // verus!
