//! The progress reporter.
//!
//! While a job is followed, a second thread of control keeps a liveness
//! indicator moving. It shares nothing with the poller but a channel over
//! which at most one value ever travels: whether the job ended well. The
//! reporter looks into the channel, and `reporter_step` says what follows.

use vstd::prelude::*;

verus! {

/// Milliseconds between two looks into the channel.
pub const TICK_MILLIS: u64 = 100;

/// What the reporter does after a look into the channel.
#[derive(Clone, Copy, Debug, PartialEq, Eq, Structural)]
pub enum ReporterAction {
    /// Nothing has arrived: advance the indicator, rest, look again.
    Tick { rest_millis: u64 },
    /// The job ended well: print the closing line with the time taken, stop.
    FinishSuccess,
    /// The job did not end well: print the failure lines with the time
    /// taken, stop.
    FinishFailure,
}

impl ReporterAction {
    /// The action ends the reporter.
    pub open spec fn stops(self) -> bool {
        !(self is Tick)
    }
}

/// The action that follows a look into the channel.
pub open spec fn reporter_action_of(received: Option<bool>) -> ReporterAction {
    match received {
        None => ReporterAction::Tick { rest_millis: TICK_MILLIS },
        Some(true) => ReporterAction::FinishSuccess,
        Some(false) => ReporterAction::FinishFailure,
    }
}

/// Decides what the reporter does after a look into the channel. It goes on
/// for as long as nothing has arrived and stops with the first value.
pub fn reporter_step(received: Option<bool>) -> (action: ReporterAction)
    ensures
        action == reporter_action_of(received),
        action.stops() <==> received is Some,
{
    match received {
        None => ReporterAction::Tick { rest_millis: TICK_MILLIS },
        Some(true) => ReporterAction::FinishSuccess,
        Some(false) => ReporterAction::FinishFailure,
    }
}

/// The looks of a reporter into the channel up to the first value: nothing,
/// `waits` times, and then the value.
pub open spec fn looks(waits: nat, value: bool) -> Seq<Option<bool>> {
    Seq::new(waits, |i: int| None::<bool>).push(Some(value))
}

/// The reporter ticks for as long as nothing has arrived, and its first
/// stopping action is the one that prints the outcome that was sent.
pub proof fn lemma_reporter_stops_on_first_value(waits: nat, value: bool)
    ensures
        forall|i: int|
            0 <= i < waits ==> !(#[trigger] reporter_action_of(looks(waits, value)[i])).stops(),
        reporter_action_of(looks(waits, value)[waits as int]) == if value {
            ReporterAction::FinishSuccess
        } else {
            ReporterAction::FinishFailure
        },
{
}

} // verus!
