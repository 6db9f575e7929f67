//! The remote pipeline: hand a request to the verification service, then
//! follow the job until it ends.
//!
//! The pipeline is a state machine. The caller does the network work, the
//! resting and the progress display, and tells the machine what happened;
//! the machine answers with the next thing to do. Its control flow is a
//! small automaton over `Phase`, `Signal` and `Move`, about which the laws
//! at the end of this file are proved; `remote_step` follows that automaton
//! and fills in the data.

use vstd::prelude::*;
use crate::conflict::{decode_conflict, decoded_conflict, ConflictOutcome};
use crate::job::{
    poll_result,
    poll_result_of,
    rest_seconds,
    JobHandle,
    JobReply,
    JobStatus,
    PollResult,
    LOOP_REST_SECS,
    QUERY_REST_SECS,
};

verus! {

/// The HTTP status with which the service answers a request that it has
/// seen before.
pub const HTTP_CONFLICT: u16 = 409;

/// How the service took a submission, by the HTTP status of its answer.
#[derive(Clone, Copy, Debug, PartialEq, Eq, Structural)]
pub enum SubmitClass {
    /// A status from 200 to 299: the job was accepted.
    Accepted,
    /// Status 409: the request was handed in before.
    Conflict,
    /// Any other status.
    Rejected,
}

/// The HTTP status is one of the success codes, 200 to 299.
pub open spec fn is_success_code(code: u16) -> bool {
    200 <= code < 300
}

/// The class of an answer to a submission.
pub open spec fn submit_class_of(code: u16) -> SubmitClass {
    if is_success_code(code) {
        SubmitClass::Accepted
    } else if code == HTTP_CONFLICT {
        SubmitClass::Conflict
    } else {
        SubmitClass::Rejected
    }
}

/// Whether an HTTP status is one of the success codes.
pub fn is_success_status(code: u16) -> (success: bool)
    ensures
        success == is_success_code(code),
{
    200 <= code && code < 300
}

/// Classifies the answer to a submission by its HTTP status.
pub fn classify_submit_status(code: u16) -> (class: SubmitClass)
    ensures
        class == submit_class_of(code),
{
    if is_success_status(code) {
        SubmitClass::Accepted
    } else if code == HTTP_CONFLICT {
        SubmitClass::Conflict
    } else {
        SubmitClass::Rejected
    }
}

/// Where a remote run stands.
#[derive(Debug, PartialEq, Eq)]
pub enum RemoteState {
    /// The request is on its way; the answer to it is awaited.
    AwaitingSubmit,
    /// The job was accepted and has not been seen in a terminal status.
    Polling { handle: JobHandle },
    /// The run is over.
    Finished,
}

/// What the caller has to tell the machine.
#[derive(Debug, PartialEq, Eq)]
pub enum RemoteEvent {
    /// The service accepted the submission and named the job.
    Accepted { request_id: String },
    /// The service answered the submission with a conflict.
    Conflict { body: String },
    /// The service answered the submission with any other failure status.
    Rejected { body: String },
    /// The service answered a status query.
    Reported { reply: JobReply },
    /// The service answered a status query with a failure status.
    QueryRejected { body: String },
    /// A request did not get through.
    TransportFailed { detail: String },
}

/// The submission failed.
#[derive(Debug, PartialEq, Eq)]
pub enum SubmitError {
    /// The service turned the request down; `body` is its answer as it came.
    Rejected { body: String },
    /// The service answered with a conflict whose payload is not JSON.
    UnreadableConflict { body: String },
    /// The request did not get through.
    Transport { detail: String },
}

/// A status query failed. Nothing is tried again after that.
#[derive(Debug, PartialEq, Eq)]
pub enum PollError {
    /// The service answered with a failure status.
    Rejected { body: String },
    /// The query did not get through.
    Transport { detail: String },
}

/// Why a remote run was given up.
#[derive(Debug, PartialEq, Eq)]
pub enum RemoteError {
    Submit(SubmitError),
    Poll(PollError),
    /// The caller reported something that cannot happen at this point.
    OutOfTurn,
}

/// What a remote run has to say at its end.
#[derive(Debug, PartialEq, Eq)]
pub enum Report {
    /// The job was followed to a terminal status.
    Job(PollResult),
    /// The request had been handed in before.
    Duplicate(ConflictOutcome),
}

impl Report {
    /// The report says that the program is verified.
    pub open spec fn verified(&self) -> bool {
        match *self {
            Report::Job(result) => result.verified(),
            Report::Duplicate(outcome) => outcome.verified(),
        }
    }

    /// Whether the report says that the program is verified.
    pub fn is_success(&self) -> (success: bool)
        ensures
            success == self.verified(),
    {
        match self {
            Report::Job(result) => match result.status {
                JobStatus::Completed => true,
                JobStatus::InProgress => false,
                JobStatus::Failed => false,
                JobStatus::Unknown => false,
            },
            Report::Duplicate(outcome) => outcome.is_verified(),
        }
    }
}

/// What the caller has to do next.
#[derive(Debug, PartialEq, Eq)]
pub enum RemoteAction {
    /// Start the progress display and query the status of the job.
    Poll,
    /// Rest for so many seconds, then query the status again.
    Rest { seconds: u64 },
    /// Stop. Where `signal` is there, hand it to the progress display and
    /// wait for the display to finish; then show the report.
    Conclude { signal: Option<bool>, report: Report },
    /// Stop with an error. The progress display gets no signal.
    Abort { error: RemoteError },
}

/// The three phases of a remote run.
#[derive(Clone, Copy, Debug, PartialEq, Eq, Structural)]
pub enum Phase {
    AwaitingSubmit,
    Polling,
    Finished,
}

/// An event, reduced to what the control flow depends on.
#[derive(Clone, Copy, Debug, PartialEq, Eq, Structural)]
pub enum Signal {
    Accepted,
    /// A conflict with a payload that is JSON.
    Conflict,
    /// A conflict with a payload that is not JSON.
    UnreadableConflict,
    Rejected,
    Reported(JobStatus),
    QueryRejected,
    TransportFailed,
}

/// An action, reduced to its kind.
#[derive(Clone, Copy, Debug, PartialEq, Eq, Structural)]
pub enum Move {
    Poll,
    Rest,
    Conclude,
    Abort,
}

/// The phase of a state.
pub open spec fn phase_of(state: RemoteState) -> Phase {
    match state {
        RemoteState::AwaitingSubmit => Phase::AwaitingSubmit,
        RemoteState::Polling { .. } => Phase::Polling,
        RemoteState::Finished => Phase::Finished,
    }
}

/// The signal that an event gives.
pub open spec fn signal_of(event: RemoteEvent) -> Signal {
    match event {
        RemoteEvent::Accepted { .. } => Signal::Accepted,
        RemoteEvent::Conflict { body } => if decoded_conflict(body@) is Some {
            Signal::Conflict
        } else {
            Signal::UnreadableConflict
        },
        RemoteEvent::Rejected { .. } => Signal::Rejected,
        RemoteEvent::Reported { reply } => Signal::Reported(reply.status),
        RemoteEvent::QueryRejected { .. } => Signal::QueryRejected,
        RemoteEvent::TransportFailed { .. } => Signal::TransportFailed,
    }
}

/// The kind of an action.
pub open spec fn move_of(action: RemoteAction) -> Move {
    match action {
        RemoteAction::Poll => Move::Poll,
        RemoteAction::Rest { .. } => Move::Rest,
        RemoteAction::Conclude { .. } => Move::Conclude,
        RemoteAction::Abort { .. } => Move::Abort,
    }
}

/// The phase that follows. An accepted submission starts the polling, a job
/// that is still running continues it, and everything else ends the run.
pub open spec fn next_phase(phase: Phase, signal: Signal) -> Phase {
    match (phase, signal) {
        (Phase::AwaitingSubmit, Signal::Accepted) => Phase::Polling,
        (Phase::Polling, Signal::Reported(JobStatus::InProgress)) => Phase::Polling,
        _ => Phase::Finished,
    }
}

/// The kind of action that a signal calls for. The first status query
/// follows the acceptance at once; a running job calls for a rest; a
/// readable conflict and a terminal status conclude the run; everything
/// else, and everything out of turn, aborts it.
pub open spec fn next_move(phase: Phase, signal: Signal) -> Move {
    match (phase, signal) {
        (Phase::AwaitingSubmit, Signal::Accepted) => Move::Poll,
        (Phase::AwaitingSubmit, Signal::Conflict) => Move::Conclude,
        (Phase::Polling, Signal::Reported(JobStatus::InProgress)) => Move::Rest,
        (Phase::Polling, Signal::Reported(_)) => Move::Conclude,
        _ => Move::Abort,
    }
}

/// `next` and `action` are what the machine answers to `event` in `state`,
/// in full.
pub open spec fn step_yields(
    state: RemoteState,
    event: RemoteEvent,
    next: RemoteState,
    action: RemoteAction,
) -> bool {
    match (state, event) {
        (RemoteState::AwaitingSubmit, RemoteEvent::Accepted { request_id }) => {
            &&& next == RemoteState::Polling { handle: JobHandle { request_id } }
            &&& action == RemoteAction::Poll
        },
        (RemoteState::AwaitingSubmit, RemoteEvent::Conflict { body }) => {
            &&& next == RemoteState::Finished
            &&& match decoded_conflict(body@) {
                Some(outcome) => {
                    &&& action matches RemoteAction::Conclude {
                        signal: None,
                        report: Report::Duplicate(told),
                    }
                    &&& told@ == outcome
                },
                None => action == RemoteAction::Abort {
                    error: RemoteError::Submit(SubmitError::UnreadableConflict { body }),
                },
            }
        },
        (RemoteState::AwaitingSubmit, RemoteEvent::Rejected { body }) => {
            &&& next == RemoteState::Finished
            &&& action == RemoteAction::Abort {
                error: RemoteError::Submit(SubmitError::Rejected { body }),
            }
        },
        (RemoteState::AwaitingSubmit, RemoteEvent::TransportFailed { detail }) => {
            &&& next == RemoteState::Finished
            &&& action == RemoteAction::Abort {
                error: RemoteError::Submit(SubmitError::Transport { detail }),
            }
        },
        (RemoteState::Polling { handle }, RemoteEvent::Reported { reply }) => {
            if reply.status is InProgress {
                &&& next == RemoteState::Polling { handle }
                &&& action == RemoteAction::Rest {
                    seconds: (QUERY_REST_SECS + LOOP_REST_SECS) as u64,
                }
            } else {
                &&& next == RemoteState::Finished
                &&& action == RemoteAction::Conclude {
                    signal: Some(reply.status is Completed),
                    report: Report::Job(poll_result_of(reply)),
                }
            }
        },
        (RemoteState::Polling { .. }, RemoteEvent::QueryRejected { body }) => {
            &&& next == RemoteState::Finished
            &&& action == RemoteAction::Abort {
                error: RemoteError::Poll(PollError::Rejected { body }),
            }
        },
        (RemoteState::Polling { .. }, RemoteEvent::TransportFailed { detail }) => {
            &&& next == RemoteState::Finished
            &&& action == RemoteAction::Abort {
                error: RemoteError::Poll(PollError::Transport { detail }),
            }
        },
        _ => {
            &&& next == RemoteState::Finished
            &&& action == RemoteAction::Abort { error: RemoteError::OutOfTurn }
        },
    }
}

/// One step of a remote run: takes what happened and says what to do next.
///
/// A conflict never leads to a status query: its payload is read on the
/// spot and the run is over. A job is asked about again only while it is
/// reported as running. The signal for the progress display is sent exactly
/// when a job reaches a terminal status, and says whether it completed.
pub fn remote_step(state: RemoteState, event: RemoteEvent) -> (out: (RemoteState, RemoteAction))
    ensures
        step_yields(state, event, out.0, out.1),
        phase_of(out.0) == next_phase(phase_of(state), signal_of(event)),
        move_of(out.1) == next_move(phase_of(state), signal_of(event)),
        out.1 matches RemoteAction::Conclude { signal, report } ==> (signal is Some <==> phase_of(
            state,
        ) is Polling) && (signal matches Some(success) ==> success == report.verified()),
{
    match state {
        RemoteState::AwaitingSubmit => match event {
            RemoteEvent::Accepted { request_id } => (
                RemoteState::Polling { handle: JobHandle { request_id } },
                RemoteAction::Poll,
            ),
            RemoteEvent::Conflict { body } => match decode_conflict(body.as_str()) {
                Some(outcome) => (
                    RemoteState::Finished,
                    RemoteAction::Conclude { signal: None, report: Report::Duplicate(outcome) },
                ),
                None => (
                    RemoteState::Finished,
                    RemoteAction::Abort {
                        error: RemoteError::Submit(SubmitError::UnreadableConflict { body }),
                    },
                ),
            },
            RemoteEvent::Rejected { body } => (
                RemoteState::Finished,
                RemoteAction::Abort { error: RemoteError::Submit(SubmitError::Rejected { body }) },
            ),
            RemoteEvent::TransportFailed { detail } => (
                RemoteState::Finished,
                RemoteAction::Abort {
                    error: RemoteError::Submit(SubmitError::Transport { detail }),
                },
            ),
            RemoteEvent::Reported { .. } => (
                RemoteState::Finished,
                RemoteAction::Abort { error: RemoteError::OutOfTurn },
            ),
            RemoteEvent::QueryRejected { .. } => (
                RemoteState::Finished,
                RemoteAction::Abort { error: RemoteError::OutOfTurn },
            ),
        },
        RemoteState::Polling { handle } => match event {
            RemoteEvent::Reported { reply } => {
                let seconds = rest_seconds(reply.status);
                if seconds > 0 {
                    (RemoteState::Polling { handle }, RemoteAction::Rest { seconds })
                } else {
                    let result = poll_result(reply);
                    let success = match result.status {
                        JobStatus::Completed => true,
                        JobStatus::InProgress => false,
                        JobStatus::Failed => false,
                        JobStatus::Unknown => false,
                    };
                    (
                        RemoteState::Finished,
                        RemoteAction::Conclude {
                            signal: Some(success),
                            report: Report::Job(result),
                        },
                    )
                }
            },
            RemoteEvent::QueryRejected { body } => (
                RemoteState::Finished,
                RemoteAction::Abort { error: RemoteError::Poll(PollError::Rejected { body }) },
            ),
            RemoteEvent::TransportFailed { detail } => (
                RemoteState::Finished,
                RemoteAction::Abort { error: RemoteError::Poll(PollError::Transport { detail }) },
            ),
            RemoteEvent::Accepted { .. } => (
                RemoteState::Finished,
                RemoteAction::Abort { error: RemoteError::OutOfTurn },
            ),
            RemoteEvent::Conflict { .. } => (
                RemoteState::Finished,
                RemoteAction::Abort { error: RemoteError::OutOfTurn },
            ),
            RemoteEvent::Rejected { .. } => (
                RemoteState::Finished,
                RemoteAction::Abort { error: RemoteError::OutOfTurn },
            ),
        },
        RemoteState::Finished => (
            RemoteState::Finished,
            RemoteAction::Abort { error: RemoteError::OutOfTurn },
        ),
    }
}

/// The phase in which a run ends up that starts in `phase` and sees the
/// signals one after the other.
pub open spec fn phase_after(phase: Phase, signals: Seq<Signal>) -> Phase
    decreases signals.len(),
{
    if signals.len() == 0 {
        phase
    } else {
        next_phase(phase_after(phase, signals.drop_last()), signals.last())
    }
}

/// The kinds of the actions that such a run takes, one for each signal.
pub open spec fn moves_of(phase: Phase, signals: Seq<Signal>) -> Seq<Move>
    decreases signals.len(),
{
    if signals.len() == 0 {
        Seq::<Move>::empty()
    } else {
        moves_of(phase, signals.drop_last()).push(
            next_move(phase_after(phase, signals.drop_last()), signals.last()),
        )
    }
}

/// So many reports of a running job, one after the other.
pub open spec fn still_running(polls: nat) -> Seq<Signal> {
    Seq::new(polls, |i: int| Signal::Reported(JobStatus::InProgress))
}

/// A run takes one action for each signal.
pub proof fn lemma_one_move_per_signal(phase: Phase, signals: Seq<Signal>)
    ensures
        moves_of(phase, signals).len() == signals.len(),
    decreases signals.len(),
{
    if signals.len() > 0 {
        lemma_one_move_per_signal(phase, signals.drop_last());
    }
}

/// While the job is reported as running, the poller rests and stays in the
/// polling phase.
pub proof fn lemma_running_job_keeps_polling(polls: nat)
    ensures
        phase_after(Phase::Polling, still_running(polls)) == Phase::Polling,
        moves_of(Phase::Polling, still_running(polls)) == Seq::new(polls, |i: int| Move::Rest),
    decreases polls,
{
    let signals = still_running(polls);
    if polls == 0 {
        assert(moves_of(Phase::Polling, signals) =~= Seq::new(polls, |i: int| Move::Rest));
    } else {
        let before = (polls - 1) as nat;
        lemma_running_job_keeps_polling(before);
        assert(signals.drop_last() =~= still_running(before));
        assert(moves_of(Phase::Polling, signals) =~= Seq::new(polls, |i: int| Move::Rest));
    }
}

/// Polling ends: when a job is reported as running any number of times and
/// then anything else happens, be it a terminal status or a failed query,
/// the poller has rested once for each running report, stops with its last
/// action and is finished. It concludes where the last report is a terminal
/// status, and aborts otherwise.
pub proof fn lemma_polling_ends(polls: nat, last: Signal)
    requires
        last != Signal::Reported(JobStatus::InProgress),
    ensures
        phase_after(Phase::Polling, still_running(polls).push(last)) == Phase::Finished,
        moves_of(Phase::Polling, still_running(polls).push(last)) == Seq::new(
            polls,
            |i: int| Move::Rest,
        ).push(next_move(Phase::Polling, last)),
        next_move(Phase::Polling, last) == if last is Reported {
            Move::Conclude
        } else {
            Move::Abort
        },
{
    let signals = still_running(polls).push(last);
    lemma_running_job_keeps_polling(polls);
    assert(signals.drop_last() =~= still_running(polls));
    assert(signals.last() == last);
}

/// A finished run stays finished and asks for no further work: whatever is
/// reported to it, it aborts.
pub proof fn lemma_finished_is_final(signals: Seq<Signal>)
    ensures
        phase_after(Phase::Finished, signals) == Phase::Finished,
        moves_of(Phase::Finished, signals).len() == signals.len(),
        forall|i: int|
            0 <= i < signals.len() ==> #[trigger] moves_of(Phase::Finished, signals)[i]
                == Move::Abort,
    decreases signals.len(),
{
    if signals.len() > 0 {
        lemma_finished_is_final(signals.drop_last());
    }
}

/// Once a phase is finished, every later phase is.
pub proof fn lemma_finished_absorbs(phase: Phase, signals: Seq<Signal>, k: int)
    requires
        0 <= k <= signals.len(),
        phase_after(phase, signals.take(k)) == Phase::Finished,
    ensures
        phase_after(phase, signals) == Phase::Finished,
        forall|i: int|
            k <= i < signals.len() ==> #[trigger] moves_of(phase, signals)[i] == Move::Abort,
    decreases signals.len() - k,
{
    lemma_one_move_per_signal(phase, signals);
    if k == signals.len() {
        assert(signals.take(k) =~= signals);
    } else {
        let shorter = signals.drop_last();
        assert(shorter.take(k) =~= signals.take(k));
        lemma_finished_absorbs(phase, shorter, k);
        lemma_one_move_per_signal(phase, shorter);
        assert forall|i: int| k <= i < signals.len() implies #[trigger] moves_of(phase, signals)[i]
            == Move::Abort by {
            if i < shorter.len() {
                assert(moves_of(phase, signals)[i] == moves_of(phase, shorter)[i]);
            }
        }
    }
}

/// The first action of a run answers its first signal.
pub proof fn lemma_first_step(phase: Phase, signals: Seq<Signal>)
    requires
        signals.len() > 0,
    ensures
        moves_of(phase, signals)[0] == next_move(phase, signals[0]),
        phase_after(phase, signals.take(1)) == next_phase(phase, signals[0]),
    decreases signals.len(),
{
    lemma_one_move_per_signal(phase, signals);
    let head = signals.take(1);
    assert(head.drop_last() =~= Seq::<Signal>::empty());
    assert(head.last() == signals[0]);
    if signals.len() == 1 {
        assert(signals.drop_last() =~= Seq::<Signal>::empty());
    } else {
        let shorter = signals.drop_last();
        lemma_first_step(phase, shorter);
        lemma_one_move_per_signal(phase, shorter);
        assert(shorter.take(1) =~= head);
    }
}

/// A conflict is answered without a single status query: a run whose
/// submission meets a conflict is finished at once, and no action of it,
/// then or later, is a poll or a rest.
pub proof fn lemma_conflict_never_polls(readable: bool, later: Seq<Signal>)
    ensures
        ({
            let first = if readable {
                Signal::Conflict
            } else {
                Signal::UnreadableConflict
            };
            let signals = seq![first] + later;
            let moves = moves_of(Phase::AwaitingSubmit, signals);
            &&& moves.len() == signals.len()
            &&& moves[0] == if readable {
                Move::Conclude
            } else {
                Move::Abort
            }
            &&& phase_after(Phase::AwaitingSubmit, signals) == Phase::Finished
            &&& forall|i: int|
                0 <= i < moves.len() ==> #[trigger] moves[i] != Move::Poll && moves[i]
                    != Move::Rest
        }),
{
    let first = if readable {
        Signal::Conflict
    } else {
        Signal::UnreadableConflict
    };
    let signals = seq![first] + later;
    let moves = moves_of(Phase::AwaitingSubmit, signals);
    lemma_one_move_per_signal(Phase::AwaitingSubmit, signals);
    lemma_first_step(Phase::AwaitingSubmit, signals);
    assert(signals.take(1) =~= seq![first]);
    assert(seq![first].drop_last() =~= Seq::<Signal>::empty());
    assert(phase_after(Phase::AwaitingSubmit, seq![first]) == Phase::Finished);
    lemma_finished_absorbs(Phase::AwaitingSubmit, signals, 1);
}

} // verus!
