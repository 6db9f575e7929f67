//! Verification jobs as the remote service reports them.

use vstd::prelude::*;

verus! {

/// Seconds the client rests after a status query that found the job still
/// running.
pub const QUERY_REST_SECS: u64 = 5;

/// Seconds the polling loop rests, in addition, before it asks again.
pub const LOOP_REST_SECS: u64 = 10;

/// Names one job at the service instance that accepted it. A handle comes
/// out of one submission and is used for the polls of that submission only.
#[derive(Debug, PartialEq, Eq)]
pub struct JobHandle {
    pub request_id: String,
}

/// The state of a job. Everything but `InProgress` is terminal: once seen,
/// the job is never asked about again.
#[derive(Clone, Copy, Debug, PartialEq, Eq, Structural)]
pub enum JobStatus {
    InProgress,
    Completed,
    Failed,
    Unknown,
}

impl JobStatus {
    /// The status ends the polling of a job.
    pub open spec fn terminal(self) -> bool {
        !(self is InProgress)
    }

    /// Whether the status ends the polling of a job.
    pub fn is_terminal(&self) -> (terminal: bool)
        ensures
            terminal == self.terminal(),
    {
        match self {
            JobStatus::InProgress => false,
            JobStatus::Completed => true,
            JobStatus::Failed => true,
            JobStatus::Unknown => true,
        }
    }
}

/// The answer of the service to a status query, field by field.
#[derive(Debug, PartialEq, Eq)]
pub struct JobReply {
    pub status: JobStatus,
    pub message: String,
    pub on_chain_hash: String,
    pub executable_hash: String,
    pub repo_url: String,
}

/// What a finished job leaves behind. The service compares the two hashes
/// itself; the client passes them on as they are.
#[derive(Debug, PartialEq, Eq)]
pub enum JobOutcome {
    Verified { on_chain_hash: String, executable_hash: String, repo_url: String },
    Failed { message: String },
}

/// A status query as the poller sees it: the status, and the outcome where
/// the status carries one.
#[derive(Debug, PartialEq, Eq)]
pub struct PollResult {
    pub status: JobStatus,
    pub outcome: Option<JobOutcome>,
}

impl PollResult {
    /// A completed job carries the hashes, a failed one the message, and a
    /// running or unknown one nothing.
    pub open spec fn well_formed(&self) -> bool {
        match self.status {
            JobStatus::InProgress => self.outcome is None,
            JobStatus::Completed => self.outcome matches Some(JobOutcome::Verified { .. }),
            JobStatus::Failed => self.outcome matches Some(JobOutcome::Failed { .. }),
            JobStatus::Unknown => self.outcome is None,
        }
    }

    /// The job was verified.
    pub open spec fn verified(&self) -> bool {
        self.status is Completed
    }
}

/// The poll result that a reply of the service amounts to.
pub open spec fn poll_result_of(reply: JobReply) -> PollResult {
    match reply.status {
        JobStatus::InProgress => PollResult { status: JobStatus::InProgress, outcome: None },
        JobStatus::Completed => PollResult {
            status: JobStatus::Completed,
            outcome: Some(
                JobOutcome::Verified {
                    on_chain_hash: reply.on_chain_hash,
                    executable_hash: reply.executable_hash,
                    repo_url: reply.repo_url,
                },
            ),
        },
        JobStatus::Failed => PollResult {
            status: JobStatus::Failed,
            outcome: Some(JobOutcome::Failed { message: reply.message }),
        },
        JobStatus::Unknown => PollResult { status: JobStatus::Unknown, outcome: None },
    }
}

/// Seconds to rest before the next query of a job in the given status: none
/// once the status is terminal.
pub open spec fn rest_seconds_of(status: JobStatus) -> int {
    if status.terminal() {
        0
    } else {
        QUERY_REST_SECS + LOOP_REST_SECS
    }
}

/// Turns a reply of the service into a poll result, keeping of the reply
/// what its status calls for.
pub fn poll_result(reply: JobReply) -> (result: PollResult)
    ensures
        result == poll_result_of(reply),
        result.status == reply.status,
        result.well_formed(),
{
    match reply.status {
        JobStatus::InProgress => PollResult { status: JobStatus::InProgress, outcome: None },
        JobStatus::Completed => PollResult {
            status: JobStatus::Completed,
            outcome: Some(
                JobOutcome::Verified {
                    on_chain_hash: reply.on_chain_hash,
                    executable_hash: reply.executable_hash,
                    repo_url: reply.repo_url,
                },
            ),
        },
        JobStatus::Failed => PollResult {
            status: JobStatus::Failed,
            outcome: Some(JobOutcome::Failed { message: reply.message }),
        },
        JobStatus::Unknown => PollResult { status: JobStatus::Unknown, outcome: None },
    }
}

/// Seconds to rest before the next query of a job in the given status.
pub fn rest_seconds(status: JobStatus) -> (seconds: u64)
    ensures
        seconds == rest_seconds_of(status),
        status.terminal() <==> seconds == 0,
{
    match status {
        JobStatus::InProgress => QUERY_REST_SECS + LOOP_REST_SECS,
        JobStatus::Completed => 0,
        JobStatus::Failed => 0,
        JobStatus::Unknown => 0,
    }
}

} // verus!
