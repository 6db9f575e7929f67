//! The local pipeline: build a program, hash what was built, hash what is
//! deployed, and compare the two without trusting anybody else.
//!
//! The caller clones, builds, reads files and talks to the chain. What it
//! needs for that (a cloned repository, a running container, an extracted
//! file) is the workspace of the run, and the machine in this file sees to
//! it that the workspace is released on every way out: after a match, after
//! a mismatch and after every failure.

use vstd::prelude::*;
use crate::digest::{
    all_zero,
    binary_digest,
    get_binary_hash,
    lemma_digest_ignores_zero_padding,
};

verus! {

/// Exit code of a run that found nothing wrong.
pub const EXIT_OK: i32 = 0;

/// Exit code of a run that failed or found a mismatch.
pub const EXIT_FAILED: i32 = 1;

/// Two digests that were found equal.
#[derive(Debug, PartialEq, Eq)]
pub struct Comparison {
    pub executable_hash: String,
    pub program_hash: String,
}

/// Why a local run did not end in a match.
#[derive(Debug, PartialEq, Eq)]
pub enum LocalError {
    /// The built executable and the deployed program differ.
    VerificationMismatch { executable_hash: String, program_hash: String },
    /// The workspace could not be set up.
    WorkspaceFailure { diagnostic: String },
    /// The build tool failed; the diagnostic is what it printed.
    BuildFailure { diagnostic: String },
    /// The built executable could not be read.
    ExecutableUnreadable { diagnostic: String },
    /// The account data could not be fetched from the chain.
    RpcFailure { diagnostic: String },
    /// The workspace could not be released.
    CleanupFailure { diagnostic: String },
    /// The caller reported something that cannot happen at this point.
    OutOfTurn,
}

/// The end of a local run.
pub type LocalVerdict = Result<Comparison, LocalError>;

/// The two images are the same program: their digests are equal.
pub open spec fn images_match(executable: Seq<u8>, program_data: Seq<u8>) -> bool {
    binary_digest(executable) == binary_digest(program_data)
}

/// The verdict on two digests.
pub open spec fn verdict_of(executable_hash: String, program_hash: String) -> LocalVerdict {
    if executable_hash@ == program_hash@ {
        Ok(Comparison { executable_hash, program_hash })
    } else {
        Err(LocalError::VerificationMismatch { executable_hash, program_hash })
    }
}

/// `verdict` is the verdict on the digest of an executable and the digest
/// text of a program: good exactly when the two are the same text, and
/// carrying both either way.
pub open spec fn settles(
    verdict: LocalVerdict,
    executable_hash: String,
    program_digest: Seq<char>,
) -> bool {
    match verdict {
        Ok(found) => {
            &&& executable_hash@ == program_digest
            &&& found.executable_hash == executable_hash
            &&& found.program_hash@ == program_digest
        },
        Err(LocalError::VerificationMismatch { executable_hash: built, program_hash }) => {
            &&& executable_hash@ != program_digest
            &&& built == executable_hash
            &&& program_hash@ == program_digest
        },
        Err(_) => false,
    }
}

/// The verdict, or the error where the verdict was good.
pub open spec fn spoiled_by(verdict: LocalVerdict, error: LocalError) -> LocalVerdict {
    if verdict is Ok {
        Err(error)
    } else {
        verdict
    }
}

/// Zero padding behind the deployed program does not keep it from matching
/// the executable it was deployed from.
pub proof fn lemma_padding_is_ignored(executable: Seq<u8>, zeros: Seq<u8>)
    requires
        all_zero(zeros),
    ensures
        images_match(executable, executable + zeros),
{
    lemma_digest_ignores_zero_padding(executable, zeros);
}

/// The data of an account behind its metadata.
pub fn account_payload(account_data: Vec<u8>, metadata_len: usize) -> (payload: Vec<u8>)
    requires
        metadata_len <= account_data@.len(),
    ensures
        payload@ == account_data@.skip(metadata_len as int),
{
    let mut head = account_data;
    let payload = head.split_off(metadata_len);
    assert(payload@ =~= account_data@.skip(metadata_len as int));
    payload
}

/// Compares the digest of a built executable with the digest of a deployed
/// program. They match exactly when they are the same text.
pub fn compare_hashes(executable_hash: String, program_hash: String) -> (verdict: LocalVerdict)
    ensures
        verdict == verdict_of(executable_hash, program_hash),
        verdict is Ok <==> executable_hash@ == program_hash@,
{
    if executable_hash == program_hash {
        Ok(Comparison { executable_hash, program_hash })
    } else {
        Err(LocalError::VerificationMismatch { executable_hash, program_hash })
    }
}

/// Hashes a built executable and the data of a deployed program, and
/// compares the two. The verdict is good exactly when the images match;
/// either way it carries both digests.
pub fn verify_local(executable: Vec<u8>, program_data: Vec<u8>) -> (verdict: LocalVerdict)
    ensures
        verdict is Ok <==> images_match(executable@, program_data@),
        match verdict {
            Ok(found) => {
                &&& found.executable_hash@ == binary_digest(executable@)
                &&& found.program_hash@ == binary_digest(program_data@)
            },
            Err(error) => {
                &&& error matches LocalError::VerificationMismatch { executable_hash, program_hash }
                &&& executable_hash@ == binary_digest(executable@)
                &&& program_hash@ == binary_digest(program_data@)
            },
        },
{
    let executable_hash = get_binary_hash(executable);
    let program_hash = get_binary_hash(program_data);
    compare_hashes(executable_hash, program_hash)
}

/// The exit code of a local run: zero after a match and nothing else.
pub fn exit_code(verdict: &LocalVerdict) -> (code: i32)
    ensures
        code == if *verdict is Ok {
            EXIT_OK
        } else {
            EXIT_FAILED
        },
{
    match verdict {
        Ok(_) => EXIT_OK,
        Err(_) => EXIT_FAILED,
    }
}

/// Where the executable of a local run comes from.
#[derive(Clone, Copy, Debug, PartialEq, Eq, Structural)]
pub enum LocalSource {
    /// A repository that is cloned and built.
    Repository,
    /// An image that holds a finished build.
    Image,
}

/// Where a local run stands.
#[derive(Debug, PartialEq, Eq)]
pub enum LocalState {
    /// Nothing has happened yet.
    Idle,
    /// The workspace is being set up.
    Preparing,
    /// The build is running.
    Building,
    /// The built executable is being read.
    ReadingExecutable,
    /// The deployed program is being fetched.
    FetchingProgramData { executable_hash: String },
    /// The workspace is being released; the verdict is settled.
    Releasing { verdict: LocalVerdict },
    /// The run is over.
    Closed,
}

/// What the caller has to tell the machine.
#[derive(Debug, PartialEq, Eq)]
pub enum LocalEvent {
    /// The run begins.
    Started,
    /// The workspace is set up.
    Prepared,
    /// The build went through.
    Built,
    /// The built executable, as it is on disk.
    ExecutableRead { bytes: Vec<u8> },
    /// The data of the deployed program, behind the account's metadata.
    ProgramDataFetched { bytes: Vec<u8> },
    /// The workspace is released.
    Released,
    /// What was asked for last has failed.
    Failed { diagnostic: String },
}

/// What the caller has to do next.
#[derive(Debug, PartialEq, Eq)]
pub enum LocalAction {
    /// Set up the workspace.
    Prepare,
    /// Run the build.
    Build,
    /// Read the built executable.
    ReadExecutable,
    /// Fetch the data of the deployed program.
    FetchProgramData,
    /// Release the workspace.
    Release,
    /// Stop and report the verdict.
    Finish { verdict: LocalVerdict },
}

/// The phases of a local run.
#[derive(Clone, Copy, Debug, PartialEq, Eq, Structural)]
pub enum LocalPhase {
    Idle,
    Preparing,
    Building,
    ReadingExecutable,
    FetchingProgramData,
    Releasing,
    Closed,
}

/// An event, reduced to its kind.
#[derive(Clone, Copy, Debug, PartialEq, Eq, Structural)]
pub enum LocalSignal {
    Started,
    Prepared,
    Built,
    ExecutableRead,
    ProgramDataFetched,
    Released,
    Failed,
}

/// An action, reduced to its kind.
#[derive(Clone, Copy, Debug, PartialEq, Eq, Structural)]
pub enum LocalMove {
    Prepare,
    Build,
    ReadExecutable,
    FetchProgramData,
    Release,
    Finish,
}

/// In this phase the workspace may exist and has not been released.
pub open spec fn holds_workspace(phase: LocalPhase) -> bool {
    phase is Preparing || phase is Building || phase is ReadingExecutable
        || phase is FetchingProgramData
}

/// The phase of a state.
pub open spec fn local_phase_of(state: LocalState) -> LocalPhase {
    match state {
        LocalState::Idle => LocalPhase::Idle,
        LocalState::Preparing => LocalPhase::Preparing,
        LocalState::Building => LocalPhase::Building,
        LocalState::ReadingExecutable => LocalPhase::ReadingExecutable,
        LocalState::FetchingProgramData { .. } => LocalPhase::FetchingProgramData,
        LocalState::Releasing { .. } => LocalPhase::Releasing,
        LocalState::Closed => LocalPhase::Closed,
    }
}

/// The kind of an event.
pub open spec fn local_signal_of(event: LocalEvent) -> LocalSignal {
    match event {
        LocalEvent::Started => LocalSignal::Started,
        LocalEvent::Prepared => LocalSignal::Prepared,
        LocalEvent::Built => LocalSignal::Built,
        LocalEvent::ExecutableRead { .. } => LocalSignal::ExecutableRead,
        LocalEvent::ProgramDataFetched { .. } => LocalSignal::ProgramDataFetched,
        LocalEvent::Released => LocalSignal::Released,
        LocalEvent::Failed { .. } => LocalSignal::Failed,
    }
}

/// The kind of an action.
pub open spec fn local_move_of(action: LocalAction) -> LocalMove {
    match action {
        LocalAction::Prepare => LocalMove::Prepare,
        LocalAction::Build => LocalMove::Build,
        LocalAction::ReadExecutable => LocalMove::ReadExecutable,
        LocalAction::FetchProgramData => LocalMove::FetchProgramData,
        LocalAction::Release => LocalMove::Release,
        LocalAction::Finish { .. } => LocalMove::Finish,
    }
}

/// The phase that follows. The run goes forward while each thing that was
/// asked for is reported done. Anything else sends a run that holds a
/// workspace to the release of it, and any other run to its end.
pub open spec fn local_next_phase(
    source: LocalSource,
    phase: LocalPhase,
    signal: LocalSignal,
) -> LocalPhase {
    match (phase, signal) {
        (LocalPhase::Idle, LocalSignal::Started) => LocalPhase::Preparing,
        (LocalPhase::Preparing, LocalSignal::Prepared) => if source is Repository {
            LocalPhase::Building
        } else {
            LocalPhase::ReadingExecutable
        },
        (LocalPhase::Building, LocalSignal::Built) => LocalPhase::ReadingExecutable,
        (
            LocalPhase::ReadingExecutable,
            LocalSignal::ExecutableRead,
        ) => LocalPhase::FetchingProgramData,
        _ => if holds_workspace(phase) {
            LocalPhase::Releasing
        } else {
            LocalPhase::Closed
        },
    }
}

/// The kind of action that a signal calls for.
pub open spec fn local_next_move(
    source: LocalSource,
    phase: LocalPhase,
    signal: LocalSignal,
) -> LocalMove {
    match local_next_phase(source, phase, signal) {
        LocalPhase::Idle => LocalMove::Finish,
        LocalPhase::Preparing => LocalMove::Prepare,
        LocalPhase::Building => LocalMove::Build,
        LocalPhase::ReadingExecutable => LocalMove::ReadExecutable,
        LocalPhase::FetchingProgramData => LocalMove::FetchProgramData,
        LocalPhase::Releasing => LocalMove::Release,
        LocalPhase::Closed => LocalMove::Finish,
    }
}

/// The error that a failure in the given phase amounts to.
pub open spec fn failure_in(phase: LocalPhase, diagnostic: String) -> LocalError {
    match phase {
        LocalPhase::Preparing => LocalError::WorkspaceFailure { diagnostic },
        LocalPhase::Building => LocalError::BuildFailure { diagnostic },
        LocalPhase::ReadingExecutable => LocalError::ExecutableUnreadable { diagnostic },
        LocalPhase::FetchingProgramData => LocalError::RpcFailure { diagnostic },
        LocalPhase::Releasing => LocalError::CleanupFailure { diagnostic },
        _ => LocalError::OutOfTurn,
    }
}

/// The error that an event amounts to which does not carry the run forward.
pub open spec fn setback(phase: LocalPhase, event: LocalEvent) -> LocalError {
    match event {
        LocalEvent::Failed { diagnostic } => failure_in(phase, diagnostic),
        _ => LocalError::OutOfTurn,
    }
}

/// `next` and `action` are what the machine answers to `event` in `state`,
/// in full.
pub open spec fn local_step_yields(
    source: LocalSource,
    state: LocalState,
    event: LocalEvent,
    next: LocalState,
    action: LocalAction,
) -> bool {
    match (state, event) {
        (LocalState::Idle, LocalEvent::Started) => {
            &&& next == LocalState::Preparing
            &&& action == LocalAction::Prepare
        },
        (LocalState::Preparing, LocalEvent::Prepared) => if source is Repository {
            &&& next == LocalState::Building
            &&& action == LocalAction::Build
        } else {
            &&& next == LocalState::ReadingExecutable
            &&& action == LocalAction::ReadExecutable
        },
        (LocalState::Building, LocalEvent::Built) => {
            &&& next == LocalState::ReadingExecutable
            &&& action == LocalAction::ReadExecutable
        },
        (LocalState::ReadingExecutable, LocalEvent::ExecutableRead { bytes }) => {
            &&& next matches LocalState::FetchingProgramData { executable_hash }
            &&& executable_hash@ == binary_digest(bytes@)
            &&& action == LocalAction::FetchProgramData
        },
        (
            LocalState::FetchingProgramData { executable_hash },
            LocalEvent::ProgramDataFetched { bytes },
        ) => {
            &&& next matches LocalState::Releasing { verdict }
            &&& settles(verdict, executable_hash, binary_digest(bytes@))
            &&& action == LocalAction::Release
        },
        (LocalState::Releasing { verdict }, LocalEvent::Released) => {
            &&& next == LocalState::Closed
            &&& action == LocalAction::Finish { verdict }
        },
        (LocalState::Releasing { verdict }, _) => {
            &&& next == LocalState::Closed
            &&& action == LocalAction::Finish {
                verdict: spoiled_by(verdict, setback(LocalPhase::Releasing, event)),
            }
        },
        (LocalState::Idle, _) => {
            &&& next == LocalState::Closed
            &&& action == LocalAction::Finish { verdict: Err(LocalError::OutOfTurn) }
        },
        (LocalState::Closed, _) => {
            &&& next == LocalState::Closed
            &&& action == LocalAction::Finish { verdict: Err(LocalError::OutOfTurn) }
        },
        _ => {
            &&& next == LocalState::Releasing {
                verdict: Err(setback(local_phase_of(state), event)),
            }
            &&& action == LocalAction::Release
        },
    }
}

/// Sends a run that holds a workspace to the release of it.
fn give_up(phase: LocalPhase, event: LocalEvent) -> (out: (LocalState, LocalAction))
    requires
        holds_workspace(phase),
    ensures
        out.0 == (LocalState::Releasing { verdict: Err(setback(phase, event)) }),
        out.1 == LocalAction::Release,
{
    let error = match event {
        LocalEvent::Failed { diagnostic } => match phase {
            LocalPhase::Preparing => LocalError::WorkspaceFailure { diagnostic },
            LocalPhase::Building => LocalError::BuildFailure { diagnostic },
            LocalPhase::ReadingExecutable => LocalError::ExecutableUnreadable { diagnostic },
            _ => LocalError::RpcFailure { diagnostic },
        },
        _ => LocalError::OutOfTurn,
    };
    (LocalState::Releasing { verdict: Err(error) }, LocalAction::Release)
}

/// Ends a run that holds no workspace.
fn close(verdict: LocalVerdict) -> (out: (LocalState, LocalAction))
    ensures
        out.0 == LocalState::Closed,
        out.1 == (LocalAction::Finish { verdict }),
{
    (LocalState::Closed, LocalAction::Finish { verdict })
}

/// One step of a local run: takes what happened and says what to do next.
///
/// The verdict is settled when the deployed program has been fetched: it
/// is good exactly when the digest of the program equals the digest of the
/// executable. A failure settles it earlier. Either way the workspace is
/// released before the verdict is handed out.
pub fn local_step(source: LocalSource, state: LocalState, event: LocalEvent) -> (out: (
    LocalState,
    LocalAction,
))
    ensures
        local_step_yields(source, state, event, out.0, out.1),
        local_phase_of(out.0) == local_next_phase(
            source,
            local_phase_of(state),
            local_signal_of(event),
        ),
        local_move_of(out.1) == local_next_move(
            source,
            local_phase_of(state),
            local_signal_of(event),
        ),
{
    match state {
        LocalState::Idle => match event {
            LocalEvent::Started => (LocalState::Preparing, LocalAction::Prepare),
            _ => close(Err(LocalError::OutOfTurn)),
        },
        LocalState::Preparing => match event {
            LocalEvent::Prepared => match source {
                LocalSource::Repository => (LocalState::Building, LocalAction::Build),
                LocalSource::Image => (LocalState::ReadingExecutable, LocalAction::ReadExecutable),
            },
            _ => give_up(LocalPhase::Preparing, event),
        },
        LocalState::Building => match event {
            LocalEvent::Built => (LocalState::ReadingExecutable, LocalAction::ReadExecutable),
            _ => give_up(LocalPhase::Building, event),
        },
        LocalState::ReadingExecutable => match event {
            LocalEvent::ExecutableRead { bytes } => (
                LocalState::FetchingProgramData { executable_hash: get_binary_hash(bytes) },
                LocalAction::FetchProgramData,
            ),
            _ => give_up(LocalPhase::ReadingExecutable, event),
        },
        LocalState::FetchingProgramData { executable_hash } => match event {
            LocalEvent::ProgramDataFetched { bytes } => {
                let program_hash = get_binary_hash(bytes);
                (
                    LocalState::Releasing { verdict: compare_hashes(executable_hash, program_hash) },
                    LocalAction::Release,
                )
            },
            _ => give_up(LocalPhase::FetchingProgramData, event),
        },
        LocalState::Releasing { verdict } => match event {
            LocalEvent::Released => close(verdict),
            LocalEvent::Failed { diagnostic } => match verdict {
                Ok(_) => close(Err(LocalError::CleanupFailure { diagnostic })),
                Err(error) => close(Err(error)),
            },
            _ => match verdict {
                Ok(_) => close(Err(LocalError::OutOfTurn)),
                Err(error) => close(Err(error)),
            },
        },
        LocalState::Closed => close(Err(LocalError::OutOfTurn)),
    }
}

/// The phase in which a run ends up that starts idle and sees the signals
/// one after the other.
pub open spec fn local_phase_after(source: LocalSource, signals: Seq<LocalSignal>) -> LocalPhase
    decreases signals.len(),
{
    if signals.len() == 0 {
        LocalPhase::Idle
    } else {
        local_next_phase(source, local_phase_after(source, signals.drop_last()), signals.last())
    }
}

/// The kinds of the actions that such a run takes, one for each signal.
pub open spec fn local_moves_of(source: LocalSource, signals: Seq<LocalSignal>) -> Seq<LocalMove>
    decreases signals.len(),
{
    if signals.len() == 0 {
        Seq::<LocalMove>::empty()
    } else {
        local_moves_of(source, signals.drop_last()).push(
            local_next_move(
                source,
                local_phase_after(source, signals.drop_last()),
                signals.last(),
            ),
        )
    }
}

/// One of the first `end` actions releases the workspace.
pub open spec fn released_before(moves: Seq<LocalMove>, end: int) -> bool {
    exists|j: int| 0 <= j < end && j < moves.len() && #[trigger] moves[j] == LocalMove::Release
}

/// None of the first `end` actions sets a workspace up.
pub open spec fn untouched_before(moves: Seq<LocalMove>, end: int) -> bool {
    forall|j: int| 0 <= j < end && j < moves.len() ==> #[trigger] moves[j] != LocalMove::Prepare
}

/// No way out of a phase that holds a workspace leads past its release: the
/// run stays in such a phase or turns to releasing, and it never finishes
/// from there.
pub proof fn lemma_only_release_leaves_workspace(
    source: LocalSource,
    phase: LocalPhase,
    signal: LocalSignal,
)
    requires
        holds_workspace(phase),
    ensures
        local_next_move(source, phase, signal) != LocalMove::Finish,
        local_next_move(source, phase, signal) != LocalMove::Prepare,
        holds_workspace(local_next_phase(source, phase, signal)) || (local_next_phase(
            source,
            phase,
            signal,
        ) == LocalPhase::Releasing && local_next_move(source, phase, signal)
            == LocalMove::Release),
{
}

/// The workspace is released on every way out. Whatever the caller reports
/// and in whatever order: where a run hands out its verdict, it has
/// released the workspace before, unless it never set one up.
pub proof fn lemma_released_before_finish(source: LocalSource, signals: Seq<LocalSignal>)
    ensures
        local_moves_of(source, signals).len() == signals.len(),
        local_phase_after(source, signals) is Idle ==> signals.len() == 0,
        !holds_workspace(local_phase_after(source, signals)) ==> released_before(
            local_moves_of(source, signals),
            signals.len() as int,
        ) || untouched_before(local_moves_of(source, signals), signals.len() as int),
        forall|i: int|
            0 <= i < signals.len() && #[trigger] local_moves_of(source, signals)[i]
                == LocalMove::Finish ==> released_before(local_moves_of(source, signals), i)
                || untouched_before(local_moves_of(source, signals), i),
    decreases signals.len(),
{
    if signals.len() > 0 {
        let shorter = signals.drop_last();
        let before = local_moves_of(source, shorter);
        let moves = local_moves_of(source, signals);
        let phase = local_phase_after(source, shorter);
        let last = (signals.len() - 1) as int;
        lemma_released_before_finish(source, shorter);
        assert(forall|j: int| 0 <= j < last ==> moves[j] == before[j]);
        assert forall|i: int| 0 <= i < signals.len() && #[trigger] moves[i]
            == LocalMove::Finish implies released_before(moves, i) || untouched_before(
            moves,
            i,
        ) by {
            if i < last {
                assert(before[i] == LocalMove::Finish);
                if released_before(before, i) {
                    let j = choose|j: int|
                        0 <= j < i && j < before.len() && #[trigger] before[j]
                            == LocalMove::Release;
                    assert(moves[j] == LocalMove::Release);
                } else {
                    assert(untouched_before(before, i));
                    assert forall|j: int| 0 <= j < i && j < moves.len() implies #[trigger] moves[j]
                        != LocalMove::Prepare by {
                        assert(before[j] != LocalMove::Prepare);
                    }
                }
            } else {
                assert(!holds_workspace(phase));
                if released_before(before, last) {
                    let j = choose|j: int|
                        0 <= j < last && j < before.len() && #[trigger] before[j]
                            == LocalMove::Release;
                    assert(moves[j] == LocalMove::Release);
                } else {
                    assert forall|j: int| 0 <= j < i && j < moves.len() implies #[trigger] moves[j]
                        != LocalMove::Prepare by {
                        assert(before[j] != LocalMove::Prepare);
                    }
                }
            }
        }
        if !holds_workspace(local_phase_after(source, signals)) {
            if moves[last] == LocalMove::Release {
                assert(released_before(moves, signals.len() as int));
            } else {
                assert(!holds_workspace(phase));
                assert(moves[last] == LocalMove::Finish);
                if released_before(before, last) {
                    let j = choose|j: int|
                        0 <= j < last && j < before.len() && #[trigger] before[j]
                            == LocalMove::Release;
                    assert(moves[j] == LocalMove::Release);
                } else {
                    assert forall|j: int|
                        0 <= j < signals.len() && j < moves.len() implies #[trigger] moves[j]
                        != LocalMove::Prepare by {
                        if j < last {
                            assert(before[j] != LocalMove::Prepare);
                        }
                    }
                }
            }
        }
    }
}

} // verus!
