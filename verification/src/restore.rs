//! The sequencing of operations. A restore has two phases: the archive is
//! fetched and previewed, which touches nothing; then, once confirmed, it
//! is applied, which overwrites the destination. Applying has its own
//! order: the database is closed and a grace period awaited before the
//! temporary file is opened, and only an opened file is unpacked.

use vstd::prelude::*;
use crate::error::{fault, BackupError, ErrorKind, Fault};
use crate::progress::{checkpoint, ProgressPayload, ProgressView};
use crate::text::concat;

verus! {

/// The stages of an operation.
#[derive(Clone, Copy, Debug, PartialEq, Eq, Structural)]
pub enum Stage {
    Idle,
    Preparing,
    Transferring,
    Previewed,
    Restoring,
    Complete,
    Failed,
}

/// What moves an operation from one stage to the next.
#[derive(Clone, Copy, Debug, PartialEq, Eq, Structural)]
pub enum Signal {
    /// The operation was asked for.
    Requested,
    /// The password is resolved and the names are made.
    Prepared,
    /// A backup has reached the server.
    Uploaded,
    /// An archive has come from the server and lies in a temporary file.
    Downloaded,
    /// The user confirmed the restore of a previewed archive.
    Confirmed,
    /// The archive is unpacked onto the destination.
    Restored,
    /// Something went wrong.
    Failure,
}

/// A stage at which an operation has ended.
pub open spec fn is_terminal(stage: Stage) -> bool {
    stage == Stage::Complete || stage == Stage::Failed
}

/// The stage that follows `stage` on `signal`. A failure ends every
/// operation that has not ended; a signal that the stage does not wait for
/// changes nothing.
pub open spec fn next_stage(stage: Stage, signal: Signal) -> Stage {
    match (stage, signal) {
        (Stage::Complete, _) => Stage::Complete,
        (Stage::Failed, _) => Stage::Failed,
        (_, Signal::Failure) => Stage::Failed,
        (Stage::Idle, Signal::Requested) => Stage::Preparing,
        (Stage::Preparing, Signal::Prepared) => Stage::Transferring,
        (Stage::Transferring, Signal::Uploaded) => Stage::Complete,
        (Stage::Transferring, Signal::Downloaded) => Stage::Previewed,
        (Stage::Previewed, Signal::Confirmed) => Stage::Restoring,
        (Stage::Restoring, Signal::Restored) => Stage::Complete,
        _ => stage,
    }
}

/// The stage reached from `start` by the signals, one after the other.
pub open spec fn stage_after(start: Stage, signals: Seq<Signal>) -> Stage
    decreases signals.len(),
{
    if signals.len() == 0 {
        start
    } else {
        next_stage(stage_after(start, signals.drop_last()), signals.last())
    }
}

/// The stage that follows `stage` on `signal`.
pub fn advance_stage(stage: Stage, signal: Signal) -> (next: Stage)
    ensures
        next == next_stage(stage, signal),
{
    match (stage, signal) {
        (Stage::Complete, _) => Stage::Complete,
        (Stage::Failed, _) => Stage::Failed,
        (_, Signal::Failure) => Stage::Failed,
        (Stage::Idle, Signal::Requested) => Stage::Preparing,
        (Stage::Preparing, Signal::Prepared) => Stage::Transferring,
        (Stage::Transferring, Signal::Uploaded) => Stage::Complete,
        (Stage::Transferring, Signal::Downloaded) => Stage::Previewed,
        (Stage::Previewed, Signal::Confirmed) => Stage::Restoring,
        (Stage::Restoring, Signal::Restored) => Stage::Complete,
        _ => stage,
    }
}

/// An operation that has ended stays as it ended.
pub proof fn terminal_stages_absorb(stage: Stage, signal: Signal)
    requires
        is_terminal(stage),
    ensures
        next_stage(stage, signal) == stage,
{
}

/// A failure ends every operation that has not ended.
pub proof fn failure_reaches_failed(stage: Stage)
    requires
        !is_terminal(stage),
    ensures
        next_stage(stage, Signal::Failure) == Stage::Failed,
{
}

/// The destructive phase begins only on a previewed archive: the stage
/// `Restoring` is entered from `Previewed`, on confirmation, and from no
/// other stage.
pub proof fn restoring_follows_preview(stage: Stage, signal: Signal)
    requires
        stage != Stage::Restoring,
        next_stage(stage, signal) == Stage::Restoring,
    ensures
        stage == Stage::Previewed,
        signal == Signal::Confirmed,
{
}

/// The signals that lead to the destructive phase, in their order.
pub open spec fn path_to_restoring() -> Seq<Signal> {
    seq![Signal::Requested, Signal::Prepared, Signal::Downloaded, Signal::Confirmed]
}

/// How many signals of `path_to_restoring`, from its first on, occur among
/// `signals` in their order.
pub open spec fn matched(signals: Seq<Signal>) -> nat
    decreases signals.len(),
{
    if signals.len() == 0 {
        0
    } else {
        let m = matched(signals.drop_last());
        if m < 4 && signals.last() == path_to_restoring()[m as int] {
            m + 1
        } else {
            m
        }
    }
}

/// How many signals a stage lies behind `Idle` on the way to `Restoring`.
pub open spec fn stage_rank(stage: Stage) -> nat {
    match stage {
        Stage::Preparing => 1,
        Stage::Transferring => 2,
        Stage::Previewed => 3,
        Stage::Restoring => 4,
        _ => 0,
    }
}

/// Whatever signals come, an operation stands no further than the signals
/// of `path_to_restoring` have come in their order.
pub proof fn stage_needs_its_history(signals: Seq<Signal>)
    ensures
        stage_rank(stage_after(Stage::Idle, signals)) <= matched(signals),
    decreases signals.len(),
{
    if signals.len() > 0 {
        stage_needs_its_history(signals.drop_last());
    }
}

/// Whatever signals come, an operation that stands at `Restoring` has been
/// asked for, prepared, fed by a download and confirmed, in that order.
pub proof fn restoring_has_full_history(signals: Seq<Signal>)
    requires
        stage_after(Stage::Idle, signals) == Stage::Restoring,
    ensures
        matched(signals) == 4,
{
    stage_needs_its_history(signals);
    matched_is_bounded(signals);
}

proof fn matched_is_bounded(signals: Seq<Signal>)
    ensures
        matched(signals) <= 4,
    decreases signals.len(),
{
    if signals.len() > 0 {
        matched_is_bounded(signals.drop_last());
    }
}

/// Where the application of a restore stands: what it waits for.
#[derive(Clone, Copy, Debug, PartialEq, Eq, Structural)]
pub enum RestoreStep {
    /// The database is being closed.
    ClosingDatabase,
    /// The grace period runs in which the system lets go of the files.
    AwaitingGrace,
    /// The temporary file is being opened.
    OpeningTempFile,
    /// The archive is being unpacked onto the destination.
    Unpacking,
    /// The temporary file is being removed.
    RemovingTempFile,
    /// The restore is done.
    Done,
    /// The restore has failed.
    Failed,
}

/// What happened to the last thing the application of a restore asked for.
#[derive(Clone, Debug)]
pub enum RestoreEvent {
    DatabaseClosed,
    GraceElapsed,
    TempFileOpened,
    /// The temporary file could not be opened; `reason` is the system's
    /// account.
    TempFileMissing { reason: String },
    Unpacked,
    /// Unpacking failed with `error`.
    UnpackFailed { error: BackupError },
    /// The temporary file is gone, or could not be removed, which is as
    /// good.
    TempFileRemoved,
}

/// The mathematical value of a `RestoreEvent`.
pub enum EventView {
    DatabaseClosed,
    GraceElapsed,
    TempFileOpened,
    TempFileMissing { reason: Seq<char> },
    Unpacked,
    UnpackFailed { error: Fault },
    TempFileRemoved,
}

impl View for RestoreEvent {
    type V = EventView;

    open spec fn view(&self) -> EventView {
        match self {
            RestoreEvent::DatabaseClosed => EventView::DatabaseClosed,
            RestoreEvent::GraceElapsed => EventView::GraceElapsed,
            RestoreEvent::TempFileOpened => EventView::TempFileOpened,
            RestoreEvent::TempFileMissing { reason } => EventView::TempFileMissing {
                reason: reason@,
            },
            RestoreEvent::Unpacked => EventView::Unpacked,
            RestoreEvent::UnpackFailed { error } => EventView::UnpackFailed { error: error@ },
            RestoreEvent::TempFileRemoved => EventView::TempFileRemoved,
        }
    }
}

/// What the application of a restore asks its caller to do next.
#[derive(Clone, Debug)]
pub enum RestoreCommand {
    /// Close the database and let go of its handles.
    CloseDatabase,
    /// Wait for the given number of milliseconds.
    Sleep { millis: u64 },
    /// Open the temporary file and read it.
    OpenTempFile,
    /// Unpack the archive onto the destination.
    Unpack,
    /// Remove the temporary file, and do not mind if that fails.
    RemoveTempFile,
    /// Report success.
    Finish,
    /// Report the failure.
    Fail { error: BackupError },
    /// Nothing: the restore has ended.
    Nothing,
}

/// The mathematical value of a `RestoreCommand`.
pub enum CommandView {
    CloseDatabase,
    Sleep { millis: u64 },
    OpenTempFile,
    Unpack,
    RemoveTempFile,
    Finish,
    Fail { error: Fault },
    Nothing,
}

impl View for RestoreCommand {
    type V = CommandView;

    open spec fn view(&self) -> CommandView {
        match self {
            RestoreCommand::CloseDatabase => CommandView::CloseDatabase,
            RestoreCommand::Sleep { millis } => CommandView::Sleep { millis: *millis },
            RestoreCommand::OpenTempFile => CommandView::OpenTempFile,
            RestoreCommand::Unpack => CommandView::Unpack,
            RestoreCommand::RemoveTempFile => CommandView::RemoveTempFile,
            RestoreCommand::Finish => CommandView::Finish,
            RestoreCommand::Fail { error } => CommandView::Fail { error: error@ },
            RestoreCommand::Nothing => CommandView::Nothing,
        }
    }
}

/// One move of the application of a restore: where it stands afterwards,
/// what it reports as progress, and what it asks for.
pub struct Move {
    pub step: RestoreStep,
    pub report: Option<ProgressView>,
    pub command: CommandView,
}

/// The grace period between closing the database and touching its files,
/// in milliseconds.
pub open spec fn grace_millis() -> u64 {
    500
}

/// The fault of an event that the restore did not wait for.
pub open spec fn out_of_sequence() -> Fault {
    fault(ErrorKind::Io, "Restore out of sequence"@)
}

/// The first move: the restore reports that it prepares, and asks for the
/// database to be closed.
pub open spec fn first_move() -> Move {
    Move {
        step: RestoreStep::ClosingDatabase,
        report: Some(checkpoint("backup.progress.preparing"@, 10)),
        command: CommandView::CloseDatabase,
    }
}

/// The move that answers `event` at `step`. Each step waits for one event
/// and moves on by one; a missing temporary file is a fault of kind
/// `NotFound`; a failed unpacking is its own fault; any other event at a
/// step that has not ended is a fault of kind `Io`. A restore that has
/// ended stays as it is.
pub open spec fn next_move(step: RestoreStep, event: EventView) -> Move {
    match (step, event) {
        (RestoreStep::Done, _) => Move { step, report: None, command: CommandView::Nothing },
        (RestoreStep::Failed, _) => Move { step, report: None, command: CommandView::Nothing },
        (RestoreStep::ClosingDatabase, EventView::DatabaseClosed) => Move {
            step: RestoreStep::AwaitingGrace,
            report: None,
            command: CommandView::Sleep { millis: grace_millis() },
        },
        (RestoreStep::AwaitingGrace, EventView::GraceElapsed) => Move {
            step: RestoreStep::OpeningTempFile,
            report: None,
            command: CommandView::OpenTempFile,
        },
        (RestoreStep::OpeningTempFile, EventView::TempFileOpened) => Move {
            step: RestoreStep::Unpacking,
            report: Some(checkpoint("backup.progress.extracting"@, 50)),
            command: CommandView::Unpack,
        },
        (RestoreStep::OpeningTempFile, EventView::TempFileMissing { reason }) => Move {
            step: RestoreStep::Failed,
            report: None,
            command: CommandView::Fail {
                error: fault(ErrorKind::NotFound, "Temp file missing: "@ + reason),
            },
        },
        (RestoreStep::Unpacking, EventView::Unpacked) => Move {
            step: RestoreStep::RemovingTempFile,
            report: None,
            command: CommandView::RemoveTempFile,
        },
        (RestoreStep::Unpacking, EventView::UnpackFailed { error }) => Move {
            step: RestoreStep::Failed,
            report: None,
            command: CommandView::Fail { error },
        },
        (RestoreStep::RemovingTempFile, EventView::TempFileRemoved) => Move {
            step: RestoreStep::Done,
            report: Some(checkpoint("backup.progress.complete"@, 100)),
            command: CommandView::Finish,
        },
        _ => Move {
            step: RestoreStep::Failed,
            report: None,
            command: CommandView::Fail { error: out_of_sequence() },
        },
    }
}

/// The application of a restore under way.
#[derive(Clone, Copy, Debug)]
pub struct ApplyRestore {
    pub step: RestoreStep,
}

/// The value of an optional report.
pub open spec fn report_view(report: Option<ProgressPayload>) -> Option<ProgressView> {
    match report {
        Some(p) => Some(p@),
        None => None,
    }
}

impl ApplyRestore {
    /// Begins the application of a restore.
    pub fn begin() -> (r: (ApplyRestore, Option<ProgressPayload>, RestoreCommand))
        ensures
            r.0.step == first_move().step,
            report_view(r.1) == first_move().report,
            r.2@ == first_move().command,
    {
        (
            ApplyRestore { step: RestoreStep::ClosingDatabase },
            Some(ProgressPayload::at("backup.progress.preparing", 10)),
            RestoreCommand::CloseDatabase,
        )
    }

    /// Takes in what happened and says what to do next.
    pub fn advance(&mut self, event: RestoreEvent) -> (r: (Option<ProgressPayload>, RestoreCommand))
        ensures
            final(self).step == next_move(old(self).step, event@).step,
            report_view(r.0) == next_move(old(self).step, event@).report,
            r.1@ == next_move(old(self).step, event@).command,
    {
        let step = self.step;
        match step {
            RestoreStep::Done => {
                return (None, RestoreCommand::Nothing);
            },
            RestoreStep::Failed => {
                return (None, RestoreCommand::Nothing);
            },
            _ => {},
        }
        match (step, event) {
            (RestoreStep::ClosingDatabase, RestoreEvent::DatabaseClosed) => {
                self.step = RestoreStep::AwaitingGrace;
                (None, RestoreCommand::Sleep { millis: 500 })
            },
            (RestoreStep::AwaitingGrace, RestoreEvent::GraceElapsed) => {
                self.step = RestoreStep::OpeningTempFile;
                (None, RestoreCommand::OpenTempFile)
            },
            (RestoreStep::OpeningTempFile, RestoreEvent::TempFileOpened) => {
                self.step = RestoreStep::Unpacking;
                (
                    Some(ProgressPayload::at("backup.progress.extracting", 50)),
                    RestoreCommand::Unpack,
                )
            },
            (RestoreStep::OpeningTempFile, RestoreEvent::TempFileMissing { reason }) => {
                self.step = RestoreStep::Failed;
                (
                    None,
                    RestoreCommand::Fail {
                        error: BackupError {
                            kind: ErrorKind::NotFound,
                            message: concat("Temp file missing: ", reason.as_str()),
                        },
                    },
                )
            },
            (RestoreStep::Unpacking, RestoreEvent::Unpacked) => {
                self.step = RestoreStep::RemovingTempFile;
                (None, RestoreCommand::RemoveTempFile)
            },
            (RestoreStep::Unpacking, RestoreEvent::UnpackFailed { error }) => {
                self.step = RestoreStep::Failed;
                (None, RestoreCommand::Fail { error })
            },
            (RestoreStep::RemovingTempFile, RestoreEvent::TempFileRemoved) => {
                self.step = RestoreStep::Done;
                (Some(ProgressPayload::at("backup.progress.complete", 100)), RestoreCommand::Finish)
            },
            _ => {
                self.step = RestoreStep::Failed;
                (
                    None,
                    RestoreCommand::Fail {
                        error: BackupError::new(ErrorKind::Io, "Restore out of sequence"),
                    },
                )
            },
        }
    }
}

/// The stage of the operation at a step.
pub open spec fn restore_stage(step: RestoreStep) -> Stage {
    match step {
        RestoreStep::Done => Stage::Complete,
        RestoreStep::Failed => Stage::Failed,
        _ => Stage::Restoring,
    }
}

/// Each move keeps the stage of the operation or takes it one signal
/// further: restored or failed.
pub proof fn restore_moves_follow_stages(step: RestoreStep, event: EventView)
    ensures
        ({
            let before = restore_stage(step);
            let after = restore_stage(next_move(step, event).step);
            after == before || after == next_stage(before, Signal::Restored) || after
                == next_stage(before, Signal::Failure)
        }),
{
}

/// The step reached from the first move by the events, one after the
/// other.
pub open spec fn step_after(events: Seq<EventView>) -> RestoreStep
    decreases events.len(),
{
    if events.len() == 0 {
        first_move().step
    } else {
        next_move(step_after(events.drop_last()), events.last()).step
    }
}

/// A restore whose temporary file is missing fails with a fault of kind
/// `NotFound`, and the unpacker is not asked for: not on that event, at
/// whatever step it comes, and not afterwards.
pub proof fn missing_temp_file_is_never_unpacked(
    step: RestoreStep,
    reason: Seq<char>,
    later: EventView,
)
    ensures
        ({
            let missing = next_move(step, EventView::TempFileMissing { reason });
            &&& missing.command != CommandView::Unpack
            &&& step == RestoreStep::OpeningTempFile ==> missing.step == RestoreStep::Failed
                && missing.command == (CommandView::Fail {
                error: fault(ErrorKind::NotFound, "Temp file missing: "@ + reason),
            })
            &&& step != RestoreStep::Done ==> missing.step == RestoreStep::Failed
            &&& step != RestoreStep::Done ==> next_move(missing.step, later).command
                == CommandView::Nothing
        }),
{
}

/// The unpacker is asked for at one point only: when the temporary file
/// has been opened, at the step that waits for it.
pub proof fn unpack_follows_opened_temp_file(step: RestoreStep, event: EventView)
    requires
        next_move(step, event).command == CommandView::Unpack,
    ensures
        step == RestoreStep::OpeningTempFile,
        event == EventView::TempFileOpened,
{
}

/// The order of a restore: whatever events come, where the restore stands
/// at unpacking, the first three of them were the closing of the database,
/// the end of the grace period and the opening of the temporary file, and
/// there were no others.
pub proof fn unpacking_follows_quiesce(events: Seq<EventView>)
    requires
        step_after(events) == RestoreStep::Unpacking,
    ensures
        events == seq![
            EventView::DatabaseClosed,
            EventView::GraceElapsed,
            EventView::TempFileOpened,
        ],
{
    steps_count_events(events);
    assert(events.len() == 3);
    let two = events.drop_last();
    steps_count_events(two);
    let one = two.drop_last();
    steps_count_events(one);
    let none = one.drop_last();
    steps_count_events(none);
    assert(step_after(two) == RestoreStep::OpeningTempFile);
    assert(step_after(one) == RestoreStep::AwaitingGrace);
    assert(step_after(none) == RestoreStep::ClosingDatabase);
    assert(events[2] == events.last());
    assert(events[1] == two.last());
    assert(events[0] == one.last());
    assert(events =~= seq![
        EventView::DatabaseClosed,
        EventView::GraceElapsed,
        EventView::TempFileOpened,
    ]);
}

/// How many events a step lies behind the first move; `None` for the two
/// steps at which a restore has ended.
pub open spec fn events_before(step: RestoreStep) -> Option<nat> {
    match step {
        RestoreStep::ClosingDatabase => Some(0nat),
        RestoreStep::AwaitingGrace => Some(1nat),
        RestoreStep::OpeningTempFile => Some(2nat),
        RestoreStep::Unpacking => Some(3nat),
        RestoreStep::RemovingTempFile => Some(4nat),
        RestoreStep::Done => None,
        RestoreStep::Failed => None,
    }
}

proof fn steps_count_events(events: Seq<EventView>)
    ensures
        match events_before(step_after(events)) {
            Some(n) => events.len() == n,
            None => true,
        },
        events.len() > 0 && events_before(step_after(events)) is Some ==> events_before(
            step_after(events.drop_last()),
        ) == Some((events.len() - 1) as nat),
    decreases events.len(),
{
    if events.len() > 0 {
        steps_count_events(events.drop_last());
    }
}

} // verus!
