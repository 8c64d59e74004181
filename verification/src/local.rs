//! Export to and import from a local file, step by step: as a backup and
//! a restore are made, without password and network. The caller does what
//! a command asks and hands back what happened.

use vstd::prelude::*;
use crate::error::{fault, BackupError, ErrorKind, Fault};
use crate::models::{BackupMetadata, MetadataView};
use crate::progress::{checkpoint, ProgressPayload, ProgressView};
use crate::restore::report_view;
use crate::text::concat;

verus! {

/// Where an export stands: what it waits for.
#[derive(Clone, Copy, Debug, PartialEq, Eq, Structural)]
pub enum ExportStep {
    ReadingClock,
    Packing,
    Done,
    Failed,
}

/// What happened to the last thing an export asked for.
#[derive(Debug)]
pub enum ExportEvent {
    /// The clock was read: the milliseconds since the Unix epoch, and the
    /// name of the platform.
    ClockRead { millis: i64, platform: String },
    /// The archive is written to the target.
    Packed,
    PackFailed { error: BackupError },
}

/// The mathematical value of an `ExportEvent`.
pub enum ExportEventView {
    ClockRead { millis: int, platform: Seq<char> },
    Packed,
    PackFailed { error: Fault },
}

impl View for ExportEvent {
    type V = ExportEventView;

    open spec fn view(&self) -> ExportEventView {
        match self {
            ExportEvent::ClockRead { millis, platform } => ExportEventView::ClockRead {
                millis: *millis as int,
                platform: platform@,
            },
            ExportEvent::Packed => ExportEventView::Packed,
            ExportEvent::PackFailed { error } => ExportEventView::PackFailed { error: error@ },
        }
    }
}

/// What an export asks its caller to do next.
#[derive(Debug)]
pub enum ExportCommand {
    /// Read the clock.
    ReadClock,
    /// Create the target file and pack the configuration directory into
    /// it, with this metadata.
    Pack { target_path: String, metadata: BackupMetadata },
    /// Report success.
    Finish,
    /// Remove what there is of the target file, not minding if that fails,
    /// and report the failure.
    Abandon { target_path: String, error: BackupError },
    /// Report the failure.
    Fail { error: BackupError },
    /// Nothing: the export has ended.
    Nothing,
}

/// The mathematical value of an `ExportCommand`.
pub enum ExportCommandView {
    ReadClock,
    Pack { target_path: Seq<char>, metadata: MetadataView },
    Finish,
    Abandon { target_path: Seq<char>, error: Fault },
    Fail { error: Fault },
    Nothing,
}

impl View for ExportCommand {
    type V = ExportCommandView;

    open spec fn view(&self) -> ExportCommandView {
        match self {
            ExportCommand::ReadClock => ExportCommandView::ReadClock,
            ExportCommand::Pack { target_path, metadata } => ExportCommandView::Pack {
                target_path: target_path@,
                metadata: metadata@,
            },
            ExportCommand::Finish => ExportCommandView::Finish,
            ExportCommand::Abandon { target_path, error } => ExportCommandView::Abandon {
                target_path: target_path@,
                error: error@,
            },
            ExportCommand::Fail { error } => ExportCommandView::Fail { error: error@ },
            ExportCommand::Nothing => ExportCommandView::Nothing,
        }
    }
}

/// An export under way.
#[derive(Debug)]
pub struct ExportLocal {
    pub step: ExportStep,
    pub target_path: String,
}

/// One move of an export: the step afterwards, what is reported as
/// progress, and what is asked for.
pub struct ExportMove {
    pub step: ExportStep,
    pub report: Option<ProgressView>,
    pub command: ExportCommandView,
}

/// The fault of an event that was not waited for.
pub open spec fn local_out_of_sequence() -> Fault {
    fault(ErrorKind::Io, "Operation out of sequence"@)
}

/// The first move of an export: progress is reported and the clock asked
/// for.
pub open spec fn export_first_move() -> ExportMove {
    ExportMove {
        step: ExportStep::ReadingClock,
        report: Some(checkpoint("backup.progress.compressing"@, 20)),
        command: ExportCommandView::ReadClock,
    }
}

/// The move of an export that answers `event` at `step`: the clock read,
/// packing is asked for with the metadata of a local export; packed, the
/// export is done; packing failed, the export fails with that fault, and
/// what there is of the target is removed, so that no partial archive is
/// left; any other event before the end is a fault of kind `Io`.
pub open spec fn export_next_move(
    step: ExportStep,
    target_path: Seq<char>,
    event: ExportEventView,
) -> ExportMove {
    match (step, event) {
        (ExportStep::Done, _) => ExportMove {
            step,
            report: None,
            command: ExportCommandView::Nothing,
        },
        (ExportStep::Failed, _) => ExportMove {
            step,
            report: None,
            command: ExportCommandView::Nothing,
        },
        (ExportStep::ReadingClock, ExportEventView::ClockRead { millis, platform }) => ExportMove {
            step: ExportStep::Packing,
            report: None,
            command: ExportCommandView::Pack {
                target_path,
                metadata: MetadataView {
                    version: "1.0.0"@,
                    device_id: "local_export"@,
                    device_name: "Local"@,
                    timestamp: millis,
                    platform,
                },
            },
        },
        (ExportStep::Packing, ExportEventView::Packed) => ExportMove {
            step: ExportStep::Done,
            report: Some(checkpoint("backup.progress.complete"@, 100)),
            command: ExportCommandView::Finish,
        },
        (ExportStep::Packing, ExportEventView::PackFailed { error }) => ExportMove {
            step: ExportStep::Failed,
            report: None,
            command: ExportCommandView::Abandon { target_path, error },
        },
        _ => ExportMove {
            step: ExportStep::Failed,
            report: None,
            command: ExportCommandView::Fail { error: local_out_of_sequence() },
        },
    }
}

impl ExportLocal {
    /// Begins an export to the file at `target_path`.
    pub fn begin(target_path: String) -> (r: (ExportLocal, Option<ProgressPayload>, ExportCommand))
        ensures
            r.0.step == export_first_move().step,
            r.0.target_path@ == target_path@,
            report_view(r.1) == export_first_move().report,
            r.2@ == export_first_move().command,
    {
        (
            ExportLocal { step: ExportStep::ReadingClock, target_path },
            Some(ProgressPayload::at("backup.progress.compressing", 20)),
            ExportCommand::ReadClock,
        )
    }

    /// Takes in what happened and says what to do next.
    pub fn advance(&mut self, event: ExportEvent) -> (r: (Option<ProgressPayload>, ExportCommand))
        ensures
            final(self).target_path@ == old(self).target_path@,
            final(self).step == export_next_move(
                old(self).step,
                old(self).target_path@,
                event@,
            ).step,
            report_view(r.0) == export_next_move(
                old(self).step,
                old(self).target_path@,
                event@,
            ).report,
            r.1@ == export_next_move(old(self).step, old(self).target_path@, event@).command,
    {
        let step = self.step;
        match step {
            ExportStep::Done => {
                return (None, ExportCommand::Nothing);
            },
            ExportStep::Failed => {
                return (None, ExportCommand::Nothing);
            },
            _ => {},
        }
        match (step, event) {
            (ExportStep::ReadingClock, ExportEvent::ClockRead { millis, platform }) => {
                self.step = ExportStep::Packing;
                (
                    None,
                    ExportCommand::Pack {
                        target_path: self.target_path.clone(),
                        metadata: BackupMetadata::local_export(millis, platform),
                    },
                )
            },
            (ExportStep::Packing, ExportEvent::Packed) => {
                self.step = ExportStep::Done;
                (Some(ProgressPayload::at("backup.progress.complete", 100)), ExportCommand::Finish)
            },
            (ExportStep::Packing, ExportEvent::PackFailed { error }) => {
                self.step = ExportStep::Failed;
                (None, ExportCommand::Abandon { target_path: self.target_path.clone(), error })
            },
            _ => {
                self.step = ExportStep::Failed;
                (
                    None,
                    ExportCommand::Fail {
                        error: BackupError::new(ErrorKind::Io, "Operation out of sequence"),
                    },
                )
            },
        }
    }
}

/// Where an import stands: what it waits for.
#[derive(Clone, Copy, Debug, PartialEq, Eq, Structural)]
pub enum ImportStep {
    OpeningFile,
    Unpacking,
    Done,
    Failed,
}

/// What happened to the last thing an import asked for.
#[derive(Debug)]
pub enum ImportEvent {
    FileOpened,
    /// The file could not be opened; `reason` is the system's account.
    FileMissing { reason: String },
    Unpacked,
    UnpackFailed { error: BackupError },
}

/// The mathematical value of an `ImportEvent`.
pub enum ImportEventView {
    FileOpened,
    FileMissing { reason: Seq<char> },
    Unpacked,
    UnpackFailed { error: Fault },
}

impl View for ImportEvent {
    type V = ImportEventView;

    open spec fn view(&self) -> ImportEventView {
        match self {
            ImportEvent::FileOpened => ImportEventView::FileOpened,
            ImportEvent::FileMissing { reason } => ImportEventView::FileMissing { reason: reason@ },
            ImportEvent::Unpacked => ImportEventView::Unpacked,
            ImportEvent::UnpackFailed { error } => ImportEventView::UnpackFailed { error: error@ },
        }
    }
}

/// What an import asks its caller to do next.
#[derive(Debug)]
pub enum ImportCommand {
    /// Open the file and read it.
    OpenFile { path: String },
    /// Unpack the archive onto the destination.
    Unpack,
    /// Report success.
    Finish,
    /// Report the failure.
    Fail { error: BackupError },
    /// Nothing: the import has ended.
    Nothing,
}

/// The mathematical value of an `ImportCommand`.
pub enum ImportCommandView {
    OpenFile { path: Seq<char> },
    Unpack,
    Finish,
    Fail { error: Fault },
    Nothing,
}

impl View for ImportCommand {
    type V = ImportCommandView;

    open spec fn view(&self) -> ImportCommandView {
        match self {
            ImportCommand::OpenFile { path } => ImportCommandView::OpenFile { path: path@ },
            ImportCommand::Unpack => ImportCommandView::Unpack,
            ImportCommand::Finish => ImportCommandView::Finish,
            ImportCommand::Fail { error } => ImportCommandView::Fail { error: error@ },
            ImportCommand::Nothing => ImportCommandView::Nothing,
        }
    }
}

/// An import under way.
#[derive(Clone, Copy, Debug)]
pub struct ImportLocal {
    pub step: ImportStep,
}

/// One move of an import: the step afterwards, what is reported as
/// progress, and what is asked for.
pub struct ImportMove {
    pub step: ImportStep,
    pub report: Option<ProgressView>,
    pub command: ImportCommandView,
}

/// The first move of an import: progress is reported and the file asked
/// for.
pub open spec fn import_first_move(file_path: Seq<char>) -> ImportMove {
    ImportMove {
        step: ImportStep::OpeningFile,
        report: Some(checkpoint("backup.progress.preparing"@, 20)),
        command: ImportCommandView::OpenFile { path: file_path },
    }
}

/// The move of an import that answers `event` at `step`: the file opened,
/// unpacking is asked for; the file missing, the import fails with a fault
/// of kind `Io`; unpacked, the import is done; unpacking failed, the import
/// fails with that fault; any other event before the end is a fault of
/// kind `Io`.
pub open spec fn import_next_move(step: ImportStep, event: ImportEventView) -> ImportMove {
    match (step, event) {
        (ImportStep::Done, _) => ImportMove {
            step,
            report: None,
            command: ImportCommandView::Nothing,
        },
        (ImportStep::Failed, _) => ImportMove {
            step,
            report: None,
            command: ImportCommandView::Nothing,
        },
        (ImportStep::OpeningFile, ImportEventView::FileOpened) => ImportMove {
            step: ImportStep::Unpacking,
            report: Some(checkpoint("backup.progress.extracting"@, 50)),
            command: ImportCommandView::Unpack,
        },
        (ImportStep::OpeningFile, ImportEventView::FileMissing { reason }) => ImportMove {
            step: ImportStep::Failed,
            report: None,
            command: ImportCommandView::Fail {
                error: fault(ErrorKind::Io, "Failed to open file: "@ + reason),
            },
        },
        (ImportStep::Unpacking, ImportEventView::Unpacked) => ImportMove {
            step: ImportStep::Done,
            report: Some(checkpoint("backup.progress.complete"@, 100)),
            command: ImportCommandView::Finish,
        },
        (ImportStep::Unpacking, ImportEventView::UnpackFailed { error }) => ImportMove {
            step: ImportStep::Failed,
            report: None,
            command: ImportCommandView::Fail { error },
        },
        _ => ImportMove {
            step: ImportStep::Failed,
            report: None,
            command: ImportCommandView::Fail { error: local_out_of_sequence() },
        },
    }
}

impl ImportLocal {
    /// Begins an import from the file at `file_path`.
    pub fn begin(file_path: String) -> (r: (ImportLocal, Option<ProgressPayload>, ImportCommand))
        ensures
            r.0.step == import_first_move(file_path@).step,
            report_view(r.1) == import_first_move(file_path@).report,
            r.2@ == import_first_move(file_path@).command,
    {
        (
            ImportLocal { step: ImportStep::OpeningFile },
            Some(ProgressPayload::at("backup.progress.preparing", 20)),
            ImportCommand::OpenFile { path: file_path },
        )
    }

    /// Takes in what happened and says what to do next.
    pub fn advance(&mut self, event: ImportEvent) -> (r: (Option<ProgressPayload>, ImportCommand))
        ensures
            final(self).step == import_next_move(old(self).step, event@).step,
            report_view(r.0) == import_next_move(old(self).step, event@).report,
            r.1@ == import_next_move(old(self).step, event@).command,
    {
        let step = self.step;
        match step {
            ImportStep::Done => {
                return (None, ImportCommand::Nothing);
            },
            ImportStep::Failed => {
                return (None, ImportCommand::Nothing);
            },
            _ => {},
        }
        match (step, event) {
            (ImportStep::OpeningFile, ImportEvent::FileOpened) => {
                self.step = ImportStep::Unpacking;
                (Some(ProgressPayload::at("backup.progress.extracting", 50)), ImportCommand::Unpack)
            },
            (ImportStep::OpeningFile, ImportEvent::FileMissing { reason }) => {
                self.step = ImportStep::Failed;
                (
                    None,
                    ImportCommand::Fail {
                        error: BackupError {
                            kind: ErrorKind::Io,
                            message: concat("Failed to open file: ", reason.as_str()),
                        },
                    },
                )
            },
            (ImportStep::Unpacking, ImportEvent::Unpacked) => {
                self.step = ImportStep::Done;
                (Some(ProgressPayload::at("backup.progress.complete", 100)), ImportCommand::Finish)
            },
            (ImportStep::Unpacking, ImportEvent::UnpackFailed { error }) => {
                self.step = ImportStep::Failed;
                (None, ImportCommand::Fail { error })
            },
            _ => {
                self.step = ImportStep::Failed;
                (
                    None,
                    ImportCommand::Fail {
                        error: BackupError::new(ErrorKind::Io, "Operation out of sequence"),
                    },
                )
            },
        }
    }
}

/// An import unpacks only a file that it has opened.
pub proof fn import_unpacks_opened_file_only(step: ImportStep, event: ImportEventView)
    requires
        import_next_move(step, event).command == ImportCommandView::Unpack,
    ensures
        step == ImportStep::OpeningFile,
        event == ImportEventView::FileOpened,
{
}

} // verus!
