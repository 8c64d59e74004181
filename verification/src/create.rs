//! The making of a cloud backup, step by step. The caller does what a
//! command asks (it reads the vault or the clock, packs, sends) and hands
//! back what happened; the order and every decision are made here.

use vstd::prelude::*;
use crate::backup::{
    backup_file_name, backup_name, needs_vault, resolve_password, resolved_password, LocalTime,
};
use crate::error::{fault, BackupError, ErrorKind, Fault};
use crate::text::optional_text;
use crate::models::{BackupMetadata, MetadataView};
use crate::progress::{checkpoint, ProgressPayload, ProgressView};
use crate::restore::{is_terminal, next_stage, report_view, Signal, Stage};
use crate::text::concat;
use crate::webdav::{
    request_for, upload_file, upload_request, verdict, Exchange, ExchangeView, Operation, Request,
    RequestView,
};

verus! {

/// Where the making of a backup stands: what it waits for.
#[derive(Clone, Copy, Debug, PartialEq, Eq, Structural)]
pub enum CreateStep {
    ReadingVault,
    ReadingClock,
    Packing,
    Uploading,
    RemovingTempFile,
    Done,
    Failed,
}

/// What happened to the last thing that was asked for.
#[derive(Debug)]
pub enum CreateEvent {
    /// The vault file was read; `stored` is what it holds, `None` where it
    /// is absent.
    VaultRead { stored: Option<String> },
    /// The clock was read: the local time, the milliseconds since the Unix
    /// epoch, and the name of the platform.
    ClockRead { now: LocalTime, millis: i64, platform: String },
    /// The archive was packed into the temporary file; these are its bytes.
    Packed { bytes: Vec<u8> },
    PackFailed { error: BackupError },
    /// The upload request was sent.
    Answered { outcome: Exchange },
    /// The temporary file is gone, or could not be removed, which is as
    /// good.
    TempFileRemoved,
}

/// The mathematical value of a `CreateEvent`.
pub enum CreateEventView {
    VaultRead { stored: Option<Seq<char>> },
    ClockRead { now: LocalTime, millis: int, platform: Seq<char> },
    Packed { bytes: Seq<u8> },
    PackFailed { error: Fault },
    Answered { outcome: ExchangeView },
    TempFileRemoved,
}

impl View for CreateEvent {
    type V = CreateEventView;

    open spec fn view(&self) -> CreateEventView {
        match self {
            CreateEvent::VaultRead { stored } => CreateEventView::VaultRead {
                stored: optional_text(*stored),
            },
            CreateEvent::ClockRead { now, millis, platform } => CreateEventView::ClockRead {
                now: *now,
                millis: *millis as int,
                platform: platform@,
            },
            CreateEvent::Packed { bytes } => CreateEventView::Packed { bytes: bytes@ },
            CreateEvent::PackFailed { error } => CreateEventView::PackFailed { error: error@ },
            CreateEvent::Answered { outcome } => CreateEventView::Answered { outcome: outcome@ },
            CreateEvent::TempFileRemoved => CreateEventView::TempFileRemoved,
        }
    }
}

/// What the caller is asked to do next.
#[derive(Debug)]
pub enum CreateCommand {
    /// Read the vault file.
    ReadVault,
    /// Read the clock.
    ReadClock,
    /// Pack the configuration directory, with this metadata, into a
    /// temporary file of this name.
    Pack { filename: String, metadata: BackupMetadata },
    /// Send this request.
    Upload { request: Request },
    /// Remove the temporary file, and do not mind if that fails.
    RemoveTempFile { filename: String },
    /// Report success with this message.
    Finish { message: String },
    /// Report the failure.
    Fail { error: BackupError },
    /// Nothing: the operation has ended.
    Nothing,
}

/// The mathematical value of a `CreateCommand`.
pub enum CreateCommandView {
    ReadVault,
    ReadClock,
    Pack { filename: Seq<char>, metadata: MetadataView },
    Upload { request: RequestView },
    RemoveTempFile { filename: Seq<char> },
    Finish { message: Seq<char> },
    Fail { error: Fault },
    Nothing,
}

impl View for CreateCommand {
    type V = CreateCommandView;

    open spec fn view(&self) -> CreateCommandView {
        match self {
            CreateCommand::ReadVault => CreateCommandView::ReadVault,
            CreateCommand::ReadClock => CreateCommandView::ReadClock,
            CreateCommand::Pack { filename, metadata } => CreateCommandView::Pack {
                filename: filename@,
                metadata: metadata@,
            },
            CreateCommand::Upload { request } => CreateCommandView::Upload { request: request@ },
            CreateCommand::RemoveTempFile { filename } => CreateCommandView::RemoveTempFile {
                filename: filename@,
            },
            CreateCommand::Finish { message } => CreateCommandView::Finish { message: message@ },
            CreateCommand::Fail { error } => CreateCommandView::Fail { error: error@ },
            CreateCommand::Nothing => CreateCommandView::Nothing,
        }
    }
}

/// The making of a cloud backup under way.
#[derive(Debug)]
pub struct CreateBackup {
    pub step: CreateStep,
    pub url: String,
    pub username: String,
    /// The password as the caller gave it.
    pub argument: Option<String>,
    pub device_name: String,
    pub device_id: String,
    /// The resolved password; empty until it is resolved.
    pub password: String,
    /// The name of the backup; empty until the clock is read.
    pub filename: String,
    /// Why packing or the upload failed, if one did.
    pub failure: Option<BackupError>,
}

/// The mathematical value of a `CreateBackup`.
pub struct CreateView {
    pub step: CreateStep,
    pub url: Seq<char>,
    pub username: Seq<char>,
    pub argument: Option<Seq<char>>,
    pub device_name: Seq<char>,
    pub device_id: Seq<char>,
    pub password: Seq<char>,
    pub filename: Seq<char>,
    pub failure: Option<Fault>,
}

impl View for CreateBackup {
    type V = CreateView;

    open spec fn view(&self) -> CreateView {
        CreateView {
            step: self.step,
            url: self.url@,
            username: self.username@,
            argument: optional_text(self.argument),
            device_name: self.device_name@,
            device_id: self.device_id@,
            password: self.password@,
            filename: self.filename@,
            failure: match self.failure {
                Some(e) => Some(e@),
                None => None,
            },
        }
    }
}

/// One move: the state afterwards, what is reported as progress, and what
/// is asked for.
pub struct CreateMove {
    pub state: CreateView,
    pub report: Option<ProgressView>,
    pub command: CreateCommandView,
}

/// The stage of the operation at a step.
pub open spec fn create_stage(step: CreateStep) -> Stage {
    match step {
        CreateStep::ReadingVault => Stage::Preparing,
        CreateStep::ReadingClock => Stage::Preparing,
        CreateStep::Packing => Stage::Preparing,
        CreateStep::Uploading => Stage::Transferring,
        CreateStep::RemovingTempFile => Stage::Transferring,
        CreateStep::Done => Stage::Complete,
        CreateStep::Failed => Stage::Failed,
    }
}

/// The fault of an event that was not waited for.
pub open spec fn create_out_of_sequence() -> Fault {
    fault(ErrorKind::Io, "Backup out of sequence"@)
}

/// The move that ends the operation with `error`.
pub open spec fn create_failure(state: CreateView, error: Fault) -> CreateMove {
    CreateMove {
        state: CreateView { step: CreateStep::Failed, ..state },
        report: None,
        command: CreateCommandView::Fail { error },
    }
}

/// The first move. Progress is reported; the vault is asked for unless a
/// password that is not empty was given, in which case that is the
/// password and the clock is asked for.
pub open spec fn create_first_move(
    url: Seq<char>,
    username: Seq<char>,
    argument: Option<Seq<char>>,
    device_name: Seq<char>,
    device_id: Seq<char>,
) -> CreateMove {
    let given = argument is Some && argument->Some_0.len() > 0;
    CreateMove {
        state: CreateView {
            step: if given {
                CreateStep::ReadingClock
            } else {
                CreateStep::ReadingVault
            },
            url,
            username,
            argument,
            device_name,
            device_id,
            password: if given {
                argument->Some_0
            } else {
                Seq::empty()
            },
            filename: Seq::empty(),
            failure: None,
        },
        report: Some(checkpoint("backup.progress.preparing"@, 10)),
        command: if given {
            CreateCommandView::ReadClock
        } else {
            CreateCommandView::ReadVault
        },
    }
}

/// The move that answers `event` in `state`.
///
/// - The vault read: the password is resolved; without one the operation
///   fails with a fault of kind `Auth`, else the clock is asked for.
/// - The clock read: the backup is named, and packing is asked for.
/// - Packed: the upload of the bytes is asked for. Packing failed: the
///   removal of the temporary file is asked for, so that no partial archive
///   is left.
/// - Answered: the removal of the temporary file is asked for, whatever
///   the answer.
/// - The temporary file removed: the operation ends as packing and upload
///   ended.
/// - Any other event before the end: a fault of kind `Io`. After the end:
///   nothing.
pub open spec fn create_next_move(state: CreateView, event: CreateEventView) -> CreateMove {
    match (state.step, event) {
        (CreateStep::Done, _) => CreateMove {
            state,
            report: None,
            command: CreateCommandView::Nothing,
        },
        (CreateStep::Failed, _) => CreateMove {
            state,
            report: None,
            command: CreateCommandView::Nothing,
        },
        (CreateStep::ReadingVault, CreateEventView::VaultRead { stored }) => match resolved_password(
            state.argument,
            stored,
        ) {
            Ok(password) => CreateMove {
                state: CreateView { step: CreateStep::ReadingClock, password, ..state },
                report: None,
                command: CreateCommandView::ReadClock,
            },
            Err(f) => create_failure(state, f),
        },
        (CreateStep::ReadingClock, CreateEventView::ClockRead { now, millis, platform }) => {
            let filename = backup_name(state.device_name, now);
            CreateMove {
                state: CreateView { step: CreateStep::Packing, filename, ..state },
                report: Some(checkpoint("backup.progress.compressing"@, 30)),
                command: CreateCommandView::Pack {
                    filename,
                    metadata: MetadataView {
                        version: "1.0.0"@,
                        device_id: state.device_id,
                        device_name: state.device_name,
                        timestamp: millis,
                        platform,
                    },
                },
            }
        },
        (CreateStep::Packing, CreateEventView::Packed { bytes }) => CreateMove {
            state: CreateView { step: CreateStep::Uploading, ..state },
            report: Some(checkpoint("backup.progress.uploading"@, 60)),
            command: CreateCommandView::Upload {
                request: request_for(
                    Operation::Upload,
                    state.url,
                    state.username,
                    state.password,
                    state.filename,
                    bytes,
                ),
            },
        },
        (CreateStep::Packing, CreateEventView::PackFailed { error }) => CreateMove {
            state: CreateView {
                step: CreateStep::RemovingTempFile,
                failure: Some(error),
                ..state
            },
            report: None,
            command: CreateCommandView::RemoveTempFile { filename: state.filename },
        },
        (CreateStep::Uploading, CreateEventView::Answered { outcome }) => CreateMove {
            state: CreateView {
                step: CreateStep::RemovingTempFile,
                failure: match verdict(Operation::Upload, outcome) {
                    Ok(_) => None,
                    Err(f) => Some(f),
                },
                ..state
            },
            report: None,
            command: CreateCommandView::RemoveTempFile { filename: state.filename },
        },
        (CreateStep::RemovingTempFile, CreateEventView::TempFileRemoved) => match state.failure {
            None => CreateMove {
                state: CreateView { step: CreateStep::Done, ..state },
                report: Some(checkpoint("backup.progress.complete"@, 100)),
                command: CreateCommandView::Finish {
                    message: "Backup uploaded: "@ + state.filename,
                },
            },
            Some(f) => create_failure(state, f),
        },
        _ => create_failure(state, create_out_of_sequence()),
    }
}

impl CreateBackup {
    /// Begins the making of a cloud backup.
    pub fn begin(
        url: String,
        username: String,
        password: Option<String>,
        device_name: String,
        device_id: String,
    ) -> (r: (CreateBackup, Option<ProgressPayload>, CreateCommand))
        ensures
            ({
                let first = create_first_move(
                    url@,
                    username@,
                    optional_text(password),
                    device_name@,
                    device_id@,
                );
                &&& r.0@ == first.state
                &&& report_view(r.1) == first.report
                &&& r.2@ == first.command
            }),
    {
        let report = Some(ProgressPayload::at("backup.progress.preparing", 10));
        if needs_vault(&password) {
            (
                CreateBackup {
                    step: CreateStep::ReadingVault,
                    url,
                    username,
                    argument: password,
                    device_name,
                    device_id,
                    password: String::new(),
                    filename: String::new(),
                    failure: None,
                },
                report,
                CreateCommand::ReadVault,
            )
        } else {
            let resolved = match &password {
                Some(p) => p.clone(),
                None => String::new(),
            };
            (
                CreateBackup {
                    step: CreateStep::ReadingClock,
                    url,
                    username,
                    argument: password,
                    device_name,
                    device_id,
                    password: resolved,
                    filename: String::new(),
                    failure: None,
                },
                report,
                CreateCommand::ReadClock,
            )
        }
    }

    /// Ends the operation with `error`.
    fn fail(&mut self, error: BackupError) -> (r: (Option<ProgressPayload>, CreateCommand))
        ensures
            final(self)@ == create_failure(old(self)@, error@).state,
            report_view(r.0) == create_failure(old(self)@, error@).report,
            r.1@ == create_failure(old(self)@, error@).command,
    {
        self.step = CreateStep::Failed;
        (None, CreateCommand::Fail { error })
    }

    /// Takes in what happened and says what to do next.
    pub fn advance(&mut self, event: CreateEvent) -> (r: (Option<ProgressPayload>, CreateCommand))
        ensures
            final(self)@ == create_next_move(old(self)@, event@).state,
            report_view(r.0) == create_next_move(old(self)@, event@).report,
            r.1@ == create_next_move(old(self)@, event@).command,
    {
        let step = self.step;
        match step {
            CreateStep::Done => {
                return (None, CreateCommand::Nothing);
            },
            CreateStep::Failed => {
                return (None, CreateCommand::Nothing);
            },
            _ => {},
        }
        match (step, event) {
            (CreateStep::ReadingVault, CreateEvent::VaultRead { stored }) => {
                let argument = self.argument.clone();
                let resolved = match &stored {
                    Some(blob) => resolve_password(argument, Some(blob.as_str())),
                    None => resolve_password(argument, None),
                };
                match resolved {
                    Ok(password) => {
                        self.password = password;
                        self.step = CreateStep::ReadingClock;
                        (None, CreateCommand::ReadClock)
                    },
                    Err(e) => self.fail(e),
                }
            },
            (CreateStep::ReadingClock, CreateEvent::ClockRead { now, millis, platform }) => {
                let filename = backup_file_name(self.device_name.as_str(), now);
                let metadata = BackupMetadata::new(
                    self.device_id.clone(),
                    self.device_name.clone(),
                    millis,
                    platform,
                );
                self.filename = filename.clone();
                self.step = CreateStep::Packing;
                (
                    Some(ProgressPayload::at("backup.progress.compressing", 30)),
                    CreateCommand::Pack { filename, metadata },
                )
            },
            (CreateStep::Packing, CreateEvent::Packed { bytes }) => {
                let request = upload_request(
                    self.url.as_str(),
                    self.username.as_str(),
                    self.password.as_str(),
                    self.filename.as_str(),
                    bytes,
                );
                self.step = CreateStep::Uploading;
                (
                    Some(ProgressPayload::at("backup.progress.uploading", 60)),
                    CreateCommand::Upload { request },
                )
            },
            (CreateStep::Packing, CreateEvent::PackFailed { error }) => {
                self.failure = Some(error);
                self.step = CreateStep::RemovingTempFile;
                (None, CreateCommand::RemoveTempFile { filename: self.filename.clone() })
            },
            (CreateStep::Uploading, CreateEvent::Answered { outcome }) => {
                self.failure = match upload_file(&outcome) {
                    Ok(_) => None,
                    Err(e) => Some(e),
                };
                self.step = CreateStep::RemovingTempFile;
                (None, CreateCommand::RemoveTempFile { filename: self.filename.clone() })
            },
            (CreateStep::RemovingTempFile, CreateEvent::TempFileRemoved) => {
                let failure = match &self.failure {
                    Some(e) => Some(e.duplicate()),
                    None => None,
                };
                match failure {
                    None => {
                        self.step = CreateStep::Done;
                        (
                            Some(ProgressPayload::at("backup.progress.complete", 100)),
                            CreateCommand::Finish {
                                message: concat("Backup uploaded: ", self.filename.as_str()),
                            },
                        )
                    },
                    Some(e) => self.fail(e),
                }
            },
            _ => self.fail(BackupError::new(ErrorKind::Io, "Backup out of sequence")),
        }
    }
}

/// The password of the vault is used where none is given: where the
/// caller gave no password, or an empty one, the vault is asked for first;
/// the password that the vault holds is then the one with which the upload
/// is asked for.
pub proof fn vault_password_is_used(
    url: Seq<char>,
    username: Seq<char>,
    argument: Option<Seq<char>>,
    device_name: Seq<char>,
    device_id: Seq<char>,
    stored: Option<Seq<char>>,
    password: Seq<char>,
    bytes: Seq<u8>,
)
    requires
        argument is None || argument->Some_0.len() == 0,
        crate::vault::stored_password(stored) == Ok::<Seq<char>, Fault>(password),
    ensures
        ({
            let first = create_first_move(url, username, argument, device_name, device_id);
            let second = create_next_move(first.state, CreateEventView::VaultRead { stored });
            &&& first.command == CreateCommandView::ReadVault
            &&& second.command == CreateCommandView::ReadClock
            &&& second.state.password == password
            &&& forall|state: CreateView|
                state.password == password ==> (#[trigger] create_next_move(
                    CreateView { step: CreateStep::Packing, ..state },
                    CreateEventView::Packed { bytes },
                )).command == (CreateCommandView::Upload {
                    request: request_for(
                        Operation::Upload,
                        state.url,
                        state.username,
                        password,
                        state.filename,
                        bytes,
                    ),
                })
        }),
{
}

/// Without a password no request is made: where the caller gave no
/// password, or an empty one, and the vault yields none, the operation
/// fails with a fault of kind `Auth` at once, and asks for nothing
/// afterwards, whatever happens.
pub proof fn missing_password_fails_before_any_request(
    url: Seq<char>,
    username: Seq<char>,
    argument: Option<Seq<char>>,
    device_name: Seq<char>,
    device_id: Seq<char>,
    stored: Option<Seq<char>>,
    later: CreateEventView,
)
    requires
        argument is None || argument->Some_0.len() == 0,
        crate::vault::stored_password(stored) is Err,
    ensures
        ({
            let first = create_first_move(url, username, argument, device_name, device_id);
            let second = create_next_move(first.state, CreateEventView::VaultRead { stored });
            &&& first.command == CreateCommandView::ReadVault
            &&& second.state.step == CreateStep::Failed
            &&& second.command == (CreateCommandView::Fail {
                error: fault(ErrorKind::Auth, "Password required"@),
            })
            &&& create_next_move(second.state, later).command == CreateCommandView::Nothing
            &&& create_next_move(second.state, later).state == second.state
        }),
{
}

/// The upload is asked for at one point only: when the archive is packed,
/// after the vault and the clock have been read.
pub proof fn upload_follows_packing(state: CreateView, event: CreateEventView)
    requires
        create_next_move(state, event).command is Upload,
    ensures
        state.step == CreateStep::Packing,
        event is Packed,
{
}

/// The temporary file is removed whether the upload succeeded or failed:
/// whatever the answer to the upload, its removal is asked for next.
pub proof fn temp_file_is_removed_after_upload(state: CreateView, outcome: ExchangeView)
    requires
        state.step == CreateStep::Uploading,
    ensures
        create_next_move(state, CreateEventView::Answered { outcome }).command == (
        CreateCommandView::RemoveTempFile { filename: state.filename }),
{
}

/// No partial archive is left: where packing fails, the removal of the
/// temporary file is asked for next, and the operation then fails with the
/// fault of packing.
pub proof fn temp_file_is_removed_after_failed_packing(state: CreateView, error: Fault)
    requires
        state.step == CreateStep::Packing,
    ensures
        ({
            let failed = create_next_move(state, CreateEventView::PackFailed { error });
            let removed = create_next_move(failed.state, CreateEventView::TempFileRemoved);
            &&& failed.command == (CreateCommandView::RemoveTempFile { filename: state.filename })
            &&& removed.command == (CreateCommandView::Fail { error })
            &&& removed.state.step == CreateStep::Failed
        }),
{
}

/// Each move keeps the stage of the operation or takes it one signal
/// further: prepared, uploaded or failed.
pub proof fn create_moves_follow_stages(state: CreateView, event: CreateEventView)
    ensures
        ({
            let before = create_stage(state.step);
            let after = create_stage(create_next_move(state, event).state.step);
            after == before || after == next_stage(before, Signal::Prepared) || after
                == next_stage(before, Signal::Uploaded) || after == next_stage(
                before,
                Signal::Failure,
            )
        }),
        is_terminal(create_stage(state.step)) ==> create_next_move(state, event).state == state,
{
}

} // verus!
