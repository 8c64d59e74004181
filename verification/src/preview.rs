//! The first phase of a restore, step by step: the archive is fetched into
//! a temporary file and its metadata read for a preview. Nothing of the
//! destination is touched. The caller does what a command asks and hands
//! back what happened; the order and every decision are made here.

use vstd::prelude::*;
use crate::archive::{metadata_text, read_metadata_text};
use crate::backup::{
    needs_vault, resolve_password, resolved_password, restore_temp_file_name, restore_temp_name,
};
use crate::error::{fault, BackupError, ErrorKind, Fault};
use crate::text::optional_text;
use crate::models::{BackupMetadata, MetadataView, PreviewView, RestorePreview};
use crate::progress::{checkpoint, ProgressPayload, ProgressView};
use crate::restore::{next_stage, report_view, Signal, Stage};
use crate::webdav::{
    download_file, download_progress, download_request, downloading_label, request_for, verdict,
    Download, Exchange, ExchangeView, Operation, Request, RequestView,
};

verus! {

/// Where the first phase of a restore stands: what it waits for.
#[derive(Clone, Copy, Debug, PartialEq, Eq, Structural)]
pub enum PreviewStep {
    ReadingVault,
    AwaitingAnswer,
    Receiving,
    ReadingClock,
    WritingTempFile,
    ParsingMetadata,
    Done,
    Failed,
}

/// What happened to the last thing that was asked for.
#[derive(Debug)]
pub enum PreviewEvent {
    /// The vault file was read; `stored` is what it holds, `None` where it
    /// is absent.
    VaultRead { stored: Option<String> },
    /// The download request was sent; `content_length` is the size that the
    /// server named, if it named one.
    Answered { outcome: Exchange, content_length: Option<u64> },
    /// One more chunk of the body came.
    Chunk { bytes: Vec<u8> },
    /// A chunk did not come.
    ChunkFailed { reason: String },
    /// The body is complete.
    BodyEnded,
    /// The clock was read: the seconds since the Unix epoch.
    ClockRead { seconds: i64 },
    /// The temporary file is written; this is its path.
    TempFileWritten { path: String },
    TempFileFailed { reason: String },
    /// The text of the metadata was parsed; `None` where it is no metadata.
    MetadataParsed { metadata: Option<BackupMetadata> },
}

/// The mathematical value of a `PreviewEvent`.
pub enum PreviewEventView {
    VaultRead { stored: Option<Seq<char>> },
    Answered { outcome: ExchangeView, content_length: Option<u64> },
    Chunk { bytes: Seq<u8> },
    ChunkFailed { reason: Seq<char> },
    BodyEnded,
    ClockRead { seconds: int },
    TempFileWritten { path: Seq<char> },
    TempFileFailed { reason: Seq<char> },
    MetadataParsed { metadata: Option<MetadataView> },
}

/// The value of optional metadata.
pub open spec fn optional_metadata(metadata: Option<BackupMetadata>) -> Option<MetadataView> {
    match metadata {
        Some(m) => Some(m@),
        None => None,
    }
}

impl View for PreviewEvent {
    type V = PreviewEventView;

    open spec fn view(&self) -> PreviewEventView {
        match self {
            PreviewEvent::VaultRead { stored } => PreviewEventView::VaultRead {
                stored: optional_text(*stored),
            },
            PreviewEvent::Answered { outcome, content_length } => PreviewEventView::Answered {
                outcome: outcome@,
                content_length: *content_length,
            },
            PreviewEvent::Chunk { bytes } => PreviewEventView::Chunk { bytes: bytes@ },
            PreviewEvent::ChunkFailed { reason } => PreviewEventView::ChunkFailed {
                reason: reason@,
            },
            PreviewEvent::BodyEnded => PreviewEventView::BodyEnded,
            PreviewEvent::ClockRead { seconds } => PreviewEventView::ClockRead {
                seconds: *seconds as int,
            },
            PreviewEvent::TempFileWritten { path } => PreviewEventView::TempFileWritten {
                path: path@,
            },
            PreviewEvent::TempFileFailed { reason } => PreviewEventView::TempFileFailed {
                reason: reason@,
            },
            PreviewEvent::MetadataParsed { metadata } => PreviewEventView::MetadataParsed {
                metadata: optional_metadata(*metadata),
            },
        }
    }
}

/// What the caller is asked to do next.
#[derive(Debug)]
pub enum PreviewCommand {
    /// Read the vault file.
    ReadVault,
    /// Send this request and report how it was answered.
    Download { request: Request },
    /// Read the next chunk of the body.
    ReadChunk,
    /// Read the clock.
    ReadClock,
    /// Write what was received to a temporary file of this name.
    WriteTempFile { name: String },
    /// Parse this text as metadata.
    ParseMetadata { text: String },
    /// Report success with this preview.
    Finish { preview: RestorePreview },
    /// Report the failure.
    Fail { error: BackupError },
    /// Nothing: the operation has ended.
    Nothing,
}

/// The mathematical value of a `PreviewCommand`.
pub enum PreviewCommandView {
    ReadVault,
    Download { request: RequestView },
    ReadChunk,
    ReadClock,
    WriteTempFile { name: Seq<char> },
    ParseMetadata { text: Seq<char> },
    Finish { preview: PreviewView },
    Fail { error: Fault },
    Nothing,
}

impl View for PreviewCommand {
    type V = PreviewCommandView;

    open spec fn view(&self) -> PreviewCommandView {
        match self {
            PreviewCommand::ReadVault => PreviewCommandView::ReadVault,
            PreviewCommand::Download { request } => PreviewCommandView::Download {
                request: request@,
            },
            PreviewCommand::ReadChunk => PreviewCommandView::ReadChunk,
            PreviewCommand::ReadClock => PreviewCommandView::ReadClock,
            PreviewCommand::WriteTempFile { name } => PreviewCommandView::WriteTempFile {
                name: name@,
            },
            PreviewCommand::ParseMetadata { text } => PreviewCommandView::ParseMetadata {
                text: text@,
            },
            PreviewCommand::Finish { preview } => PreviewCommandView::Finish { preview: preview@ },
            PreviewCommand::Fail { error } => PreviewCommandView::Fail { error: error@ },
            PreviewCommand::Nothing => PreviewCommandView::Nothing,
        }
    }
}

/// The first phase of a restore under way.
#[derive(Debug)]
pub struct PrepareRestore {
    pub step: PreviewStep,
    pub url: String,
    pub username: String,
    /// The password as the caller gave it.
    pub argument: Option<String>,
    /// The name of the backup on the server.
    pub filename: String,
    /// The size that the server named; 0 where it named none.
    pub total_size: u64,
    /// What has been received of the archive.
    pub content: Vec<u8>,
    /// The path of the temporary file; empty until it is written.
    pub temp_file_path: String,
}

/// The mathematical value of a `PrepareRestore`.
pub struct PrepareView {
    pub step: PreviewStep,
    pub url: Seq<char>,
    pub username: Seq<char>,
    pub argument: Option<Seq<char>>,
    pub filename: Seq<char>,
    pub total_size: u64,
    pub content: Seq<u8>,
    pub temp_file_path: Seq<char>,
}

impl View for PrepareRestore {
    type V = PrepareView;

    open spec fn view(&self) -> PrepareView {
        PrepareView {
            step: self.step,
            url: self.url@,
            username: self.username@,
            argument: optional_text(self.argument),
            filename: self.filename@,
            total_size: self.total_size,
            content: self.content@,
            temp_file_path: self.temp_file_path@,
        }
    }
}

/// One move: the state afterwards, what is reported as progress, and what
/// is asked for.
pub struct PreviewMove {
    pub state: PrepareView,
    pub report: Option<ProgressView>,
    pub command: PreviewCommandView,
}

/// The stage of the operation at a step.
pub open spec fn preview_stage(step: PreviewStep) -> Stage {
    match step {
        PreviewStep::ReadingVault => Stage::Preparing,
        PreviewStep::AwaitingAnswer => Stage::Transferring,
        PreviewStep::Receiving => Stage::Transferring,
        PreviewStep::ReadingClock => Stage::Transferring,
        PreviewStep::WritingTempFile => Stage::Transferring,
        PreviewStep::ParsingMetadata => Stage::Transferring,
        PreviewStep::Done => Stage::Previewed,
        PreviewStep::Failed => Stage::Failed,
    }
}

/// The start of the range of the whole operation's progress in which the
/// download runs.
pub open spec fn download_range_start() -> u8 {
    20
}

/// The width of that range.
pub open spec fn download_range_span() -> u8 {
    60
}

/// The fault of an event that was not waited for.
pub open spec fn preview_out_of_sequence() -> Fault {
    fault(ErrorKind::Io, "Restore out of sequence"@)
}

/// The move that ends the operation with `error`.
pub open spec fn preview_failure(state: PrepareView, error: Fault) -> PreviewMove {
    PreviewMove {
        state: PrepareView { step: PreviewStep::Failed, ..state },
        report: None,
        command: PreviewCommandView::Fail { error },
    }
}

/// The move that asks for the download with the resolved password.
pub open spec fn preview_download(state: PrepareView, password: Seq<char>) -> PreviewMove {
    PreviewMove {
        state: PrepareView { step: PreviewStep::AwaitingAnswer, ..state },
        report: None,
        command: PreviewCommandView::Download {
            request: request_for(
                Operation::Download,
                state.url,
                state.username,
                password,
                state.filename,
                Seq::empty(),
            ),
        },
    }
}

/// The move that ends the operation with a preview.
pub open spec fn preview_finish(state: PrepareView, metadata: Option<MetadataView>) -> PreviewMove {
    PreviewMove {
        state: PrepareView { step: PreviewStep::Done, ..state },
        report: Some(checkpoint("backup.progress.complete"@, 100)),
        command: PreviewCommandView::Finish {
            preview: PreviewView { temp_file_path: state.temp_file_path, metadata },
        },
    }
}

/// The first move. Progress is reported; the vault is asked for unless a
/// password that is not empty was given, in which case the download is
/// asked for with that password.
pub open spec fn preview_first_move(
    url: Seq<char>,
    username: Seq<char>,
    argument: Option<Seq<char>>,
    filename: Seq<char>,
) -> PreviewMove {
    let start = PrepareView {
        step: PreviewStep::ReadingVault,
        url,
        username,
        argument,
        filename,
        total_size: 0,
        content: Seq::empty(),
        temp_file_path: Seq::empty(),
    };
    let report = Some(checkpoint("backup.progress.preparing"@, 5));
    if argument is Some && argument->Some_0.len() > 0 {
        PreviewMove { report, ..preview_download(start, argument->Some_0) }
    } else {
        PreviewMove { state: start, report, command: PreviewCommandView::ReadVault }
    }
}

/// The move that answers `event` in `state`.
///
/// - The vault read: the password is resolved; without one the operation
///   fails with a fault of kind `Auth`, else the download is asked for.
/// - Answered: on a status that a download does not accept, and where no
///   answer came, the operation fails with the verdict; else the download
///   is reported at the start of its range and the first chunk asked for.
/// - A chunk: it is put behind what came before, the progress is reported
///   and the next chunk asked for. A chunk that did not come: a fault of
///   kind `Network`.
/// - The body ended: the clock is asked for. The clock read: the writing
///   of the temporary file is asked for, named by the second.
/// - The temporary file written: where the archive holds a metadata text,
///   its parsing is asked for; else the preview is without metadata. The
///   temporary file not written: a fault of kind `Io`.
/// - The metadata parsed: the preview holds what was parsed.
/// - Any other event before the end: a fault of kind `Io`. After the end:
///   nothing.
pub open spec fn preview_next_move(state: PrepareView, event: PreviewEventView) -> PreviewMove {
    match (state.step, event) {
        (PreviewStep::Done, _) => PreviewMove {
            state,
            report: None,
            command: PreviewCommandView::Nothing,
        },
        (PreviewStep::Failed, _) => PreviewMove {
            state,
            report: None,
            command: PreviewCommandView::Nothing,
        },
        (PreviewStep::ReadingVault, PreviewEventView::VaultRead { stored }) => {
            match resolved_password(state.argument, stored) {
                Ok(password) => preview_download(state, password),
                Err(f) => preview_failure(state, f),
            }
        },
        (PreviewStep::AwaitingAnswer, PreviewEventView::Answered { outcome, content_length }) => {
            match verdict(Operation::Download, outcome) {
                Err(f) => preview_failure(state, f),
                Ok(_) => PreviewMove {
                    state: PrepareView {
                        step: PreviewStep::Receiving,
                        total_size: match content_length {
                            Some(n) => n,
                            None => 0,
                        },
                        content: Seq::empty(),
                        ..state
                    },
                    report: Some(checkpoint(downloading_label(), download_range_start() as int)),
                    command: PreviewCommandView::ReadChunk,
                },
            }
        },
        (PreviewStep::Receiving, PreviewEventView::Chunk { bytes }) => PreviewMove {
            state: PrepareView { content: state.content + bytes, ..state },
            report: Some(
                ProgressView {
                    message: downloading_label(),
                    progress: download_progress(
                        state.total_size,
                        (state.content + bytes).len(),
                        download_range_start(),
                        download_range_span(),
                    ),
                },
            ),
            command: PreviewCommandView::ReadChunk,
        },
        (PreviewStep::Receiving, PreviewEventView::ChunkFailed { reason }) => preview_failure(
            state,
            fault(ErrorKind::Network, "Chunk error: "@ + reason),
        ),
        (PreviewStep::Receiving, PreviewEventView::BodyEnded) => PreviewMove {
            state: PrepareView { step: PreviewStep::ReadingClock, ..state },
            report: Some(checkpoint("backup.progress.analyzing"@, 90)),
            command: PreviewCommandView::ReadClock,
        },
        (PreviewStep::ReadingClock, PreviewEventView::ClockRead { seconds }) => PreviewMove {
            state: PrepareView { step: PreviewStep::WritingTempFile, ..state },
            report: None,
            command: PreviewCommandView::WriteTempFile { name: restore_temp_name(seconds) },
        },
        (PreviewStep::WritingTempFile, PreviewEventView::TempFileWritten { path }) => {
            let written = PrepareView { temp_file_path: path, content: Seq::empty(), ..state };
            match metadata_text(state.content) {
                Some(text) => PreviewMove {
                    state: PrepareView { step: PreviewStep::ParsingMetadata, ..written },
                    report: None,
                    command: PreviewCommandView::ParseMetadata { text },
                },
                None => preview_finish(written, None),
            }
        },
        (PreviewStep::WritingTempFile, PreviewEventView::TempFileFailed { reason }) => {
            preview_failure(state, fault(ErrorKind::Io, reason))
        },
        (PreviewStep::ParsingMetadata, PreviewEventView::MetadataParsed { metadata }) => {
            preview_finish(state, metadata)
        },
        _ => preview_failure(state, preview_out_of_sequence()),
    }
}

impl PrepareRestore {
    /// Begins the first phase of a restore.
    pub fn begin(url: String, username: String, password: Option<String>, filename: String) -> (r: (
        PrepareRestore,
        Option<ProgressPayload>,
        PreviewCommand,
    ))
        ensures
            ({
                let first = preview_first_move(
                    url@,
                    username@,
                    optional_text(password),
                    filename@,
                );
                &&& r.0@ == first.state
                &&& report_view(r.1) == first.report
                &&& r.2@ == first.command
            }),
    {
        let report = Some(ProgressPayload::at("backup.progress.preparing", 5));
        let wait_for_vault = needs_vault(&password);
        let mut state = PrepareRestore {
            step: PreviewStep::ReadingVault,
            url,
            username,
            argument: password,
            filename,
            total_size: 0,
            content: Vec::new(),
            temp_file_path: String::new(),
        };
        if wait_for_vault {
            (state, report, PreviewCommand::ReadVault)
        } else {
            let given = match &state.argument {
                Some(p) => p.clone(),
                None => String::new(),
            };
            let command = state.ask_for_download(given.as_str());
            (state, report, command)
        }
    }

    /// Asks for the download with the resolved password.
    fn ask_for_download(&mut self, password: &str) -> (command: PreviewCommand)
        ensures
            final(self)@ == preview_download(old(self)@, password@).state,
            command@ == preview_download(old(self)@, password@).command,
    {
        self.step = PreviewStep::AwaitingAnswer;
        PreviewCommand::Download {
            request: download_request(
                self.url.as_str(),
                self.username.as_str(),
                password,
                self.filename.as_str(),
            ),
        }
    }

    /// Ends the operation with `error`.
    fn fail(&mut self, error: BackupError) -> (r: (Option<ProgressPayload>, PreviewCommand))
        ensures
            final(self)@ == preview_failure(old(self)@, error@).state,
            report_view(r.0) == preview_failure(old(self)@, error@).report,
            r.1@ == preview_failure(old(self)@, error@).command,
    {
        self.step = PreviewStep::Failed;
        (None, PreviewCommand::Fail { error })
    }

    /// Ends the operation with a preview.
    fn finish(&mut self, metadata: Option<BackupMetadata>) -> (r: (
        Option<ProgressPayload>,
        PreviewCommand,
    ))
        ensures
            final(self)@ == preview_finish(old(self)@, optional_metadata(metadata)).state,
            report_view(r.0) == preview_finish(old(self)@, optional_metadata(metadata)).report,
            r.1@ == preview_finish(old(self)@, optional_metadata(metadata)).command,
    {
        self.step = PreviewStep::Done;
        (
            Some(ProgressPayload::at("backup.progress.complete", 100)),
            PreviewCommand::Finish {
                preview: RestorePreview { temp_file_path: self.temp_file_path.clone(), metadata },
            },
        )
    }

    /// What has been received of the archive: what the temporary file is to
    /// hold.
    pub fn received(&self) -> (content: &Vec<u8>)
        ensures
            content@ == self@.content,
    {
        &self.content
    }

    /// Takes in what happened and says what to do next.
    pub fn advance(&mut self, event: PreviewEvent) -> (r: (Option<ProgressPayload>, PreviewCommand))
        ensures
            final(self)@ == preview_next_move(old(self)@, event@).state,
            report_view(r.0) == preview_next_move(old(self)@, event@).report,
            r.1@ == preview_next_move(old(self)@, event@).command,
    {
        let step = self.step;
        match step {
            PreviewStep::Done => {
                return (None, PreviewCommand::Nothing);
            },
            PreviewStep::Failed => {
                return (None, PreviewCommand::Nothing);
            },
            _ => {},
        }
        match (step, event) {
            (PreviewStep::ReadingVault, PreviewEvent::VaultRead { stored }) => {
                let argument = self.argument.clone();
                let resolved = match &stored {
                    Some(blob) => resolve_password(argument, Some(blob.as_str())),
                    None => resolve_password(argument, None),
                };
                match resolved {
                    Ok(password) => {
                        let command = self.ask_for_download(password.as_str());
                        (None, command)
                    },
                    Err(e) => self.fail(e),
                }
            },
            (PreviewStep::AwaitingAnswer, PreviewEvent::Answered { outcome, content_length }) => {
                match download_file(&outcome, content_length, 20, 60) {
                    Err(e) => self.fail(e),
                    Ok((download, report)) => {
                        self.total_size = download.total_size;
                        self.content = download.content;
                        self.step = PreviewStep::Receiving;
                        (Some(report), PreviewCommand::ReadChunk)
                    },
                }
            },
            (PreviewStep::Receiving, PreviewEvent::Chunk { bytes }) => {
                let mut download = Download {
                    total_size: self.total_size,
                    content: Vec::new(),
                    range_start: 20,
                    range_span: 60,
                };
                core::mem::swap(&mut download.content, &mut self.content);
                let report = download.receive(bytes.as_slice());
                self.content = download.content;
                (Some(report), PreviewCommand::ReadChunk)
            },
            (PreviewStep::Receiving, PreviewEvent::ChunkFailed { reason }) => self.fail(
                Download::interrupted(reason.as_str()),
            ),
            (PreviewStep::Receiving, PreviewEvent::BodyEnded) => {
                self.step = PreviewStep::ReadingClock;
                (Some(ProgressPayload::at("backup.progress.analyzing", 90)), PreviewCommand::ReadClock)
            },
            (PreviewStep::ReadingClock, PreviewEvent::ClockRead { seconds }) => {
                self.step = PreviewStep::WritingTempFile;
                (None, PreviewCommand::WriteTempFile { name: restore_temp_file_name(seconds) })
            },
            (PreviewStep::WritingTempFile, PreviewEvent::TempFileWritten { path }) => {
                let mut content: Vec<u8> = Vec::new();
                core::mem::swap(&mut content, &mut self.content);
                self.temp_file_path = path;
                match read_metadata_text(content) {
                    Some(text) => {
                        self.step = PreviewStep::ParsingMetadata;
                        (None, PreviewCommand::ParseMetadata { text })
                    },
                    None => self.finish(None),
                }
            },
            (PreviewStep::WritingTempFile, PreviewEvent::TempFileFailed { reason }) => self.fail(
                BackupError { kind: ErrorKind::Io, message: reason },
            ),
            (PreviewStep::ParsingMetadata, PreviewEvent::MetadataParsed { metadata }) => {
                self.finish(metadata)
            },
            _ => self.fail(BackupError::new(ErrorKind::Io, "Restore out of sequence")),
        }
    }
}

/// Without a password no request is made: where the caller gave no
/// password, or an empty one, and the vault yields none, the operation
/// fails with a fault of kind `Auth` at once, and asks for nothing
/// afterwards, whatever happens.
pub proof fn missing_password_fails_before_download(
    url: Seq<char>,
    username: Seq<char>,
    argument: Option<Seq<char>>,
    filename: Seq<char>,
    stored: Option<Seq<char>>,
    later: PreviewEventView,
)
    requires
        argument is None || argument->Some_0.len() == 0,
        crate::vault::stored_password(stored) is Err,
    ensures
        ({
            let first = preview_first_move(url, username, argument, filename);
            let second = preview_next_move(first.state, PreviewEventView::VaultRead { stored });
            &&& first.command == PreviewCommandView::ReadVault
            &&& second.state.step == PreviewStep::Failed
            &&& second.command == (PreviewCommandView::Fail {
                error: fault(ErrorKind::Auth, "Password required"@),
            })
            &&& preview_next_move(second.state, later).command == PreviewCommandView::Nothing
        }),
{
}

/// The download is asked for at one point only: at the start with a given
/// password, or when the vault has been read.
pub proof fn download_follows_password(state: PrepareView, event: PreviewEventView)
    requires
        preview_next_move(state, event).command is Download,
    ensures
        state.step == PreviewStep::ReadingVault,
        event is VaultRead,
        resolved_password(state.argument, event->VaultRead_stored) is Ok,
{
}

/// A preview is handed out only once the temporary file is written: the
/// path of the preview is the path of that file.
pub proof fn preview_follows_temp_file(state: PrepareView, event: PreviewEventView)
    requires
        preview_next_move(state, event).command is Finish,
    ensures
        state.step == PreviewStep::WritingTempFile && event is TempFileWritten
            && preview_next_move(state, event).command->Finish_preview.temp_file_path
            == event->TempFileWritten_path || state.step == PreviewStep::ParsingMetadata
            && preview_next_move(state, event).command->Finish_preview.temp_file_path
            == state.temp_file_path,
{
}

/// A text that is no metadata does not fail the preview: whatever the
/// parsing gives, the operation ends with a preview.
pub proof fn unparsed_metadata_is_not_fatal(state: PrepareView, metadata: Option<MetadataView>)
    requires
        state.step == PreviewStep::ParsingMetadata,
    ensures
        preview_next_move(state, PreviewEventView::MetadataParsed { metadata }).state.step
            == PreviewStep::Done,
        preview_next_move(state, PreviewEventView::MetadataParsed { metadata }).command == (
        PreviewCommandView::Finish {
            preview: PreviewView { temp_file_path: state.temp_file_path, metadata },
        }),
{
}

/// Each chunk moves the reported progress forward or leaves it where it
/// was.
pub proof fn chunks_never_lower_progress(state: PrepareView, bytes: Seq<u8>)
    requires
        state.step == PreviewStep::Receiving,
        state.content.len() + bytes.len() <= u64::MAX,
    ensures
        download_progress(
            state.total_size,
            state.content.len(),
            download_range_start(),
            download_range_span(),
        ).at_most(
            preview_next_move(state, PreviewEventView::Chunk { bytes }).report->Some_0.progress,
        ),
{
    crate::webdav::download_progress_never_falls(
        state.total_size,
        state.content.len(),
        (state.content + bytes).len(),
        download_range_start(),
        download_range_span(),
    );
}

/// Each move keeps the stage of the operation or takes it one signal
/// further: prepared, downloaded or failed.
pub proof fn preview_moves_follow_stages(state: PrepareView, event: PreviewEventView)
    ensures
        ({
            let before = preview_stage(state.step);
            let after = preview_stage(preview_next_move(state, event).state.step);
            after == before || after == next_stage(before, Signal::Prepared) || after
                == next_stage(before, Signal::Downloaded) || after == next_stage(
                before,
                Signal::Failure,
            )
        }),
{
}

} // verus!
