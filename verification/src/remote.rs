//! The short operations on the server, step by step: probing it, listing
//! its backups and removing one. Each resolves the password and sends one
//! request. The caller does what a command asks and hands back what
//! happened.

use vstd::prelude::*;
use crate::backup::{needs_vault, resolve_password, resolved_password};
use crate::error::{fault, BackupError, ErrorKind, Fault};
use crate::listing::file_views;
use crate::text::optional_text;
use crate::models::{CloudBackupFile, FileView};
use crate::webdav::{
    body_view, check_connection, check_connection_request, delete_file, delete_request,
    list_files, list_request, listing_of, request_for, verdict, Exchange, ExchangeView, Operation,
    Request, RequestView,
};

verus! {

/// The short operations.
#[derive(Clone, Copy, Debug, PartialEq, Eq, Structural)]
pub enum RemoteTask {
    /// Probe the server.
    Check,
    /// List the backups.
    List,
    /// Remove one backup.
    Delete,
}

/// Where a short operation stands: what it waits for.
#[derive(Clone, Copy, Debug, PartialEq, Eq, Structural)]
pub enum RemoteStep {
    ReadingVault,
    AwaitingAnswer,
    Done,
    Failed,
}

/// What happened to the last thing that was asked for.
#[derive(Debug)]
pub enum RemoteEvent {
    /// The vault file was read; `stored` is what it holds, `None` where it
    /// is absent.
    VaultRead { stored: Option<String> },
    /// The request was sent; `body` is the body of the answer, or the
    /// transport's account of why it could not be read. Only a listing
    /// looks at the body.
    Answered { outcome: Exchange, body: Result<String, String> },
}

/// The mathematical value of a `RemoteEvent`.
pub enum RemoteEventView {
    VaultRead { stored: Option<Seq<char>> },
    Answered { outcome: ExchangeView, body: Result<Seq<char>, Seq<char>> },
}

impl View for RemoteEvent {
    type V = RemoteEventView;

    open spec fn view(&self) -> RemoteEventView {
        match self {
            RemoteEvent::VaultRead { stored } => RemoteEventView::VaultRead {
                stored: optional_text(*stored),
            },
            RemoteEvent::Answered { outcome, body } => RemoteEventView::Answered {
                outcome: outcome@,
                body: body_view(*body),
            },
        }
    }
}

/// What the caller is asked to do next.
#[derive(Debug)]
pub enum RemoteCommand {
    /// Read the vault file.
    ReadVault,
    /// Send this request.
    Send { request: Request },
    /// Report success with this message.
    Finish { message: String },
    /// Report success with this listing.
    FinishListing { files: Vec<CloudBackupFile> },
    /// Report the failure.
    Fail { error: BackupError },
    /// Nothing: the operation has ended.
    Nothing,
}

/// The mathematical value of a `RemoteCommand`.
pub enum RemoteCommandView {
    ReadVault,
    Send { request: RequestView },
    Finish { message: Seq<char> },
    FinishListing { files: Seq<FileView> },
    Fail { error: Fault },
    Nothing,
}

impl View for RemoteCommand {
    type V = RemoteCommandView;

    open spec fn view(&self) -> RemoteCommandView {
        match self {
            RemoteCommand::ReadVault => RemoteCommandView::ReadVault,
            RemoteCommand::Send { request } => RemoteCommandView::Send { request: request@ },
            RemoteCommand::Finish { message } => RemoteCommandView::Finish { message: message@ },
            RemoteCommand::FinishListing { files } => RemoteCommandView::FinishListing {
                files: file_views(files@),
            },
            RemoteCommand::Fail { error } => RemoteCommandView::Fail { error: error@ },
            RemoteCommand::Nothing => RemoteCommandView::Nothing,
        }
    }
}

/// A short operation under way.
#[derive(Debug)]
pub struct RemoteCall {
    pub step: RemoteStep,
    pub task: RemoteTask,
    pub url: String,
    pub username: String,
    /// The password as the caller gave it.
    pub argument: Option<String>,
    /// The name of the backup to remove; not looked at by the other tasks.
    pub filename: String,
}

/// The mathematical value of a `RemoteCall`.
pub struct RemoteView {
    pub step: RemoteStep,
    pub task: RemoteTask,
    pub url: Seq<char>,
    pub username: Seq<char>,
    pub argument: Option<Seq<char>>,
    pub filename: Seq<char>,
}

impl View for RemoteCall {
    type V = RemoteView;

    open spec fn view(&self) -> RemoteView {
        RemoteView {
            step: self.step,
            task: self.task,
            url: self.url@,
            username: self.username@,
            argument: optional_text(self.argument),
            filename: self.filename@,
        }
    }
}

/// One move: the state afterwards and what is asked for.
pub struct RemoteMove {
    pub state: RemoteView,
    pub command: RemoteCommandView,
}

/// The request of a task.
pub open spec fn task_request(state: RemoteView, password: Seq<char>) -> RequestView {
    match state.task {
        RemoteTask::Check => request_for(
            Operation::CheckConnection,
            state.url,
            state.username,
            password,
            Seq::empty(),
            Seq::empty(),
        ),
        RemoteTask::List => request_for(
            Operation::List,
            state.url,
            state.username,
            password,
            Seq::empty(),
            Seq::empty(),
        ),
        RemoteTask::Delete => request_for(
            Operation::Delete,
            state.url,
            state.username,
            password,
            state.filename,
            Seq::empty(),
        ),
    }
}

/// The move that sends the request of the task with the resolved password.
pub open spec fn remote_send(state: RemoteView, password: Seq<char>) -> RemoteMove {
    RemoteMove {
        state: RemoteView { step: RemoteStep::AwaitingAnswer, ..state },
        command: RemoteCommandView::Send { request: task_request(state, password) },
    }
}

/// The move that ends the operation with `error`.
pub open spec fn remote_failure(state: RemoteView, error: Fault) -> RemoteMove {
    RemoteMove {
        state: RemoteView { step: RemoteStep::Failed, ..state },
        command: RemoteCommandView::Fail { error },
    }
}

/// The fault of an event that was not waited for.
pub open spec fn remote_out_of_sequence() -> Fault {
    fault(ErrorKind::Io, "Operation out of sequence"@)
}

/// The first move: the vault is asked for unless a password that is not
/// empty was given, in which case the request is sent with that password.
pub open spec fn remote_first_move(
    task: RemoteTask,
    url: Seq<char>,
    username: Seq<char>,
    argument: Option<Seq<char>>,
    filename: Seq<char>,
) -> RemoteMove {
    let start = RemoteView { step: RemoteStep::ReadingVault, task, url, username, argument, filename };
    if argument is Some && argument->Some_0.len() > 0 {
        remote_send(start, argument->Some_0)
    } else {
        RemoteMove { state: start, command: RemoteCommandView::ReadVault }
    }
}

/// What the answer means to the task: the message of a probe or a removal
/// that succeeded, the listing of a listing that did, the fault of any that
/// failed.
pub open spec fn remote_result(
    state: RemoteView,
    outcome: ExchangeView,
    body: Result<Seq<char>, Seq<char>>,
) -> RemoteMove {
    let done = RemoteView { step: RemoteStep::Done, ..state };
    match state.task {
        RemoteTask::Check => match verdict(Operation::CheckConnection, outcome) {
            Ok(_) => RemoteMove {
                state: done,
                command: RemoteCommandView::Finish { message: "Connection successful"@ },
            },
            Err(f) => remote_failure(state, f),
        },
        RemoteTask::Delete => match verdict(Operation::Delete, outcome) {
            Ok(_) => RemoteMove {
                state: done,
                command: RemoteCommandView::Finish { message: "Deleted successfully"@ },
            },
            Err(f) => remote_failure(state, f),
        },
        RemoteTask::List => match listing_of(outcome, body) {
            Ok(files) => RemoteMove {
                state: done,
                command: RemoteCommandView::FinishListing { files },
            },
            Err(f) => remote_failure(state, f),
        },
    }
}

/// The move that answers `event` in `state`: the vault read, the password
/// is resolved and the request sent, or the operation fails with a fault
/// of kind `Auth`; answered, the operation ends with what the answer means;
/// any other event before the end is a fault of kind `Io`.
pub open spec fn remote_next_move(state: RemoteView, event: RemoteEventView) -> RemoteMove {
    match (state.step, event) {
        (RemoteStep::Done, _) => RemoteMove { state, command: RemoteCommandView::Nothing },
        (RemoteStep::Failed, _) => RemoteMove { state, command: RemoteCommandView::Nothing },
        (RemoteStep::ReadingVault, RemoteEventView::VaultRead { stored }) => {
            match resolved_password(state.argument, stored) {
                Ok(password) => remote_send(state, password),
                Err(f) => remote_failure(state, f),
            }
        },
        (RemoteStep::AwaitingAnswer, RemoteEventView::Answered { outcome, body }) => {
            remote_result(state, outcome, body)
        },
        _ => remote_failure(state, remote_out_of_sequence()),
    }
}

impl RemoteCall {
    /// Begins a short operation. `filename` is the backup to remove; the
    /// other tasks do not look at it.
    pub fn begin(
        task: RemoteTask,
        url: String,
        username: String,
        password: Option<String>,
        filename: String,
    ) -> (r: (RemoteCall, RemoteCommand))
        ensures
            ({
                let first = remote_first_move(
                    task,
                    url@,
                    username@,
                    optional_text(password),
                    filename@,
                );
                &&& r.0@ == first.state
                &&& r.1@ == first.command
            }),
    {
        let wait_for_vault = needs_vault(&password);
        let mut state = RemoteCall {
            step: RemoteStep::ReadingVault,
            task,
            url,
            username,
            argument: password,
            filename,
        };
        if wait_for_vault {
            (state, RemoteCommand::ReadVault)
        } else {
            let given = match &state.argument {
                Some(p) => p.clone(),
                None => String::new(),
            };
            let command = state.send(given.as_str());
            (state, command)
        }
    }

    /// Sends the request of the task with the resolved password.
    fn send(&mut self, password: &str) -> (command: RemoteCommand)
        ensures
            final(self)@ == remote_send(old(self)@, password@).state,
            command@ == remote_send(old(self)@, password@).command,
    {
        self.step = RemoteStep::AwaitingAnswer;
        let request = match self.task {
            RemoteTask::Check => check_connection_request(
                self.url.as_str(),
                self.username.as_str(),
                password,
            ),
            RemoteTask::List => list_request(self.url.as_str(), self.username.as_str(), password),
            RemoteTask::Delete => delete_request(
                self.url.as_str(),
                self.username.as_str(),
                password,
                self.filename.as_str(),
            ),
        };
        RemoteCommand::Send { request }
    }

    /// Ends the operation with `error`.
    fn fail(&mut self, error: BackupError) -> (command: RemoteCommand)
        ensures
            final(self)@ == remote_failure(old(self)@, error@).state,
            command@ == remote_failure(old(self)@, error@).command,
    {
        self.step = RemoteStep::Failed;
        RemoteCommand::Fail { error }
    }

    /// Takes in what happened and says what to do next.
    pub fn advance(&mut self, event: RemoteEvent) -> (command: RemoteCommand)
        ensures
            final(self)@ == remote_next_move(old(self)@, event@).state,
            command@ == remote_next_move(old(self)@, event@).command,
    {
        let step = self.step;
        match step {
            RemoteStep::Done => {
                return RemoteCommand::Nothing;
            },
            RemoteStep::Failed => {
                return RemoteCommand::Nothing;
            },
            _ => {},
        }
        match (step, event) {
            (RemoteStep::ReadingVault, RemoteEvent::VaultRead { stored }) => {
                let argument = self.argument.clone();
                let resolved = match &stored {
                    Some(blob) => resolve_password(argument, Some(blob.as_str())),
                    None => resolve_password(argument, None),
                };
                match resolved {
                    Ok(password) => self.send(password.as_str()),
                    Err(e) => self.fail(e),
                }
            },
            (RemoteStep::AwaitingAnswer, RemoteEvent::Answered { outcome, body }) => {
                match self.task {
                    RemoteTask::Check => match check_connection(&outcome) {
                        Ok(_) => {
                            self.step = RemoteStep::Done;
                            RemoteCommand::Finish { message: "Connection successful".to_owned() }
                        },
                        Err(e) => self.fail(e),
                    },
                    RemoteTask::Delete => match delete_file(&outcome) {
                        Ok(_) => {
                            self.step = RemoteStep::Done;
                            RemoteCommand::Finish { message: "Deleted successfully".to_owned() }
                        },
                        Err(e) => self.fail(e),
                    },
                    RemoteTask::List => match list_files(&outcome, &body) {
                        Ok(files) => {
                            self.step = RemoteStep::Done;
                            RemoteCommand::FinishListing { files }
                        },
                        Err(e) => self.fail(e),
                    },
                }
            },
            _ => self.fail(BackupError::new(ErrorKind::Io, "Operation out of sequence")),
        }
    }
}

/// Without a password no request is sent: where the caller gave no
/// password, or an empty one, and the vault yields none, the operation
/// fails with a fault of kind `Auth`.
pub proof fn missing_password_sends_nothing(
    task: RemoteTask,
    url: Seq<char>,
    username: Seq<char>,
    argument: Option<Seq<char>>,
    filename: Seq<char>,
    stored: Option<Seq<char>>,
    later: RemoteEventView,
)
    requires
        argument is None || argument->Some_0.len() == 0,
        crate::vault::stored_password(stored) is Err,
    ensures
        ({
            let first = remote_first_move(task, url, username, argument, filename);
            let second = remote_next_move(first.state, RemoteEventView::VaultRead { stored });
            &&& first.command == RemoteCommandView::ReadVault
            &&& second.command == (RemoteCommandView::Fail {
                error: fault(ErrorKind::Auth, "Password required"@),
            })
            &&& remote_next_move(second.state, later).command == RemoteCommandView::Nothing
        }),
{
}

/// A request is sent with the resolved password and with no other.
pub proof fn request_carries_resolved_password(state: RemoteView, event: RemoteEventView)
    requires
        remote_next_move(state, event).command is Send,
    ensures
        state.step == RemoteStep::ReadingVault,
        event is VaultRead,
        resolved_password(state.argument, event->VaultRead_stored) == Ok::<Seq<char>, Fault>(
            remote_next_move(state, event).command->Send_request.password,
        ),
{
}

} // verus!
