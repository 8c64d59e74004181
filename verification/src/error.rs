//! The error that every operation of the pipeline reports.

use vstd::prelude::*;

verus! {

/// What went wrong, by cause.
#[derive(Clone, Copy, Debug, PartialEq, Eq, Structural)]
pub enum ErrorKind {
    /// The file system refused an operation.
    Io,
    /// The transport could not reach the server.
    Network,
    /// The server answered with a status that is no success.
    RemoteStatus,
    /// An archive or a credential blob is not in its format.
    Format,
    /// No password is available where one is required.
    Auth,
    /// A file or a remote resource that had to be there is absent.
    NotFound,
}

/// An error: its cause and the text shown to the user.
#[derive(Clone, Debug)]
pub struct BackupError {
    pub kind: ErrorKind,
    pub message: String,
}

/// The mathematical value of a `BackupError`.
pub struct Fault {
    pub kind: ErrorKind,
    pub message: Seq<char>,
}

impl View for BackupError {
    type V = Fault;

    open spec fn view(&self) -> Fault {
        Fault { kind: self.kind, message: self.message@ }
    }
}

/// The fault of the given kind and text.
pub open spec fn fault(kind: ErrorKind, message: Seq<char>) -> Fault {
    Fault { kind, message }
}

impl BackupError {
    /// The error of the given kind and text.
    pub fn new(kind: ErrorKind, message: &str) -> (e: BackupError)
        ensures
            e@ == fault(kind, message@),
    {
        BackupError { kind, message: message.to_owned() }
    }

    /// An error of the same kind and text.
    pub fn duplicate(&self) -> (e: BackupError)
        ensures
            e@ == self@,
    {
        BackupError { kind: self.kind, message: self.message.clone() }
    }

    /// The text shown to the user.
    pub fn to_text(&self) -> (text: String)
        ensures
            text@ == self@.message,
    {
        self.message.clone()
    }
}

} // verus!
