//! Backup and restore of an application's configuration directory, to a
//! local file or to a WebDAV server.
//!
//! The library decides and computes; it reads no file and opens no
//! connection. Each operation is a sequence of moves: the caller does what
//! a move asks for and hands back what happened.
//!
//! - `vault`: the stored password.
//! - `archive`, `paths`, `archive_laws`: what an archive holds and what a
//!   restore writes.
//! - `webdav`, `listing`: the requests to the server and the meaning of its
//!   answers.
//! - `create`, `preview`, `restore`, `local`, `remote`: the operations.
//! - `backup`, `models`, `progress`, `error`, `text`: what they share.
//! - `monitor`, `window`: samples of a remote machine, and the settings of
//!   the main window.

pub mod archive;
pub mod archive_laws;
pub mod backup;
pub mod create;
pub mod error;
pub mod listing;
pub mod local;
pub mod models;
pub mod monitor;
pub mod paths;
pub mod preview;
pub mod progress;
pub mod remote;
pub mod restore;
pub mod text;
pub mod vault;
pub mod webdav;
pub mod window;
