//! The WebDAV transport, without the wire: which request each operation
//! sends, and what the answer means. Every operation is one request with
//! HTTP Basic authentication; a resource is addressed as the base URL, a
//! slash and the file name.

use vstd::prelude::*;
use crate::error::{fault, BackupError, ErrorKind, Fault};
use crate::listing::{body_listing, file_views, parse_listing};
use crate::models::CloudBackupFile;
use crate::progress::{Percent, ProgressPayload, ProgressView};
use crate::text::{append, chars_of, concat, string_of, trim_end, trimmed_end};

verus! {

/// The verb of a request.
#[derive(Clone, Copy, Debug, PartialEq, Eq, Structural)]
pub enum Method {
    Propfind,
    Put,
    Get,
    Delete,
}

/// One request: everything the transport needs to send it.
#[derive(Clone, Debug)]
pub struct Request {
    pub method: Method,
    pub url: String,
    pub username: String,
    pub password: String,
    /// The value of the `Depth` header, where the request carries one.
    pub depth: Option<u8>,
    pub body: Vec<u8>,
}

/// The mathematical value of a `Request`.
pub struct RequestView {
    pub method: Method,
    pub url: Seq<char>,
    pub username: Seq<char>,
    pub password: Seq<char>,
    pub depth: Option<u8>,
    pub body: Seq<u8>,
}

impl View for Request {
    type V = RequestView;

    open spec fn view(&self) -> RequestView {
        RequestView {
            method: self.method,
            url: self.url@,
            username: self.username@,
            password: self.password@,
            depth: self.depth,
            body: self.body@,
        }
    }
}

/// What came of sending a request.
#[derive(Clone, Debug)]
pub enum Exchange {
    /// No answer came; `reason` is the transport's account of it.
    Failed { reason: String },
    /// The server answered; `status_text` is the status as shown to the
    /// user, the code and its phrase.
    Answered { status: u16, status_text: String },
}

/// The mathematical value of an `Exchange`.
pub enum ExchangeView {
    Failed { reason: Seq<char> },
    Answered { status: u16, status_text: Seq<char> },
}

impl View for Exchange {
    type V = ExchangeView;

    open spec fn view(&self) -> ExchangeView {
        match self {
            Exchange::Failed { reason } => ExchangeView::Failed { reason: reason@ },
            Exchange::Answered { status, status_text } => ExchangeView::Answered {
                status: *status,
                status_text: status_text@,
            },
        }
    }
}

/// The operations of the transport.
#[derive(Clone, Copy, Debug, PartialEq, Eq, Structural)]
pub enum Operation {
    CheckConnection,
    Upload,
    Download,
    List,
    Delete,
}

/// The address of the resource `filename` under `base`.
pub open spec fn resource_url(base: Seq<char>, filename: Seq<char>) -> Seq<char> {
    trim_end(base, '/').push('/') + filename
}

/// A status of the class 2xx.
pub open spec fn is_success(status: u16) -> bool {
    200 <= status < 300
}

/// The statuses that `operation` takes for success.
pub open spec fn accepts(operation: Operation, status: u16) -> bool {
    match operation {
        Operation::CheckConnection => is_success(status) || status == 207,
        Operation::Upload => is_success(status) || status == 201 || status == 204,
        Operation::Download => is_success(status),
        Operation::List => is_success(status) || status == 207,
        Operation::Delete => is_success(status) || status == 204,
    }
}

/// What `operation` puts in front of the transport's account where no
/// answer came.
pub open spec fn failure_prefix(operation: Operation) -> Seq<char> {
    match operation {
        Operation::CheckConnection => "Request failed: "@,
        Operation::Upload => "Upload failed: "@,
        Operation::Download => "Download failed: "@,
        Operation::List => ""@,
        Operation::Delete => "Delete failed: "@,
    }
}

/// What `operation` puts in front of a status that it does not accept.
pub open spec fn status_prefix(operation: Operation) -> Seq<char> {
    match operation {
        Operation::CheckConnection => "Server returned status: "@,
        Operation::Upload => "WebDAV upload failed: "@,
        Operation::Download => "Server error: "@,
        Operation::List => "Failed to list files: "@,
        Operation::Delete => "Status: "@,
    }
}

/// The kind of the fault of a status that is not accepted: `NotFound` for
/// 404, which says that the resource is absent; `RemoteStatus` for any
/// other.
pub open spec fn status_kind(status: u16) -> ErrorKind {
    if status == 404 {
        ErrorKind::NotFound
    } else {
        ErrorKind::RemoteStatus
    }
}

/// What an exchange means to `operation`: success on an accepted status; a
/// fault of the status' kind on any other, with the status in its text; a
/// fault of kind `Network` where no answer came.
pub open spec fn verdict(operation: Operation, outcome: ExchangeView) -> Result<(), Fault> {
    match outcome {
        ExchangeView::Failed { reason } => Err(
            fault(ErrorKind::Network, failure_prefix(operation) + reason),
        ),
        ExchangeView::Answered { status, status_text } => if accepts(operation, status) {
            Ok(())
        } else {
            Err(fault(status_kind(status), status_prefix(operation) + status_text))
        },
    }
}

/// The request that `operation` sends for the given file.
pub open spec fn request_for(
    operation: Operation,
    url: Seq<char>,
    username: Seq<char>,
    password: Seq<char>,
    filename: Seq<char>,
    content: Seq<u8>,
) -> RequestView {
    match operation {
        Operation::CheckConnection => RequestView {
            method: Method::Propfind,
            url,
            username,
            password,
            depth: Some(0u8),
            body: Seq::empty(),
        },
        Operation::List => RequestView {
            method: Method::Propfind,
            url,
            username,
            password,
            depth: Some(1u8),
            body: Seq::empty(),
        },
        Operation::Upload => RequestView {
            method: Method::Put,
            url: resource_url(url, filename),
            username,
            password,
            depth: None,
            body: content,
        },
        Operation::Download => RequestView {
            method: Method::Get,
            url: resource_url(url, filename),
            username,
            password,
            depth: None,
            body: Seq::empty(),
        },
        Operation::Delete => RequestView {
            method: Method::Delete,
            url: resource_url(url, filename),
            username,
            password,
            depth: None,
            body: Seq::empty(),
        },
    }
}

/// The address of the resource `filename` under `base`: `base` without its
/// trailing slashes, one slash, `filename`.
pub fn resource_address(base: &str, filename: &str) -> (url: String)
    ensures
        url@ == resource_url(base@, filename@),
{
    let mut out = trimmed_end(&chars_of(base), '/');
    out.push('/');
    let tail = chars_of(filename);
    append(&mut out, &tail);
    string_of(&out)
}

/// Whether `operation` takes `status` for success.
pub fn is_accepted(operation: Operation, status: u16) -> (ok: bool)
    ensures
        ok == accepts(operation, status),
{
    let success = 200 <= status && status < 300;
    match operation {
        Operation::CheckConnection => success || status == 207,
        Operation::Upload => success || status == 201 || status == 204,
        Operation::Download => success,
        Operation::List => success || status == 207,
        Operation::Delete => success || status == 204,
    }
}

/// What an exchange means to `operation`.
pub fn judge(operation: Operation, outcome: &Exchange) -> (r: Result<(), BackupError>)
    ensures
        match verdict(operation, outcome@) {
            Ok(_) => r is Ok,
            Err(f) => r matches Err(e) && e@ == f,
        },
{
    match outcome {
        Exchange::Failed { reason } => {
            let prefix = match operation {
                Operation::CheckConnection => "Request failed: ",
                Operation::Upload => "Upload failed: ",
                Operation::Download => "Download failed: ",
                Operation::List => "",
                Operation::Delete => "Delete failed: ",
            };
            Err(
                BackupError {
                    kind: ErrorKind::Network,
                    message: concat(prefix, reason.as_str()),
                },
            )
        },
        Exchange::Answered { status, status_text } => {
            if is_accepted(operation, *status) {
                Ok(())
            } else {
                let prefix = match operation {
                    Operation::CheckConnection => "Server returned status: ",
                    Operation::Upload => "WebDAV upload failed: ",
                    Operation::Download => "Server error: ",
                    Operation::List => "Failed to list files: ",
                    Operation::Delete => "Status: ",
                };
                let kind = if *status == 404 {
                    ErrorKind::NotFound
                } else {
                    ErrorKind::RemoteStatus
                };
                Err(BackupError { kind, message: concat(prefix, status_text.as_str()) })
            }
        },
    }
}

/// The request that probes the server at `url`: a `PROPFIND` of depth 0.
pub fn check_connection_request(url: &str, username: &str, password: &str) -> (request: Request)
    ensures
        request@ == request_for(
            Operation::CheckConnection,
            url@,
            username@,
            password@,
            Seq::empty(),
            Seq::empty(),
        ),
{
    Request {
        method: Method::Propfind,
        url: url.to_owned(),
        username: username.to_owned(),
        password: password.to_owned(),
        depth: Some(0),
        body: Vec::new(),
    }
}

/// What the answer to the probe means: success on a status of the class
/// 2xx or on 207.
pub fn check_connection(outcome: &Exchange) -> (r: Result<(), BackupError>)
    ensures
        match verdict(Operation::CheckConnection, outcome@) {
            Ok(_) => r is Ok,
            Err(f) => r matches Err(e) && e@ == f,
        },
{
    judge(Operation::CheckConnection, outcome)
}

/// The request that stores `content` as `filename`: a `PUT` with the whole
/// content as its body.
pub fn upload_request(
    url: &str,
    username: &str,
    password: &str,
    filename: &str,
    content: Vec<u8>,
) -> (request: Request)
    ensures
        request@ == request_for(
            Operation::Upload,
            url@,
            username@,
            password@,
            filename@,
            content@,
        ),
{
    Request {
        method: Method::Put,
        url: resource_address(url, filename),
        username: username.to_owned(),
        password: password.to_owned(),
        depth: None,
        body: content,
    }
}

/// What the answer to an upload means: success on a status of the class
/// 2xx, on 201 and on 204.
pub fn upload_file(outcome: &Exchange) -> (r: Result<(), BackupError>)
    ensures
        match verdict(Operation::Upload, outcome@) {
            Ok(_) => r is Ok,
            Err(f) => r matches Err(e) && e@ == f,
        },
{
    judge(Operation::Upload, outcome)
}

/// The request that removes `filename`: a `DELETE`.
pub fn delete_request(url: &str, username: &str, password: &str, filename: &str) -> (request:
    Request)
    ensures
        request@ == request_for(
            Operation::Delete,
            url@,
            username@,
            password@,
            filename@,
            Seq::empty(),
        ),
{
    Request {
        method: Method::Delete,
        url: resource_address(url, filename),
        username: username.to_owned(),
        password: password.to_owned(),
        depth: None,
        body: Vec::new(),
    }
}

/// What the answer to a removal means: success on a status of the class
/// 2xx or on 204.
pub fn delete_file(outcome: &Exchange) -> (r: Result<(), BackupError>)
    ensures
        match verdict(Operation::Delete, outcome@) {
            Ok(_) => r is Ok,
            Err(f) => r matches Err(e) && e@ == f,
        },
{
    judge(Operation::Delete, outcome)
}

/// The request that lists the resources under `url`: a `PROPFIND` of depth
/// 1.
pub fn list_request(url: &str, username: &str, password: &str) -> (request: Request)
    ensures
        request@ == request_for(
            Operation::List,
            url@,
            username@,
            password@,
            Seq::empty(),
            Seq::empty(),
        ),
{
    Request {
        method: Method::Propfind,
        url: url.to_owned(),
        username: username.to_owned(),
        password: password.to_owned(),
        depth: Some(1),
        body: Vec::new(),
    }
}

/// The body of an answer, or the transport's account of why it could not
/// be read.
pub open spec fn body_view(body: Result<String, String>) -> Result<Seq<char>, Seq<char>> {
    match body {
        Ok(text) => Ok(text@),
        Err(reason) => Err(reason@),
    }
}

/// The listing that the answer to a `PROPFIND` of depth 1 gives: the
/// verdict on the exchange where that is a fault; a fault of kind `Network`
/// where the body could not be read; else the listing of the body.
pub open spec fn listing_of(outcome: ExchangeView, body: Result<Seq<char>, Seq<char>>) -> Result<
    Seq<crate::models::FileView>,
    Fault,
> {
    match verdict(Operation::List, outcome) {
        Err(f) => Err(f),
        Ok(_) => match body {
            Err(reason) => Err(fault(ErrorKind::Network, reason)),
            Ok(text) => Ok(body_listing(text)),
        },
    }
}

/// The backups that the answer to a listing request shows, by name,
/// greatest first.
pub fn list_files(outcome: &Exchange, body: &Result<String, String>) -> (r: Result<
    Vec<CloudBackupFile>,
    BackupError,
>)
    ensures
        match listing_of(outcome@, body_view(*body)) {
            Ok(files) => r matches Ok(v) && file_views(v@) == files,
            Err(f) => r matches Err(e) && e@ == f,
        },
{
    match judge(Operation::List, outcome) {
        Err(e) => Err(e),
        Ok(_) => match body {
            Err(reason) => Err(BackupError { kind: ErrorKind::Network, message: reason.clone() }),
            Ok(text) => Ok(parse_listing(text.as_str())),
        },
    }
}

/// The request that fetches `filename`: a `GET`.
pub fn download_request(url: &str, username: &str, password: &str, filename: &str) -> (request:
    Request)
    ensures
        request@ == request_for(
            Operation::Download,
            url@,
            username@,
            password@,
            filename@,
            Seq::empty(),
        ),
{
    Request {
        method: Method::Get,
        url: resource_address(url, filename),
        username: username.to_owned(),
        password: password.to_owned(),
        depth: None,
        body: Vec::new(),
    }
}

/// A download under way: what has come so far, and how much the server
/// said would come.
#[derive(Debug)]
pub struct Download {
    pub total_size: u64,
    pub content: Vec<u8>,
    pub range_start: u8,
    pub range_span: u8,
}

/// The label of the stage in which a download runs.
pub open spec fn downloading_label() -> Seq<char> {
    "backup.progress.downloading"@
}

/// The progress of a download of which `received` bytes have come: where
/// the server named a size, the range's start plus the received share of
/// its span; where it named none, the middle of the range.
pub open spec fn download_progress(
    total_size: u64,
    received: nat,
    range_start: u8,
    range_span: u8,
) -> Percent {
    if total_size > 0 {
        Percent { start: range_start, span: range_span, done: received as u64, total: total_size }
    } else {
        Percent { start: range_start, span: range_span, done: 1, total: 2 }
    }
}

impl Download {
    /// The report after the bytes received so far.
    pub open spec fn report(&self) -> ProgressView {
        ProgressView {
            message: downloading_label(),
            progress: download_progress(
                self.total_size,
                self.content@.len(),
                self.range_start,
                self.range_span,
            ),
        }
    }

    /// Takes in one chunk of the body: the chunk is put behind what came
    /// before, and the report says how far the download has come.
    pub fn receive(&mut self, chunk: &[u8]) -> (report: ProgressPayload)
        ensures
            final(self).content@ == old(self).content@ + chunk@,
            final(self).total_size == old(self).total_size,
            final(self).range_start == old(self).range_start,
            final(self).range_span == old(self).range_span,
            report@ == final(self).report(),
            report@.progress.well_formed(),
    {
        self.content.extend_from_slice(chunk);
        let received: usize = self.content.len();
        let progress = if self.total_size > 0 {
            Percent {
                start: self.range_start,
                span: self.range_span,
                done: received as u64,
                total: self.total_size,
            }
        } else {
            Percent { start: self.range_start, span: self.range_span, done: 1, total: 2 }
        };
        ProgressPayload { message: "backup.progress.downloading".to_owned(), progress }
    }

    /// What could not be fetched: a fault of kind `Network` for a chunk
    /// that did not come.
    pub fn interrupted(reason: &str) -> (e: BackupError)
        ensures
            e@ == fault(ErrorKind::Network, "Chunk error: "@ + reason@),
    {
        BackupError { kind: ErrorKind::Network, message: concat("Chunk error: ", reason) }
    }

    /// The body, once its last chunk has come.
    pub fn finish(self) -> (content: Vec<u8>)
        ensures
            content@ == self.content@,
    {
        self.content
    }
}

/// Begins a download on the answer to its request. On a status of the class
/// 2xx the download starts empty, and the first report stands at the start
/// of the range `range_start .. range_start + range_span` of the whole
/// operation's progress. `content_length` is the size that the server named,
/// if it named one.
pub fn download_file(
    outcome: &Exchange,
    content_length: Option<u64>,
    range_start: u8,
    range_span: u8,
) -> (r: Result<(Download, ProgressPayload), BackupError>)
    ensures
        match verdict(Operation::Download, outcome@) {
            Ok(_) => r matches Ok((download, report)) && {
                &&& download.content@ == Seq::<u8>::empty()
                &&& download.total_size == match content_length {
                    Some(n) => n,
                    None => 0,
                }
                &&& download.range_start == range_start
                &&& download.range_span == range_span
                &&& report@ == crate::progress::checkpoint(
                    downloading_label(),
                    range_start as int,
                )
            },
            Err(f) => r matches Err(e) && e@ == f,
        },
{
    match judge(Operation::Download, outcome) {
        Err(e) => Err(e),
        Ok(_) => {
            let total_size: u64 = match content_length {
                Some(n) => n,
                None => 0,
            };
            let download = Download { total_size, content: Vec::new(), range_start, range_span };
            let report = ProgressPayload::at("backup.progress.downloading", range_start);
            Ok((download, report))
        },
    }
}

/// Each chunk moves a download's progress forward or leaves it where it
/// was.
pub proof fn download_progress_never_falls(
    total_size: u64,
    before: nat,
    after: nat,
    range_start: u8,
    range_span: u8,
)
    requires
        before <= after <= u64::MAX,
    ensures
        download_progress(total_size, before, range_start, range_span).at_most(
            download_progress(total_size, after, range_start, range_span),
        ),
{
    let p = download_progress(total_size, before, range_start, range_span);
    let q = download_progress(total_size, after, range_start, range_span);
    if total_size > 0 {
        assert(p.scaled() * q.total <= q.scaled() * p.total) by (nonlinear_arith)
            requires
                p.total == q.total,
                p.total > 0,
                p.scaled() == p.start * p.total + p.span * p.done,
                q.scaled() == p.start * p.total + p.span * q.done,
                p.done <= q.done,
                p.span >= 0,
        ;
    }
}

/// While no more than the named size has come, a download's progress stays
/// within its range.
pub proof fn download_progress_stays_in_range(
    total_size: u64,
    received: nat,
    range_start: u8,
    range_span: u8,
)
    requires
        total_size == 0 || received <= total_size,
    ensures
        ({
            let p = download_progress(total_size, received, range_start, range_span);
            range_start * p.total <= p.scaled() <= (range_start + range_span) * p.total
        }),
{
    let p = download_progress(total_size, received, range_start, range_span);
    assert(range_start * p.total <= p.scaled() <= (range_start + range_span) * p.total)
        by (nonlinear_arith)
        requires
            p.scaled() == range_start * p.total + range_span * p.done,
            0 <= p.done <= p.total,
            range_span >= 0,
    ;
}

} // verus!
