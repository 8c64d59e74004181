//! The archive of a configuration directory: which entries a backup holds,
//! and what a restore writes. An archive is a zip container; its first entry
//! is `backup_meta.json`, the others mirror the directory's relative paths.
//! Sensitive files are neither packed nor unpacked, and no entry is
//! unpacked to a place outside the destination.

use vstd::prelude::*;
use vstd::utf8::*;
use crate::error::{fault, BackupError, ErrorKind, Fault};
use crate::paths::{is_enclosed, is_sensitive, names_sensitive_file, stays_inside};
use crate::text::{chars_of, concat, ends_with, optional_text, same_chars};

verus! {

/// One entry of an archive: a directory marker, or a file with its content.
#[derive(Clone, Debug)]
pub struct ArchiveEntry {
    pub name: String,
    pub is_directory: bool,
    pub content: Vec<u8>,
}

/// The mathematical value of an `ArchiveEntry`.
pub struct EntryView {
    pub name: Seq<char>,
    pub is_directory: bool,
    pub content: Seq<u8>,
}

impl View for ArchiveEntry {
    type V = EntryView;

    open spec fn view(&self) -> EntryView {
        EntryView { name: self.name@, is_directory: self.is_directory, content: self.content@ }
    }
}

/// One thing that a walk of the source directory came upon.
#[derive(Debug)]
pub struct WalkedEntry {
    /// The path relative to the source directory; `None` where the path is
    /// not representable as text.
    pub path: Option<String>,
    pub is_file: bool,
    /// A file's content, or the system's account of why it could not be
    /// read. Consulted for the files that are packed, and for no others.
    pub content: Result<Vec<u8>, String>,
}

/// The mathematical value of a `WalkedEntry`.
pub struct WalkedView {
    pub path: Option<Seq<char>>,
    pub is_file: bool,
    pub content: Result<Seq<u8>, Seq<char>>,
}

impl View for WalkedEntry {
    type V = WalkedView;

    open spec fn view(&self) -> WalkedView {
        WalkedView {
            path: match self.path {
                Some(p) => Some(p@),
                None => None,
            },
            is_file: self.is_file,
            content: match self.content {
                Ok(c) => Ok(c@),
                Err(reason) => Err(reason@),
            },
        }
    }
}

/// What packing does with one thing of the source directory.
#[derive(Clone, Copy, Debug, PartialEq, Eq, Structural)]
pub enum PackAction {
    Skip,
    AddFile,
    AddDirectory,
}

/// One write of a restore, with the path relative to the destination.
#[derive(Clone, Debug)]
pub enum Extraction {
    CreateDirectory { path: String },
    WriteFile { path: String, content: Vec<u8> },
}

/// The mathematical value of an `Extraction`.
pub enum ExtractionView {
    CreateDirectory { path: Seq<char> },
    WriteFile { path: Seq<char>, content: Seq<u8> },
}

impl ExtractionView {
    /// The path that the write goes to.
    pub open spec fn target(self) -> Seq<char> {
        match self {
            ExtractionView::CreateDirectory { path } => path,
            ExtractionView::WriteFile { path, content } => path,
        }
    }
}

impl View for Extraction {
    type V = ExtractionView;

    open spec fn view(&self) -> ExtractionView {
        match self {
            Extraction::CreateDirectory { path } => ExtractionView::CreateDirectory { path: path@ },
            Extraction::WriteFile { path, content } => ExtractionView::WriteFile {
                path: path@,
                content: content@,
            },
        }
    }
}

/// What unpacking does with one entry.
#[derive(Clone, Debug)]
pub enum Decision {
    Skip,
    CreateDirectory { path: String },
    WriteFile { path: String },
}

/// The mathematical value of a `Decision`.
pub enum DecisionView {
    Skip,
    CreateDirectory { path: Seq<char> },
    WriteFile { path: Seq<char> },
}

impl View for Decision {
    type V = DecisionView;

    open spec fn view(&self) -> DecisionView {
        match self {
            Decision::Skip => DecisionView::Skip,
            Decision::CreateDirectory { path } => DecisionView::CreateDirectory { path: path@ },
            Decision::WriteFile { path } => DecisionView::WriteFile { path: path@ },
        }
    }
}

/// One entry as a container hands it out to a reader without a password.
pub struct StoredEntry {
    /// The name as stored.
    pub name: Seq<char>,
    /// The name as a path confined to the destination, where the container
    /// library finds it to be one.
    pub enclosed: Option<Seq<char>>,
    /// Whether the entry can be opened; if not, the library's account.
    pub opened: Result<(), Seq<char>>,
    /// The content, or the library's account of why it cannot be read.
    pub content: Result<Seq<u8>, Seq<char>>,
}

/// The values of the given entries.
pub open spec fn entry_views(entries: Seq<ArchiveEntry>) -> Seq<EntryView> {
    entries.map_values(|e: ArchiveEntry| e@)
}

/// The values of the given walked entries.
pub open spec fn walked_views(entries: Seq<WalkedEntry>) -> Seq<WalkedView> {
    entries.map_values(|e: WalkedEntry| e@)
}

/// The values of the given writes.
pub open spec fn extraction_views(steps: Seq<Extraction>) -> Seq<ExtractionView> {
    steps.map_values(|s: Extraction| s@)
}

/// The name of the metadata entry.
pub open spec fn metadata_name() -> Seq<char> {
    "backup_meta.json"@
}

/// What packing does with the thing at `path`: a sensitive path is left
/// out, and so is the path of the metadata entry, which an archive holds
/// once, written afresh; a file is added; a directory is added unless it is
/// the source directory itself, whose relative path is empty.
pub open spec fn pack_action(path: Seq<char>, is_file: bool) -> PackAction {
    if is_sensitive(path) || path == metadata_name() {
        PackAction::Skip
    } else if is_file {
        PackAction::AddFile
    } else if path.len() > 0 {
        PackAction::AddDirectory
    } else {
        PackAction::Skip
    }
}

/// The entries packed for the walked things, in the order of the walk; the
/// fault of the first thing that cannot be packed: one of kind `Format` for
/// a path that is no text, one of kind `Io` for a file that could not be
/// read.
pub open spec fn packed_entries(walked: Seq<WalkedView>) -> Result<Seq<EntryView>, Fault>
    decreases walked.len(),
{
    if walked.len() == 0 {
        Ok(Seq::empty())
    } else {
        match packed_entries(walked.drop_last()) {
            Err(f) => Err(f),
            Ok(entries) => match walked.last().path {
                None => Err(fault(ErrorKind::Format, "Invalid path encoding"@)),
                Some(path) => match pack_action(path, walked.last().is_file) {
                    PackAction::Skip => Ok(entries),
                    PackAction::AddDirectory => Ok(
                        entries.push(
                            EntryView { name: path, is_directory: true, content: Seq::empty() },
                        ),
                    ),
                    PackAction::AddFile => match walked.last().content {
                        Err(reason) => Err(fault(ErrorKind::Io, reason)),
                        Ok(content) => Ok(
                            entries.push(EntryView { name: path, is_directory: false, content }),
                        ),
                    },
                },
            },
        }
    }
}

/// The entry that holds the metadata.
pub open spec fn metadata_entry(json: Seq<char>) -> EntryView {
    EntryView { name: metadata_name(), is_directory: false, content: encode_utf8(json) }
}

/// The entries of the archive of a source directory: the metadata first,
/// then what is packed of the walk. Without metadata there is no archive:
/// a fault of kind `Format`.
pub open spec fn archive_plan(metadata_json: Option<Seq<char>>, walked: Seq<WalkedView>) -> Result<
    Seq<EntryView>,
    Fault,
> {
    match metadata_json {
        None => Err(fault(ErrorKind::Format, "Metadata could not be written"@)),
        Some(json) => match packed_entries(walked) {
            Err(f) => Err(f),
            Ok(entries) => Ok(seq![metadata_entry(json)] + entries),
        },
    }
}

/// What unpacking does with an entry of the given stored name and enclosed
/// path: it is skipped where it has no enclosed path, where that path does
/// not stay inside the destination, and where that path is sensitive; it is
/// a directory where the stored name ends in a slash, else a file.
pub open spec fn unpack_decision(name: Seq<char>, enclosed: Option<Seq<char>>) -> DecisionView {
    match enclosed {
        None => DecisionView::Skip,
        Some(path) => if !stays_inside(path) || is_sensitive(path) {
            DecisionView::Skip
        } else if ends_with(name, seq!['/']) {
            DecisionView::CreateDirectory { path }
        } else {
            DecisionView::WriteFile { path }
        },
    }
}

/// The writes of a restore from the given entries, in their order; the
/// fault of the first entry that cannot be restored: one of kind `Format`
/// for an entry that cannot be opened, one of kind `Io` for a file whose
/// content cannot be read.
pub open spec fn extraction_plan(entries: Seq<StoredEntry>) -> Result<Seq<ExtractionView>, Fault>
    decreases entries.len(),
{
    if entries.len() == 0 {
        Ok(Seq::empty())
    } else {
        let entry = entries.last();
        match extraction_plan(entries.drop_last()) {
            Err(f) => Err(f),
            Ok(steps) => match entry.opened {
                Err(reason) => Err(fault(ErrorKind::Format, reason)),
                Ok(_) => match unpack_decision(entry.name, entry.enclosed) {
                    DecisionView::Skip => Ok(steps),
                    DecisionView::CreateDirectory { path } => Ok(
                        steps.push(ExtractionView::CreateDirectory { path }),
                    ),
                    DecisionView::WriteFile { path } => match entry.content {
                        Err(reason) => Err(fault(ErrorKind::Io, reason)),
                        Ok(content) => Ok(steps.push(ExtractionView::WriteFile { path, content })),
                    },
                },
            },
        }
    }
}

/// What packing does with the thing at `path`.
pub fn classify_source(path: &str, is_file: bool) -> (action: PackAction)
    ensures
        action == pack_action(path@, is_file),
{
    let chars = chars_of(path);
    if names_sensitive_file(&chars) || same_chars(&chars, &chars_of("backup_meta.json")) {
        PackAction::Skip
    } else if is_file {
        PackAction::AddFile
    } else if chars.len() > 0 {
        PackAction::AddDirectory
    } else {
        PackAction::Skip
    }
}

/// What unpacking does with an entry of the given stored name and enclosed
/// path.
pub fn classify_entry(name: &str, enclosed: Option<&str>) -> (decision: Decision)
    ensures
        decision@ == unpack_decision(
            name@,
            match enclosed {
                Some(p) => Some(p@),
                None => None,
            },
        ),
{
    let path = match enclosed {
        Some(path) => path,
        None => {
            return Decision::Skip;
        },
    };
    let chars = chars_of(path);
    if !is_enclosed(&chars) || names_sensitive_file(&chars) {
        return Decision::Skip;
    }
    let stored = chars_of(name);
    let is_directory = stored.len() > 0 && stored[stored.len() - 1] == '/';
    proof {
        if is_directory {
            assert(stored@.subrange(stored@.len() - 1, stored@.len() as int) =~= seq!['/']);
        } else if stored@.len() > 0 {
            assert(stored@.subrange(stored@.len() - 1, stored@.len() as int)[0] == stored@[
                stored@.len() - 1
            ]);
        }
    }
    if is_directory {
        Decision::CreateDirectory { path: path.to_owned() }
    } else {
        Decision::WriteFile { path: path.to_owned() }
    }
}

/// The entries of the archive of a source directory: the metadata first,
/// then the files and directories of the walk in its order; sensitive ones,
/// a stale metadata file and the source directory itself are left out.
/// Fails with a fault of kind `Format` where there is no metadata.
pub fn plan_archive(metadata_json: Option<&str>, walked: Vec<WalkedEntry>) -> (r: Result<
    Vec<ArchiveEntry>,
    BackupError,
>)
    ensures
        match archive_plan(
            match metadata_json {
                Some(json) => Some(json@),
                None => None,
            },
            walked_views(walked@),
        ) {
            Ok(entries) => r matches Ok(v) && entry_views(v@) == entries,
            Err(f) => r matches Err(e) && e@ == f,
        },
{
    let ghost all = walked_views(walked@);
    let json = match metadata_json {
        Some(json) => json,
        None => {
            return Err(BackupError::new(ErrorKind::Format, "Metadata could not be written"));
        },
    };
    let ghost head = seq![metadata_entry(json@)];
    let mut entries: Vec<ArchiveEntry> = Vec::new();
    entries.push(
        ArchiveEntry {
            name: "backup_meta.json".to_owned(),
            is_directory: false,
            content: vstd::slice::slice_to_vec(json.as_bytes()),
        },
    );
    assert(entry_views(entries@) =~= head + Seq::<EntryView>::empty());
    assert(all.take(0) =~= Seq::<WalkedView>::empty());
    for entry in it: walked.into_iter()
        invariant
            it.seq() == walked@,
            metadata_json == Some(json),
            head == seq![metadata_entry(json@)],
            all == walked_views(walked@),
            packed_entries(all.take(it.index() as int)) is Ok,
            entry_views(entries@) == head + packed_entries(all.take(it.index() as int))->Ok_0,
    {
        let ghost k = it.index() as int;
        let ghost before = packed_entries(all.take(k))->Ok_0;
        proof {
            assert(all.take(k + 1).drop_last() =~= all.take(k));
            assert(all.take(k + 1).last() == entry@);
            assert(all.take(all.len() as int) =~= all);
            if packed_entries(all.take(k + 1)) is Err {
                packed_entries_fail_for_good(all, k + 1);
            }
        }
        let WalkedEntry { path, is_file, content } = entry;
        let path = match path {
            Some(path) => path,
            None => {
                return Err(BackupError::new(ErrorKind::Format, "Invalid path encoding"));
            },
        };
        match classify_source(path.as_str(), is_file) {
            PackAction::Skip => {},
            PackAction::AddDirectory => {
                let added = ArchiveEntry { name: path, is_directory: true, content: Vec::new() };
                proof {
                    assert(entry_views(entries@.push(added)) =~= entry_views(entries@).push(
                        added@,
                    ));
                    assert((head + before).push(added@) =~= head + before.push(added@));
                }
                entries.push(added);
            },
            PackAction::AddFile => {
                let content = match content {
                    Ok(content) => content,
                    Err(reason) => {
                        return Err(BackupError { kind: ErrorKind::Io, message: reason });
                    },
                };
                let added = ArchiveEntry { name: path, is_directory: false, content };
                proof {
                    assert(entry_views(entries@.push(added)) =~= entry_views(entries@).push(
                        added@,
                    ));
                    assert((head + before).push(added@) =~= head + before.push(added@));
                }
                entries.push(added);
            },
        }
    }
    proof {
        assert(all.take(all.len() as int) =~= all);
    }
    Ok(entries)
}

proof fn packed_entries_fail_for_good(walked: Seq<WalkedView>, k: int)
    requires
        0 <= k <= walked.len(),
        packed_entries(walked.take(k)) is Err,
    ensures
        packed_entries(walked) == packed_entries(walked.take(k)),
    decreases walked.len() - k,
{
    if k == walked.len() {
        assert(walked.take(k) =~= walked);
    } else {
        assert(walked.take(k + 1).drop_last() =~= walked.take(k));
        packed_entries_fail_for_good(walked, k + 1);
    }
}

/// A zip container under construction, in memory: the writer of the crate
/// `zip` and the options with which it adds its entries. Nothing is claimed
/// of what it holds: a finished container is read back instead.
#[verifier::external_body]
pub struct ContainerWriter {
    inner: zip::ZipWriter<std::io::Cursor<Vec<u8>>>,
    options: zip::write::FileOptions,
}

/// `std::io::Cursor`, the reader over a buffer in memory: carried through,
/// never looked into.
#[verifier::external_type_specification]
#[verifier::external_body]
#[verifier::reject_recursive_types(T)]
pub struct ExCursor<T>(std::io::Cursor<T>);

/// `ZipArchive` of the crate `zip`, an opened container: what it holds is
/// named `stored_entries`.
#[verifier::external_type_specification]
#[verifier::external_body]
#[verifier::reject_recursive_types(R)]
pub struct ExZipArchive<R>(zip::ZipArchive<R>);

/// What a zip container hands out when it is opened: its entries in the
/// order of its central directory, or the library's account of why it is
/// no container. An entry's enclosed path goes by the path rules of the
/// system that the library is built for.
pub uninterp spec fn container_entries(bytes: Seq<u8>) -> Result<Seq<StoredEntry>, Seq<char>>;

/// The entries of an opened container.
pub uninterp spec fn stored_entries(a: zip::ZipArchive<std::io::Cursor<Vec<u8>>>) -> Seq<
    StoredEntry,
>;

/// The index of the last entry of the given name; `None` where no entry
/// bears it.
pub open spec fn last_named(entries: Seq<StoredEntry>, name: Seq<char>) -> Option<int>
    decreases entries.len(),
{
    if entries.len() == 0 {
        None
    } else if entries.last().name == name {
        Some(entries.len() - 1)
    } else {
        last_named(entries.drop_last(), name)
    }
}

/// The text of the entry that a lookup by `name` finds among `entries`: of
/// the last entry of that name, where it can be opened and its content is
/// well-formed UTF-8, the characters of the content; else `None`.
pub open spec fn named_text(entries: Seq<StoredEntry>, name: Seq<char>) -> Option<Seq<char>> {
    match last_named(entries, name) {
        None => None,
        Some(i) => match (entries[i].opened, entries[i].content) {
            (Ok(_), Ok(bytes)) => if valid_utf8(bytes) {
                Some(decode_utf8(bytes))
            } else {
                None
            },
            _ => None,
        },
    }
}

/// The name under which a directory is stored: its own where that ends in
/// a slash or a backslash, else its own and a slash.
pub open spec fn directory_name(name: Seq<char>) -> Seq<char> {
    if name.len() > 0 && (name.last() == '/' || name.last() == '\\') {
        name
    } else {
        name.push('/')
    }
}

/// An entry as it is stored: a directory under its stored name and without
/// content.
pub open spec fn stored_view(e: EntryView) -> EntryView {
    if e.is_directory {
        EntryView { name: directory_name(e.name), is_directory: true, content: Seq::empty() }
    } else {
        e
    }
}

/// An entry as a container hands it back after it was written: under its
/// stored name, which is also its enclosed path, with its content.
pub open spec fn read_back(e: EntryView) -> StoredEntry {
    StoredEntry {
        name: stored_view(e).name,
        enclosed: Some(stored_view(e).name),
        opened: Ok(()),
        content: Ok(stored_view(e).content),
    }
}

/// The given entries as a container hands them back.
pub open spec fn read_back_all(entries: Seq<EntryView>) -> Seq<StoredEntry> {
    entries.map_values(|e: EntryView| read_back(e))
}

/// Makes a writer with `ZipWriter::new` of the crate `zip` over an empty
/// buffer; its options are `FileOptions::default()` with the given
/// permissions and the compression method that `CompressionMethod::from_u16`
/// gives for the given number of the zip format.
#[verifier::external_body]
#[allow(deprecated)]
fn new_writer(mode: u32, method: u16) -> (w: ContainerWriter) {
    ContainerWriter {
        inner: zip::ZipWriter::new(std::io::Cursor::new(Vec::new())),
        options: zip::write::FileOptions::default().compression_method(
            zip::CompressionMethod::from_u16(method),
        ).unix_permissions(mode),
    }
}

/// Calls `ZipWriter::start_file`, which begins a file of the given name.
#[verifier::external_body]
fn start_file(w: &mut ContainerWriter, name: &str) -> (r: Result<(), String>) {
    w.inner.start_file(name, w.options).map_err(|e| e.to_string())
}

/// Calls `write_all` of `std::io::Write` on the writer, which puts the
/// bytes behind the content of the file that was begun last.
#[verifier::external_body]
fn write_content(w: &mut ContainerWriter, bytes: &[u8]) -> (r: Result<(), String>) {
    std::io::Write::write_all(&mut w.inner, bytes).map_err(|e| e.to_string())
}

/// Calls `ZipWriter::add_directory`, which adds a directory of the given
/// name.
#[verifier::external_body]
fn add_directory(w: &mut ContainerWriter, name: &str) -> (r: Result<(), String>) {
    w.inner.add_directory(name, w.options).map_err(|e| e.to_string())
}

/// Calls `ZipWriter::finish` and takes the buffer out of the cursor.
#[verifier::external_body]
fn finish_writer(w: ContainerWriter) -> (r: Result<Vec<u8>, String>) {
    let mut w = w;
    match w.inner.finish() {
        Ok(cursor) => Ok(cursor.into_inner()),
        Err(e) => Err(e.to_string()),
    }
}

/// Calls `ZipArchive::new` of the crate `zip` on a cursor over the bytes.
/// The outcome is named `container_entries`.
#[verifier::external_body]
fn open_container(bytes: Vec<u8>) -> (r: Result<
    zip::ZipArchive<std::io::Cursor<Vec<u8>>>,
    String,
>)
    ensures
        match container_entries(bytes@) {
            Ok(entries) => r matches Ok(a) && stored_entries(a) == entries,
            Err(reason) => r matches Err(e) && e@ == reason,
        },
{
    zip::ZipArchive::new(std::io::Cursor::new(bytes)).map_err(|e| e.to_string())
}

/// Calls `ZipArchive::len`: the number of entries.
#[verifier::external_body]
fn entry_count(a: &zip::ZipArchive<std::io::Cursor<Vec<u8>>>) -> (n: usize)
    ensures
        n == stored_entries(*a).len(),
{
    a.len()
}

/// Opens the entry at `index` with `ZipArchive::by_index_decrypt` and the
/// given password, which is empty, and reads `ZipFile::name` and
/// `ZipFile::enclosed_name`. The container is left as it was.
#[verifier::external_body]
fn entry_header(
    a: &mut zip::ZipArchive<std::io::Cursor<Vec<u8>>>,
    index: usize,
    password: &[u8],
) -> (r: Result<(String, Option<String>), String>)
    requires
        index < stored_entries(*old(a)).len(),
        password@.len() == 0,
    ensures
        stored_entries(*final(a)) == stored_entries(*old(a)),
        match stored_entries(*old(a))[index as int].opened {
            Ok(_) => {
                &&& r matches Ok((name, enclosed))
                &&& name@ == stored_entries(*old(a))[index as int].name
                &&& optional_text(enclosed) == stored_entries(*old(a))[index as int].enclosed
            },
            Err(reason) => r matches Err(e) && e@ == reason,
        },
{
    match a.by_index_decrypt(index, password) {
        Ok(Ok(file)) => Ok(
            (
                file.name().to_string(),
                file.enclosed_name().map(|p| p.to_string_lossy().into_owned()),
            ),
        ),
        Ok(Err(e)) => Err(e.to_string()),
        Err(e) => Err(e.to_string()),
    }
}

/// Opens the entry at `index` as `entry_header` does and reads its content
/// to the end with `read_to_end` of `std::io::Read`. The container is left
/// as it was.
#[verifier::external_body]
fn entry_content(
    a: &mut zip::ZipArchive<std::io::Cursor<Vec<u8>>>,
    index: usize,
    password: &[u8],
) -> (r: Result<Vec<u8>, String>)
    requires
        index < stored_entries(*old(a)).len(),
        stored_entries(*old(a))[index as int].opened is Ok,
        password@.len() == 0,
    ensures
        stored_entries(*final(a)) == stored_entries(*old(a)),
        match stored_entries(*old(a))[index as int].content {
            Ok(content) => r matches Ok(bytes) && bytes@ == content,
            Err(reason) => r matches Err(e) && e@ == reason,
        },
{
    let mut out = Vec::new();
    match a.by_index_decrypt(index, password) {
        Ok(Ok(mut file)) => match std::io::Read::read_to_end(&mut file, &mut out) {
            Ok(_) => Ok(out),
            Err(e) => Err(e.to_string()),
        },
        Ok(Err(e)) => Err(e.to_string()),
        Err(e) => Err(e.to_string()),
    }
}

/// Looks an entry up with `ZipArchive::by_name_decrypt` and the given
/// password, which is empty, and reads it with `read_to_string` of
/// `std::io::Read`. The lookup finds the last entry of the name; the text
/// is had where that entry can be opened and its content is well-formed
/// UTF-8.
#[verifier::external_body]
fn entry_text(
    a: &mut zip::ZipArchive<std::io::Cursor<Vec<u8>>>,
    name: &str,
    password: &[u8],
) -> (r: Option<String>)
    requires
        password@.len() == 0,
    ensures
        stored_entries(*final(a)) == stored_entries(*old(a)),
        optional_text(r) == named_text(stored_entries(*old(a)), name@),
{
    let mut text = String::new();
    match a.by_name_decrypt(name, password) {
        Ok(Ok(mut file)) => std::io::Read::read_to_string(&mut file, &mut text).ok().map(|_| text),
        _ => None,
    }
}

/// Whether the two hold the same bytes.
fn same_bytes(a: &Vec<u8>, b: &Vec<u8>) -> (same: bool)
    ensures
        same == (a@ == b@),
{
    if a.len() != b.len() {
        return false;
    }
    let mut i: usize = 0;
    while i < a.len()
        invariant
            i <= a.len(),
            a.len() == b.len(),
            forall|j: int| 0 <= j < i ==> a@[j] == b@[j],
        decreases a.len() - i,
    {
        if a[i] != b[i] {
            return false;
        }
        i += 1;
    }
    assert(a@ =~= b@);
    true
}

/// Whether the entry at `index` of an opened container is the entry `e`
/// as it is handed back after it was written.
fn entry_reads_back(
    archive: &mut zip::ZipArchive<std::io::Cursor<Vec<u8>>>,
    index: usize,
    e: &ArchiveEntry,
) -> (same: bool)
    requires
        index < stored_entries(*old(archive)).len(),
    ensures
        stored_entries(*final(archive)) == stored_entries(*old(archive)),
        same == (stored_entries(*old(archive))[index as int] == read_back(e@)),
{
    let mut expected = chars_of(e.name.as_str());
    if e.is_directory {
        let n = expected.len();
        if !(n > 0 && (expected[n - 1] == '/' || expected[n - 1] == '\\')) {
            expected.push('/');
        }
    }
    assert(expected@ == stored_view(e@).name);
    let no_password: Vec<u8> = Vec::new();
    let (name, enclosed) = match entry_header(archive, index, no_password.as_slice()) {
        Ok(header) => header,
        Err(_) => {
            return false;
        },
    };
    if !same_chars(&chars_of(name.as_str()), &expected) {
        return false;
    }
    match enclosed {
        Some(path) => {
            if !same_chars(&chars_of(path.as_str()), &expected) {
                return false;
            }
        },
        None => {
            return false;
        },
    }
    let content = match entry_content(archive, index, no_password.as_slice()) {
        Ok(content) => content,
        Err(_) => {
            return false;
        },
    };
    let same = if e.is_directory {
        content.len() == 0
    } else {
        same_bytes(&content, &e.content)
    };
    proof {
        let entry = stored_entries(*old(archive))[index as int];
        assert(entry.opened is Ok);
        assert(entry.opened->Ok_0 == ());
        assert(entry.opened == Ok::<(), Seq<char>>(()));
        assert(entry.name == expected@);
        assert(entry.enclosed == Some(expected@));
        assert(entry.content == Ok::<Seq<u8>, Seq<char>>(content@));
        if e.is_directory {
            if same {
                assert(content@ =~= Seq::<u8>::empty());
            }
        }
    }
    same
}

/// Whether the container `bytes`, opened, hands back the entries of `plan`
/// as they were written: each under its stored name, which is also its
/// enclosed path, and with its content.
pub fn reads_back(bytes: &Vec<u8>, plan: &Vec<ArchiveEntry>) -> (same: bool)
    ensures
        same == (container_entries(bytes@) == Ok::<Seq<StoredEntry>, Seq<char>>(
            read_back_all(entry_views(plan@)),
        )),
{
    let ghost expected = read_back_all(entry_views(plan@));
    let mut archive = match open_container(vstd::slice::slice_to_vec(bytes.as_slice())) {
        Ok(archive) => archive,
        Err(_) => {
            return false;
        },
    };
    let ghost all = stored_entries(archive);
    if entry_count(&archive) != plan.len() {
        return false;
    }
    let mut i: usize = 0;
    while i < plan.len()
        invariant
            i <= plan.len(),
            plan.len() == all.len(),
            stored_entries(archive) == all,
            container_entries(bytes@) == Ok::<Seq<StoredEntry>, Seq<char>>(all),
            expected == read_back_all(entry_views(plan@)),
            forall|j: int| 0 <= j < i ==> all[j] == expected[j],
        decreases plan.len() - i,
    {
        assert(expected[i as int] == read_back(plan@[i as int]@));
        if !entry_reads_back(&mut archive, i, &plan[i]) {
            return false;
        }
        i += 1;
    }
    assert(all =~= expected);
    true
}

/// The Unix permissions of the entries of an archive.
pub const ENTRY_MODE: u32 = 0o755;

/// The number of the zip format for entries that are stored without
/// compression.
pub const STORED: u16 = 0;

/// The bytes of a zip container that holds `plan`: its files stored without
/// compression, its directories under names that end in a slash, all with
/// the permissions `ENTRY_MODE`. The container is read back before it is handed
/// out: opened, it hands back the entries of `plan` as they were written.
/// Fails with a fault of kind `Io` where the container library refuses an
/// entry and where the container does not read back.
pub fn write_archive(plan: &Vec<ArchiveEntry>) -> (r: Result<Vec<u8>, BackupError>)
    ensures
        match r {
            Ok(bytes) => container_entries(bytes@) == Ok::<Seq<StoredEntry>, Seq<char>>(
                read_back_all(entry_views(plan@)),
            ),
            Err(e) => e@.kind == ErrorKind::Io,
        },
{
    let mut writer = new_writer(ENTRY_MODE, STORED);
    let mut i: usize = 0;
    while i < plan.len()
        invariant
            i <= plan.len(),
        decreases plan.len() - i,
    {
        let entry = &plan[i];
        if entry.is_directory {
            match add_directory(&mut writer, entry.name.as_str()) {
                Ok(_) => {},
                Err(reason) => {
                    return Err(BackupError { kind: ErrorKind::Io, message: reason });
                },
            }
        } else {
            match start_file(&mut writer, entry.name.as_str()) {
                Ok(_) => {},
                Err(reason) => {
                    return Err(BackupError { kind: ErrorKind::Io, message: reason });
                },
            }
            match write_content(&mut writer, entry.content.as_slice()) {
                Ok(_) => {},
                Err(reason) => {
                    return Err(BackupError { kind: ErrorKind::Io, message: reason });
                },
            }
        }
        i += 1;
    }
    match finish_writer(writer) {
        Ok(bytes) => if reads_back(&bytes, plan) {
            Ok(bytes)
        } else {
            Err(BackupError::new(ErrorKind::Io, "Archive could not be read back"))
        },
        Err(reason) => Err(BackupError { kind: ErrorKind::Io, message: reason }),
    }
}

/// The archive of a source directory, as bytes: the container of
/// `archive_plan`, which reads back as it was written. Fails as the plan
/// fails, and with a fault of kind `Io` as `write_archive` does.
pub fn pack_config_dir(metadata_json: Option<&str>, walked: Vec<WalkedEntry>) -> (r: Result<
    Vec<u8>,
    BackupError,
>)
    ensures
        match archive_plan(
            match metadata_json {
                Some(json) => Some(json@),
                None => None,
            },
            walked_views(walked@),
        ) {
            Ok(entries) => match r {
                Ok(bytes) => container_entries(bytes@) == Ok::<Seq<StoredEntry>, Seq<char>>(
                    read_back_all(entries),
                ),
                Err(e) => e@.kind == ErrorKind::Io,
            },
            Err(f) => r matches Err(e) && e@ == f,
        },
{
    match plan_archive(metadata_json, walked) {
        Ok(plan) => write_archive(&plan),
        Err(e) => Err(e),
    }
}

/// The writes of a restore from the container `bytes`: a fault of kind
/// `Format` where the bytes are no container, else the `extraction_plan` of
/// its entries.
pub open spec fn restore_plan(bytes: Seq<u8>) -> Result<Seq<ExtractionView>, Fault> {
    match container_entries(bytes) {
        Err(reason) => Err(fault(ErrorKind::Format, "Invalid zip: "@ + reason)),
        Ok(entries) => extraction_plan(entries),
    }
}

proof fn extraction_plan_fails_for_good(entries: Seq<StoredEntry>, k: int)
    requires
        0 <= k <= entries.len(),
        extraction_plan(entries.take(k)) is Err,
    ensures
        extraction_plan(entries) == extraction_plan(entries.take(k)),
    decreases entries.len() - k,
{
    if k == entries.len() {
        assert(entries.take(k) =~= entries);
    } else {
        assert(entries.take(k + 1).drop_last() =~= entries.take(k));
        extraction_plan_fails_for_good(entries, k + 1);
    }
}

/// The writes of a restore from the container `bytes`, in the order of its
/// entries. Nothing is written by this function: a caller performs the
/// writes, or none of them where the result is a fault.
pub fn unpack_zip_to_config(bytes: Vec<u8>) -> (r: Result<Vec<Extraction>, BackupError>)
    ensures
        match restore_plan(bytes@) {
            Ok(steps) => r matches Ok(v) && extraction_views(v@) == steps,
            Err(f) => r matches Err(e) && e@ == f,
        },
{
    let ghost input = bytes@;
    let mut archive = match open_container(bytes) {
        Ok(archive) => archive,
        Err(reason) => {
            return Err(
                BackupError {
                    kind: ErrorKind::Format,
                    message: concat("Invalid zip: ", reason.as_str()),
                },
            );
        },
    };
    let ghost all = stored_entries(archive);
    let count = entry_count(&archive);
    let mut steps: Vec<Extraction> = Vec::new();
    let mut i: usize = 0;
    assert(all.take(0) =~= Seq::<StoredEntry>::empty());
    assert(extraction_views(steps@) =~= Seq::<ExtractionView>::empty());
    while i < count
        invariant
            i <= count,
            count == all.len(),
            stored_entries(archive) == all,
            input == bytes@,
            container_entries(input) == Ok::<Seq<StoredEntry>, Seq<char>>(all),
            extraction_plan(all.take(i as int)) == Ok::<Seq<ExtractionView>, Fault>(
                extraction_views(steps@),
            ),
        decreases count - i,
    {
        proof {
            assert(all.take(i + 1).drop_last() =~= all.take(i as int));
            assert(all.take(i + 1).last() == all[i as int]);
            if extraction_plan(all.take(i + 1)) is Err {
                extraction_plan_fails_for_good(all, i + 1);
            }
        }
        let no_password: Vec<u8> = Vec::new();
        let (name, enclosed) = match entry_header(&mut archive, i, no_password.as_slice()) {
            Ok(header) => header,
            Err(reason) => {
                return Err(BackupError { kind: ErrorKind::Format, message: reason });
            },
        };
        let decision = match &enclosed {
            Some(path) => classify_entry(name.as_str(), Some(path.as_str())),
            None => classify_entry(name.as_str(), None),
        };
        match decision {
            Decision::Skip => {},
            Decision::CreateDirectory { path } => {
                let step = Extraction::CreateDirectory { path };
                proof {
                    assert(extraction_views(steps@.push(step)) =~= extraction_views(steps@).push(
                        step@,
                    ));
                }
                steps.push(step);
            },
            Decision::WriteFile { path } => {
                let content = match entry_content(&mut archive, i, no_password.as_slice()) {
                    Ok(content) => content,
                    Err(reason) => {
                        return Err(BackupError { kind: ErrorKind::Io, message: reason });
                    },
                };
                let step = Extraction::WriteFile { path, content };
                proof {
                    assert(extraction_views(steps@.push(step)) =~= extraction_views(steps@).push(
                        step@,
                    ));
                }
                steps.push(step);
            },
        }
        i += 1;
    }
    proof {
        assert(all.take(all.len() as int) =~= all);
    }
    Ok(steps)
}

/// The text of the metadata entry of the container `bytes`; `None` where
/// the bytes are no container and where the lookup of `backup_meta.json`
/// gives no text.
pub open spec fn metadata_text(bytes: Seq<u8>) -> Option<Seq<char>> {
    match container_entries(bytes) {
        Err(_) => None,
        Ok(entries) => named_text(entries, metadata_name()),
    }
}

/// The text of the metadata entry of the container `bytes`, for a preview.
pub fn read_metadata_text(bytes: Vec<u8>) -> (r: Option<String>)
    ensures
        optional_text(r) == metadata_text(bytes@),
{
    match open_container(bytes) {
        Ok(archive) => {
            let mut archive = archive;
            let no_password: Vec<u8> = Vec::new();
            entry_text(&mut archive, "backup_meta.json", no_password.as_slice())
        },
        Err(_) => None,
    }
}

} // verus!
