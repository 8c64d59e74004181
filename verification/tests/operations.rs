use config_backup::archive::{pack_config_dir, WalkedEntry};
use config_backup::backup::LocalTime;
use config_backup::create::{CreateBackup, CreateCommand, CreateEvent, CreateStep};
use config_backup::error::{BackupError, ErrorKind};
use config_backup::local::{
    ExportCommand, ExportEvent, ExportLocal, ExportStep, ImportCommand, ImportEvent, ImportLocal,
    ImportStep,
};
use config_backup::models::BackupMetadata;
use config_backup::preview::{PrepareRestore, PreviewCommand, PreviewEvent, PreviewStep};
use config_backup::remote::{RemoteCall, RemoteCommand, RemoteEvent, RemoteStep, RemoteTask};
use config_backup::vault::save_password;
use config_backup::webdav::{Exchange, Method};

fn moment() -> LocalTime {
    LocalTime { year: 2024, month: 3, day: 7, hour: 9, minute: 5, second: 1 }
}

fn ok(status: u16, text: &str) -> Exchange {
    Exchange::Answered { status, status_text: text.to_string() }
}

fn begin_backup(password: Option<&str>) -> (CreateBackup, CreateCommand) {
    let (b, report, command) = CreateBackup::begin(
        "https://h/dav/".to_string(),
        "user".to_string(),
        password.map(|p| p.to_string()),
        "My PC".to_string(),
        "dev-1".to_string(),
    );
    let report = report.unwrap();
    assert_eq!(report.message, "backup.progress.preparing");
    assert_eq!(report.progress.whole(), 10);
    (b, command)
}

#[test]
fn backup_with_empty_password_uses_the_vault() {
    let vault = save_password("secret").unwrap();
    let (mut b, command) = begin_backup(Some(""));
    assert!(matches!(command, CreateCommand::ReadVault));
    assert_eq!(b.step, CreateStep::ReadingVault);

    let (report, command) = b.advance(CreateEvent::VaultRead { stored: Some(vault) });
    assert!(report.is_none());
    assert!(matches!(command, CreateCommand::ReadClock));
    assert_eq!(b.password, "secret");

    let (report, command) = b.advance(CreateEvent::ClockRead {
        now: moment(),
        millis: 1709802301000,
        platform: "linux".to_string(),
    });
    let report = report.unwrap();
    assert_eq!(report.message, "backup.progress.compressing");
    assert_eq!(report.progress.whole(), 30);
    match command {
        CreateCommand::Pack { filename, metadata } => {
            assert_eq!(filename, "backup_MyPC_2024-03-07_090501.zip");
            assert_eq!(metadata.version, "1.0.0");
            assert_eq!(metadata.device_id, "dev-1");
            assert_eq!(metadata.device_name, "My PC");
            assert_eq!(metadata.timestamp, 1709802301000);
            assert_eq!(metadata.platform, "linux");
        }
        _ => panic!("packing was expected"),
    }

    let (report, command) = b.advance(CreateEvent::Packed { bytes: vec![80, 75, 5, 6] });
    let report = report.unwrap();
    assert_eq!(report.message, "backup.progress.uploading");
    assert_eq!(report.progress.whole(), 60);
    match command {
        CreateCommand::Upload { request } => {
            assert_eq!(request.method, Method::Put);
            assert_eq!(request.url, "https://h/dav/backup_MyPC_2024-03-07_090501.zip");
            assert_eq!(request.username, "user");
            assert_eq!(request.password, "secret");
            assert_eq!(request.body, vec![80, 75, 5, 6]);
        }
        _ => panic!("an upload was expected"),
    }

    let (report, command) = b.advance(CreateEvent::Answered { outcome: ok(201, "201 Created") });
    assert!(report.is_none());
    match command {
        CreateCommand::RemoveTempFile { filename } => {
            assert_eq!(filename, "backup_MyPC_2024-03-07_090501.zip")
        }
        _ => panic!("the removal of the temporary file was expected"),
    }

    let (report, command) = b.advance(CreateEvent::TempFileRemoved);
    let report = report.unwrap();
    assert_eq!(report.message, "backup.progress.complete");
    assert_eq!(report.progress.whole(), 100);
    match command {
        CreateCommand::Finish { message } => {
            assert_eq!(message, "Backup uploaded: backup_MyPC_2024-03-07_090501.zip")
        }
        _ => panic!("success was expected"),
    }
    assert_eq!(b.step, CreateStep::Done);
    let (_, command) = b.advance(CreateEvent::TempFileRemoved);
    assert!(matches!(command, CreateCommand::Nothing));
}

#[test]
fn backup_with_a_password_does_not_read_the_vault() {
    let (mut b, command) = begin_backup(Some("given"));
    assert!(matches!(command, CreateCommand::ReadClock));
    assert_eq!(b.password, "given");
    b.advance(CreateEvent::ClockRead { now: moment(), millis: 0, platform: "macos".to_string() });
    let (_, command) = b.advance(CreateEvent::Packed { bytes: Vec::new() });
    match command {
        CreateCommand::Upload { request } => assert_eq!(request.password, "given"),
        _ => panic!("an upload was expected"),
    }
}

#[test]
fn backup_without_any_password_fails_before_any_request() {
    for argument in [None, Some("")] {
        for stored in [None, Some("aGVsbG8=".to_string()), Some("%%%".to_string())] {
            let (mut b, command) = begin_backup(argument);
            assert!(matches!(command, CreateCommand::ReadVault));
            let (report, command) = b.advance(CreateEvent::VaultRead { stored });
            assert!(report.is_none());
            match command {
                CreateCommand::Fail { error } => {
                    assert_eq!(error.kind, ErrorKind::Auth);
                    assert_eq!(error.message, "Password required");
                }
                _ => panic!("a failure was expected"),
            }
            assert_eq!(b.step, CreateStep::Failed);
            let later = [
                CreateEvent::ClockRead { now: moment(), millis: 0, platform: String::new() },
                CreateEvent::Packed { bytes: vec![1] },
                CreateEvent::Answered { outcome: ok(200, "200 OK") },
                CreateEvent::TempFileRemoved,
            ];
            for event in later {
                let (report, command) = b.advance(event);
                assert!(report.is_none());
                assert!(matches!(command, CreateCommand::Nothing));
            }
        }
    }
}

#[test]
fn temp_file_is_removed_when_the_upload_fails() {
    let (mut b, _) = begin_backup(Some("pw"));
    b.advance(CreateEvent::ClockRead { now: moment(), millis: 0, platform: String::new() });
    b.advance(CreateEvent::Packed { bytes: vec![1, 2] });
    let (_, command) = b.advance(CreateEvent::Answered {
        outcome: ok(507, "507 Insufficient Storage"),
    });
    assert!(matches!(command, CreateCommand::RemoveTempFile { .. }));
    let (report, command) = b.advance(CreateEvent::TempFileRemoved);
    assert!(report.is_none());
    match command {
        CreateCommand::Fail { error } => {
            assert_eq!(error.kind, ErrorKind::RemoteStatus);
            assert_eq!(error.message, "WebDAV upload failed: 507 Insufficient Storage");
        }
        _ => panic!("a failure was expected"),
    }
    assert_eq!(b.step, CreateStep::Failed);

    let (mut b, _) = begin_backup(Some("pw"));
    b.advance(CreateEvent::ClockRead { now: moment(), millis: 0, platform: String::new() });
    b.advance(CreateEvent::Packed { bytes: vec![1, 2] });
    let (_, command) = b.advance(CreateEvent::Answered {
        outcome: Exchange::Failed { reason: "timed out".to_string() },
    });
    assert!(matches!(command, CreateCommand::RemoveTempFile { .. }));
    let (_, command) = b.advance(CreateEvent::TempFileRemoved);
    match command {
        CreateCommand::Fail { error } => {
            assert_eq!(error.kind, ErrorKind::Network);
            assert_eq!(error.message, "Upload failed: timed out");
        }
        _ => panic!("a failure was expected"),
    }
}

#[test]
fn failed_packing_fails_the_backup() {
    let (mut b, _) = begin_backup(Some("pw"));
    b.advance(CreateEvent::ClockRead { now: moment(), millis: 0, platform: String::new() });
    let (_, command) = b.advance(CreateEvent::PackFailed {
        error: BackupError::new(ErrorKind::Format, "Invalid path encoding"),
    });
    match command {
        CreateCommand::RemoveTempFile { filename } => {
            assert_eq!(filename, "backup_MyPC_2024-03-07_090501.zip")
        }
        _ => panic!("the removal of the temporary file was expected"),
    }
    assert_eq!(b.step, CreateStep::RemovingTempFile);
    let (report, command) = b.advance(CreateEvent::TempFileRemoved);
    assert!(report.is_none());
    assert_eq!(b.step, CreateStep::Failed);
    match command {
        CreateCommand::Fail { error } => {
            assert_eq!(error.kind, ErrorKind::Format);
            assert_eq!(error.message, "Invalid path encoding");
        }
        _ => panic!("a failure was expected"),
    }
}

#[test]
fn backup_events_out_of_order_fail() {
    let (mut b, _) = begin_backup(None);
    let (_, command) = b.advance(CreateEvent::Packed { bytes: vec![1] });
    match command {
        CreateCommand::Fail { error } => {
            assert_eq!(error.kind, ErrorKind::Io);
            assert_eq!(error.message, "Backup out of sequence");
        }
        _ => panic!("a failure was expected"),
    }
    assert_eq!(b.step, CreateStep::Failed);
}

fn archive_with_metadata() -> Vec<u8> {
    let walked = vec![WalkedEntry {
        path: Some("a.txt".to_string()),
        is_file: true,
        content: Ok(b"a".to_vec()),
    }];
    pack_config_dir(Some("{\"deviceName\":\"pc\"}"), walked).unwrap()
}

#[test]
fn preview_downloads_writes_and_reads_metadata() {
    let (mut p, report, command) = PrepareRestore::begin(
        "https://h/dav".to_string(),
        "user".to_string(),
        Some("pw".to_string()),
        "backup_x.zip".to_string(),
    );
    let report = report.unwrap();
    assert_eq!(report.message, "backup.progress.preparing");
    assert_eq!(report.progress.whole(), 5);
    match command {
        PreviewCommand::Download { request } => {
            assert_eq!(request.method, Method::Get);
            assert_eq!(request.url, "https://h/dav/backup_x.zip");
            assert_eq!(request.password, "pw");
        }
        _ => panic!("a download was expected"),
    }
    assert_eq!(p.step, PreviewStep::AwaitingAnswer);

    let bytes = archive_with_metadata();
    let total = bytes.len() as u64;
    let (report, command) =
        p.advance(PreviewEvent::Answered { outcome: ok(200, "200 OK"), content_length: Some(total) });
    let report = report.unwrap();
    assert_eq!(report.message, "backup.progress.downloading");
    assert_eq!(report.progress.whole(), 20);
    assert!(matches!(command, PreviewCommand::ReadChunk));

    let half = bytes.len() / 2;
    let (report, command) = p.advance(PreviewEvent::Chunk { bytes: bytes[..half].to_vec() });
    let report = report.unwrap();
    assert_eq!(report.message, "backup.progress.downloading");
    assert_eq!(report.progress.start, 20);
    assert_eq!(report.progress.span, 60);
    assert_eq!(report.progress.done, half as u64);
    assert_eq!(report.progress.total, total);
    assert!(matches!(command, PreviewCommand::ReadChunk));
    let (report, _) = p.advance(PreviewEvent::Chunk { bytes: bytes[half..].to_vec() });
    assert_eq!(report.unwrap().progress.whole(), 80);
    assert_eq!(p.received(), &bytes);

    let (report, command) = p.advance(PreviewEvent::BodyEnded);
    let report = report.unwrap();
    assert_eq!(report.message, "backup.progress.analyzing");
    assert_eq!(report.progress.whole(), 90);
    assert!(matches!(command, PreviewCommand::ReadClock));

    let (report, command) = p.advance(PreviewEvent::ClockRead { seconds: 1709802301 });
    assert!(report.is_none());
    match command {
        PreviewCommand::WriteTempFile { name } => assert_eq!(name, "restore_temp_1709802301.zip"),
        _ => panic!("the writing of the temporary file was expected"),
    }
    assert_eq!(p.received(), &bytes);

    let (report, command) = p.advance(PreviewEvent::TempFileWritten {
        path: "/tmp/restore_temp_1709802301.zip".to_string(),
    });
    assert!(report.is_none());
    match command {
        PreviewCommand::ParseMetadata { text } => assert_eq!(text, "{\"deviceName\":\"pc\"}"),
        _ => panic!("the parsing of the metadata was expected"),
    }

    let metadata = BackupMetadata::new("id".to_string(), "pc".to_string(), 7, "linux".to_string());
    let (report, command) = p.advance(PreviewEvent::MetadataParsed { metadata: Some(metadata) });
    let report = report.unwrap();
    assert_eq!(report.message, "backup.progress.complete");
    assert_eq!(report.progress.whole(), 100);
    match command {
        PreviewCommand::Finish { preview } => {
            assert_eq!(preview.temp_file_path, "/tmp/restore_temp_1709802301.zip");
            assert_eq!(preview.metadata.unwrap().device_name, "pc");
        }
        _ => panic!("a preview was expected"),
    }
    assert_eq!(p.step, PreviewStep::Done);
}

fn preview_up_to_temp_file(bytes: &[u8]) -> PrepareRestore {
    let (mut p, _, _) = PrepareRestore::begin(
        "u".to_string(),
        "n".to_string(),
        Some("pw".to_string()),
        "f".to_string(),
    );
    p.advance(PreviewEvent::Answered { outcome: ok(200, "200 OK"), content_length: None });
    let (report, _) = p.advance(PreviewEvent::Chunk { bytes: bytes.to_vec() });
    assert_eq!(report.unwrap().progress.whole(), 50);
    p.advance(PreviewEvent::BodyEnded);
    p.advance(PreviewEvent::ClockRead { seconds: 1 });
    p
}

#[test]
fn preview_of_what_is_no_archive_has_no_metadata() {
    let mut p = preview_up_to_temp_file(b"not a zip");
    let (report, command) = p.advance(PreviewEvent::TempFileWritten { path: "/t/x".to_string() });
    assert_eq!(report.unwrap().progress.whole(), 100);
    match command {
        PreviewCommand::Finish { preview } => {
            assert_eq!(preview.temp_file_path, "/t/x");
            assert!(preview.metadata.is_none());
        }
        _ => panic!("a preview was expected"),
    }
}

#[test]
fn preview_with_metadata_that_does_not_parse_still_succeeds() {
    let mut p = preview_up_to_temp_file(&archive_with_metadata());
    let (_, command) = p.advance(PreviewEvent::TempFileWritten { path: "/t/x".to_string() });
    assert!(matches!(command, PreviewCommand::ParseMetadata { .. }));
    let (_, command) = p.advance(PreviewEvent::MetadataParsed { metadata: None });
    match command {
        PreviewCommand::Finish { preview } => assert!(preview.metadata.is_none()),
        _ => panic!("a preview was expected"),
    }
}

#[test]
fn preview_fails_as_the_download_fails() {
    let (mut p, _, command) =
        PrepareRestore::begin("u".to_string(), "n".to_string(), None, "f".to_string());
    assert!(matches!(command, PreviewCommand::ReadVault));
    let (_, command) = p.advance(PreviewEvent::VaultRead { stored: None });
    match command {
        PreviewCommand::Fail { error } => {
            assert_eq!(error.kind, ErrorKind::Auth);
            assert_eq!(error.message, "Password required");
        }
        _ => panic!("a failure was expected"),
    }

    let vault = save_password("secret").unwrap();
    let (mut p, _, _) =
        PrepareRestore::begin("u".to_string(), "n".to_string(), None, "f".to_string());
    let (_, command) = p.advance(PreviewEvent::VaultRead { stored: Some(vault) });
    match command {
        PreviewCommand::Download { request } => assert_eq!(request.password, "secret"),
        _ => panic!("a download was expected"),
    }
    let (_, command) = p.advance(PreviewEvent::Answered {
        outcome: ok(404, "404 Not Found"),
        content_length: None,
    });
    match command {
        PreviewCommand::Fail { error } => {
            assert_eq!(error.kind, ErrorKind::NotFound);
            assert_eq!(error.message, "Server error: 404 Not Found");
        }
        _ => panic!("a failure was expected"),
    }

    let (mut p, _, _) = PrepareRestore::begin(
        "u".to_string(),
        "n".to_string(),
        Some("pw".to_string()),
        "f".to_string(),
    );
    p.advance(PreviewEvent::Answered { outcome: ok(200, "200 OK"), content_length: Some(10) });
    let (_, command) = p.advance(PreviewEvent::ChunkFailed { reason: "reset".to_string() });
    match command {
        PreviewCommand::Fail { error } => {
            assert_eq!(error.kind, ErrorKind::Network);
            assert_eq!(error.message, "Chunk error: reset");
        }
        _ => panic!("a failure was expected"),
    }
    assert_eq!(p.step, PreviewStep::Failed);

    let mut p = preview_up_to_temp_file(b"x");
    let (_, command) = p.advance(PreviewEvent::TempFileFailed { reason: "disk full".to_string() });
    match command {
        PreviewCommand::Fail { error } => {
            assert_eq!(error.kind, ErrorKind::Io);
            assert_eq!(error.message, "disk full");
        }
        _ => panic!("a failure was expected"),
    }
}

#[test]
fn export_packs_with_the_metadata_of_a_local_export() {
    let (mut e, report, command) = ExportLocal::begin("/home/u/out.zip".to_string());
    let report = report.unwrap();
    assert_eq!(report.message, "backup.progress.compressing");
    assert_eq!(report.progress.whole(), 20);
    assert!(matches!(command, ExportCommand::ReadClock));
    let (report, command) =
        e.advance(ExportEvent::ClockRead { millis: 99, platform: "windows".to_string() });
    assert!(report.is_none());
    match command {
        ExportCommand::Pack { target_path, metadata } => {
            assert_eq!(target_path, "/home/u/out.zip");
            assert_eq!(metadata.device_id, "local_export");
            assert_eq!(metadata.device_name, "Local");
            assert_eq!(metadata.version, "1.0.0");
            assert_eq!(metadata.timestamp, 99);
            assert_eq!(metadata.platform, "windows");
        }
        _ => panic!("packing was expected"),
    }
    let (report, command) = e.advance(ExportEvent::Packed);
    assert_eq!(report.unwrap().progress.whole(), 100);
    assert!(matches!(command, ExportCommand::Finish));
    assert_eq!(e.step, ExportStep::Done);

    let (mut e, _, _) = ExportLocal::begin("x".to_string());
    e.advance(ExportEvent::ClockRead { millis: 0, platform: String::new() });
    let (_, command) =
        e.advance(ExportEvent::PackFailed { error: BackupError::new(ErrorKind::Io, "denied") });
    match command {
        ExportCommand::Abandon { target_path, error } => {
            assert_eq!(target_path, "x");
            assert_eq!(error.message, "denied");
        }
        _ => panic!("a failure was expected"),
    }
    assert_eq!(e.step, ExportStep::Failed);
    let (mut e, _, _) = ExportLocal::begin("x".to_string());
    let (_, command) = e.advance(ExportEvent::Packed);
    match command {
        ExportCommand::Fail { error } => assert_eq!(error.message, "Operation out of sequence"),
        _ => panic!("a failure was expected"),
    }
}

#[test]
fn import_opens_then_unpacks() {
    let (mut i, report, command) = ImportLocal::begin("/home/u/in.zip".to_string());
    let report = report.unwrap();
    assert_eq!(report.message, "backup.progress.preparing");
    assert_eq!(report.progress.whole(), 20);
    match command {
        ImportCommand::OpenFile { path } => assert_eq!(path, "/home/u/in.zip"),
        _ => panic!("the opening of the file was expected"),
    }
    let (report, command) = i.advance(ImportEvent::FileOpened);
    let report = report.unwrap();
    assert_eq!(report.message, "backup.progress.extracting");
    assert_eq!(report.progress.whole(), 50);
    assert!(matches!(command, ImportCommand::Unpack));
    let (report, command) = i.advance(ImportEvent::Unpacked);
    assert_eq!(report.unwrap().progress.whole(), 100);
    assert!(matches!(command, ImportCommand::Finish));
    assert_eq!(i.step, ImportStep::Done);
}

#[test]
fn import_of_a_missing_file_fails_and_unpacks_nothing() {
    let (mut i, _, _) = ImportLocal::begin("/nowhere".to_string());
    let (report, command) = i.advance(ImportEvent::FileMissing {
        reason: "No such file or directory (os error 2)".to_string(),
    });
    assert!(report.is_none());
    match command {
        ImportCommand::Fail { error } => {
            assert_eq!(error.kind, ErrorKind::Io);
            assert_eq!(error.message, "Failed to open file: No such file or directory (os error 2)");
        }
        _ => panic!("a failure was expected"),
    }
    assert_eq!(i.step, ImportStep::Failed);
    let (_, command) = i.advance(ImportEvent::FileOpened);
    assert!(matches!(command, ImportCommand::Nothing));

    let (mut i, _, _) = ImportLocal::begin("x".to_string());
    i.advance(ImportEvent::FileOpened);
    let (_, command) = i.advance(ImportEvent::UnpackFailed {
        error: BackupError::new(ErrorKind::Format, "Invalid zip: x"),
    });
    match command {
        ImportCommand::Fail { error } => assert_eq!(error.message, "Invalid zip: x"),
        _ => panic!("a failure was expected"),
    }
}

fn call(task: RemoteTask, password: Option<&str>) -> (RemoteCall, RemoteCommand) {
    RemoteCall::begin(
        task,
        "https://h/dav/".to_string(),
        "user".to_string(),
        password.map(|p| p.to_string()),
        "backup_x.zip".to_string(),
    )
}

#[test]
fn probe_sends_a_propfind_and_reports_success() {
    let (mut c, command) = call(RemoteTask::Check, Some("pw"));
    match command {
        RemoteCommand::Send { request } => {
            assert_eq!(request.method, Method::Propfind);
            assert_eq!(request.url, "https://h/dav/");
            assert_eq!(request.depth, Some(0));
            assert_eq!(request.password, "pw");
        }
        _ => panic!("a request was expected"),
    }
    let command = c.advance(RemoteEvent::Answered {
        outcome: ok(207, "207 Multi-Status"),
        body: Err("unread".to_string()),
    });
    match command {
        RemoteCommand::Finish { message } => assert_eq!(message, "Connection successful"),
        _ => panic!("success was expected"),
    }
    assert_eq!(c.step, RemoteStep::Done);
    assert!(matches!(
        c.advance(RemoteEvent::VaultRead { stored: None }),
        RemoteCommand::Nothing
    ));
}

#[test]
fn removal_addresses_the_file() {
    let vault = save_password("secret").unwrap();
    let (mut c, command) = call(RemoteTask::Delete, None);
    assert!(matches!(command, RemoteCommand::ReadVault));
    match c.advance(RemoteEvent::VaultRead { stored: Some(vault) }) {
        RemoteCommand::Send { request } => {
            assert_eq!(request.method, Method::Delete);
            assert_eq!(request.url, "https://h/dav/backup_x.zip");
            assert_eq!(request.password, "secret");
        }
        _ => panic!("a request was expected"),
    }
    match c.advance(RemoteEvent::Answered { outcome: ok(204, "204 No Content"), body: Ok(String::new()) })
    {
        RemoteCommand::Finish { message } => assert_eq!(message, "Deleted successfully"),
        _ => panic!("success was expected"),
    }
    let (mut c, _) = call(RemoteTask::Delete, Some("pw"));
    match c.advance(RemoteEvent::Answered { outcome: ok(404, "404 Not Found"), body: Ok(String::new()) })
    {
        RemoteCommand::Fail { error } => {
            assert_eq!(error.kind, ErrorKind::NotFound);
            assert_eq!(error.message, "Status: 404 Not Found");
        }
        _ => panic!("a failure was expected"),
    }
    assert_eq!(c.step, RemoteStep::Failed);
}

#[test]
fn listing_hands_out_the_backups() {
    let (mut c, command) = call(RemoteTask::List, Some("pw"));
    match command {
        RemoteCommand::Send { request } => {
            assert_eq!(request.method, Method::Propfind);
            assert_eq!(request.depth, Some(1));
        }
        _ => panic!("a request was expected"),
    }
    let body = "<D:response><D:href>/d/backup_a.zip</D:href></D:response>\
                <D:response><D:href>/d/backup_b.zip</D:href></D:response>\
                <D:response><D:href>/d/notes.txt</D:href></D:response>";
    match c.advance(RemoteEvent::Answered {
        outcome: ok(207, "207 Multi-Status"),
        body: Ok(body.to_string()),
    }) {
        RemoteCommand::FinishListing { files } => {
            let names: Vec<&str> = files.iter().map(|f| f.name.as_str()).collect();
            assert_eq!(names, vec!["backup_b.zip", "backup_a.zip"]);
        }
        _ => panic!("a listing was expected"),
    }
}

#[test]
fn short_operations_without_password_send_nothing() {
    for task in [RemoteTask::Check, RemoteTask::List, RemoteTask::Delete] {
        for argument in [None, Some("")] {
            let (mut c, command) = call(task, argument);
            assert!(matches!(command, RemoteCommand::ReadVault));
            match c.advance(RemoteEvent::VaultRead { stored: None }) {
                RemoteCommand::Fail { error } => {
                    assert_eq!(error.kind, ErrorKind::Auth);
                    assert_eq!(error.message, "Password required");
                }
                _ => panic!("a failure was expected"),
            }
            let later = c.advance(RemoteEvent::Answered {
                outcome: ok(200, "200 OK"),
                body: Ok(String::new()),
            });
            assert!(matches!(later, RemoteCommand::Nothing));
        }
    }
    let (mut c, _) = call(RemoteTask::Check, None);
    match c.advance(RemoteEvent::Answered { outcome: ok(200, "200 OK"), body: Ok(String::new()) }) {
        RemoteCommand::Fail { error } => assert_eq!(error.message, "Operation out of sequence"),
        _ => panic!("a failure was expected"),
    }
}
