use config_backup::archive::{
    classify_entry, classify_source, pack_config_dir, plan_archive, read_metadata_text,
    reads_back, unpack_zip_to_config, write_archive, ArchiveEntry, Decision, Extraction,
    PackAction, WalkedEntry,
};
use config_backup::error::ErrorKind;
use std::io::{Cursor, Read, Write};

fn file(path: &str, content: &[u8]) -> WalkedEntry {
    WalkedEntry { path: Some(path.to_string()), is_file: true, content: Ok(content.to_vec()) }
}

fn dir(path: &str) -> WalkedEntry {
    WalkedEntry { path: Some(path.to_string()), is_file: false, content: Ok(Vec::new()) }
}

fn show(steps: &[Extraction]) -> Vec<(String, Option<Vec<u8>>)> {
    steps
        .iter()
        .map(|s| match s {
            Extraction::CreateDirectory { path } => (path.clone(), None),
            Extraction::WriteFile { path, content } => (path.clone(), Some(content.clone())),
        })
        .collect()
}

fn names_in(bytes: &[u8]) -> Vec<String> {
    let mut archive = zip::ZipArchive::new(Cursor::new(bytes.to_vec())).unwrap();
    let mut out = Vec::new();
    for i in 0..archive.len() {
        out.push(archive.by_index(i).unwrap().name().to_string());
    }
    out
}

fn container(entries: &[(&str, Option<&[u8]>)]) -> Vec<u8> {
    let mut w = zip::ZipWriter::new(Cursor::new(Vec::new()));
    let options =
        zip::write::FileOptions::default().compression_method(zip::CompressionMethod::Stored);
    for (name, content) in entries {
        match content {
            Some(c) => {
                w.start_file(*name, options).unwrap();
                w.write_all(c).unwrap();
            }
            None => w.add_directory(*name, options).unwrap(),
        }
    }
    w.finish().unwrap().into_inner()
}

#[test]
fn sources_are_classified() {
    assert_eq!(classify_source("settings.json", true), PackAction::AddFile);
    assert_eq!(classify_source("sub/dir", false), PackAction::AddDirectory);
    assert_eq!(classify_source("", false), PackAction::Skip);
    assert_eq!(classify_source("", true), PackAction::AddFile);
    assert_eq!(classify_source(".webdav_secret", true), PackAction::Skip);
    assert_eq!(classify_source("a/.webdav_secret.bak", true), PackAction::Skip);
    assert_eq!(classify_source("my.credentials.json", true), PackAction::Skip);
    assert_eq!(classify_source("x/.credentials/y", false), PackAction::Skip);
    assert_eq!(classify_source(".credential", true), PackAction::AddFile);
    assert_eq!(classify_source("webdav_secret", true), PackAction::AddFile);
}

#[test]
fn entries_are_classified() {
    assert!(matches!(classify_entry("a.txt", None), Decision::Skip));
    assert!(matches!(classify_entry("../../evil", None), Decision::Skip));
    assert!(matches!(classify_entry("../../evil", Some("../../evil")), Decision::Skip));
    assert!(matches!(classify_entry("/etc/passwd", Some("/etc/passwd")), Decision::Skip));
    assert!(matches!(classify_entry("a/../../b", Some("a/../../b")), Decision::Skip));
    assert!(matches!(classify_entry("a\0b", Some("a\0b")), Decision::Skip));
    assert!(matches!(classify_entry(".webdav_secret", Some(".webdav_secret")), Decision::Skip));
    assert!(matches!(classify_entry("d/x.credentials", Some("d/x.credentials")), Decision::Skip));
    match classify_entry("a/b.txt", Some("a/b.txt")) {
        Decision::WriteFile { path } => assert_eq!(path, "a/b.txt"),
        _ => panic!("a file was expected"),
    }
    match classify_entry("a/../b.txt", Some("a/../b.txt")) {
        Decision::WriteFile { path } => assert_eq!(path, "a/../b.txt"),
        _ => panic!("a file was expected"),
    }
    match classify_entry("./a//b/./c", Some("./a//b/./c")) {
        Decision::WriteFile { path } => assert_eq!(path, "./a//b/./c"),
        _ => panic!("a file was expected"),
    }
    match classify_entry("a/b/", Some("a/b/")) {
        Decision::CreateDirectory { path } => assert_eq!(path, "a/b/"),
        _ => panic!("a directory was expected"),
    }
    match classify_entry("..a/b..", Some("..a/b..")) {
        Decision::WriteFile { path } => assert_eq!(path, "..a/b.."),
        _ => panic!("a file was expected"),
    }
}

#[test]
fn plan_puts_metadata_first_and_leaves_sensitive_files_out() {
    let walked = vec![
        dir(""),
        file("settings.json", b"{}"),
        file(".webdav_secret", b"X1NBTFRf"),
        dir("keys"),
        file("keys/id.credentials", b"k"),
        file("keys/readme.txt", b"r"),
        dir("empty"),
    ];
    let plan = plan_archive(Some("{\"version\":\"1.0.0\"}"), walked).unwrap();
    let seen: Vec<(String, bool, Vec<u8>)> =
        plan.iter().map(|e| (e.name.clone(), e.is_directory, e.content.clone())).collect();
    assert_eq!(
        seen,
        vec![
            ("backup_meta.json".to_string(), false, b"{\"version\":\"1.0.0\"}".to_vec()),
            ("settings.json".to_string(), false, b"{}".to_vec()),
            ("keys".to_string(), true, Vec::new()),
            ("keys/readme.txt".to_string(), false, b"r".to_vec()),
            ("empty".to_string(), true, Vec::new()),
        ]
    );
}

#[test]
fn without_metadata_there_is_no_archive() {
    let e = plan_archive(None, vec![file("a", b"1")]).unwrap_err();
    assert_eq!(e.kind, ErrorKind::Format);
    assert_eq!(e.message, "Metadata could not be written");
    let e = pack_config_dir(None, Vec::new()).unwrap_err();
    assert_eq!(e.kind, ErrorKind::Format);
    assert_eq!(e.message, "Metadata could not be written");
    let unreadable = vec![WalkedEntry { path: None, is_file: true, content: Ok(Vec::new()) }];
    assert_eq!(plan_archive(None, unreadable).unwrap_err().message, "Metadata could not be written");
}

#[test]
fn stale_metadata_file_of_the_source_is_not_packed() {
    let walked = vec![
        dir(""),
        file("backup_meta.json", b"STALE"),
        file("a.txt", b"a"),
        dir("sub"),
        file("sub/backup_meta.json", b"inner"),
    ];
    let fresh = "{\"deviceId\":\"fresh\"}";
    let bytes = pack_config_dir(Some(fresh), walked).unwrap();
    assert_eq!(
        names_in(&bytes),
        vec!["backup_meta.json", "a.txt", "sub/", "sub/backup_meta.json"]
    );
    let mut archive = zip::ZipArchive::new(Cursor::new(bytes.clone())).unwrap();
    let mut by_name = String::new();
    archive.by_name("backup_meta.json").unwrap().read_to_string(&mut by_name).unwrap();
    assert_eq!(by_name, fresh);
    assert_eq!(read_metadata_text(bytes.clone()).as_deref(), Some(fresh));
    let steps = unpack_zip_to_config(bytes).unwrap();
    assert_eq!(
        show(&steps),
        vec![
            ("backup_meta.json".to_string(), Some(fresh.as_bytes().to_vec())),
            ("a.txt".to_string(), Some(b"a".to_vec())),
            ("sub/".to_string(), None),
            ("sub/backup_meta.json".to_string(), Some(b"inner".to_vec())),
        ]
    );
    assert_eq!(classify_source("backup_meta.json", true), PackAction::Skip);
    assert_eq!(classify_source("backup_meta.json", false), PackAction::Skip);
    assert_eq!(classify_source("sub/backup_meta.json", true), PackAction::AddFile);
    assert_eq!(classify_source("backup_meta.json.bak", true), PackAction::AddFile);
}

#[test]
fn lookup_by_name_finds_the_last_entry_of_the_name() {
    let twice = container(&[
        ("backup_meta.json", Some(b"first")),
        ("x", Some(b"x")),
        ("backup_meta.json", Some(b"last")),
    ]);
    assert_eq!(read_metadata_text(twice).as_deref(), Some("last"));
    let broken_last = container(&[
        ("backup_meta.json", Some(b"first")),
        ("backup_meta.json", Some(&[0xff])),
    ]);
    assert_eq!(read_metadata_text(broken_last), None);
}

#[test]
fn path_that_is_no_text_fails_the_plan() {
    let walked = vec![
        file("a", b"1"),
        WalkedEntry { path: None, is_file: true, content: Ok(Vec::new()) },
        file("b", b"2"),
    ];
    let e = plan_archive(Some("{}"), walked).unwrap_err();
    assert_eq!(e.kind, ErrorKind::Format);
    assert_eq!(e.message, "Invalid path encoding");
}

#[test]
fn file_that_could_not_be_read_fails_the_plan() {
    let walked = vec![
        file("a", b"1"),
        WalkedEntry {
            path: Some("gone.txt".to_string()),
            is_file: true,
            content: Err("No such file or directory (os error 2)".to_string()),
        },
    ];
    let e = plan_archive(Some("{}"), walked).unwrap_err();
    assert_eq!(e.kind, ErrorKind::Io);
    assert_eq!(e.message, "No such file or directory (os error 2)");
}

#[test]
fn unread_content_of_what_is_not_packed_does_not_matter() {
    let walked = vec![
        WalkedEntry {
            path: Some(".webdav_secret".to_string()),
            is_file: true,
            content: Err("not read".to_string()),
        },
        WalkedEntry {
            path: Some("d".to_string()),
            is_file: false,
            content: Err("is a directory".to_string()),
        },
    ];
    let plan = plan_archive(Some("{}"), walked).unwrap();
    assert_eq!(plan.len(), 2);
    assert_eq!(plan[1].name, "d");
    assert!(plan[1].is_directory);
}

#[test]
fn the_first_fault_of_the_walk_is_the_fault_of_the_plan() {
    let walked = vec![
        WalkedEntry { path: Some("x".to_string()), is_file: true, content: Err("first".to_string()) },
        WalkedEntry { path: None, is_file: true, content: Ok(Vec::new()) },
    ];
    let e = plan_archive(Some("{}"), walked).unwrap_err();
    assert_eq!(e.kind, ErrorKind::Io);
    assert_eq!(e.message, "first");
}

#[test]
fn packed_container_holds_the_planned_entries() {
    let walked = vec![
        dir(""),
        file("settings.json", b"{\"a\":1}"),
        dir("sub"),
        file("sub/data.bin", &[0, 1, 2, 255]),
        dir("sub/empty"),
        file(".webdav_secret", b"secret"),
    ];
    let bytes = pack_config_dir(Some("{\"deviceId\":\"d\"}"), walked).unwrap();
    assert_eq!(
        names_in(&bytes),
        vec!["backup_meta.json", "settings.json", "sub/", "sub/data.bin", "sub/empty/"]
    );
    let mut archive = zip::ZipArchive::new(Cursor::new(bytes)).unwrap();
    let mut meta = String::new();
    archive.by_index(0).unwrap().read_to_string(&mut meta).unwrap();
    assert_eq!(meta, "{\"deviceId\":\"d\"}");
    let mut data = Vec::new();
    archive.by_name("sub/data.bin").unwrap().read_to_end(&mut data).unwrap();
    assert_eq!(data, vec![0, 1, 2, 255]);
    assert_eq!(archive.by_index(1).unwrap().compression(), zip::CompressionMethod::Stored);
    assert_eq!(archive.by_index(1).unwrap().unix_mode().map(|m| m & 0o777), Some(0o755));
}

#[test]
fn packed_entries_bear_the_time_of_packing() {
    let bytes = pack_config_dir(Some("{}"), vec![file("a", b"1"), dir("d")]).unwrap();
    let mut archive = zip::ZipArchive::new(Cursor::new(bytes)).unwrap();
    for i in 0..archive.len() {
        assert!(archive.by_index(i).unwrap().last_modified().year() > 1980);
    }
}

#[test]
fn different_content_gives_different_archives() {
    let a = pack_config_dir(Some("{}"), vec![file("a", b"1"), dir("d")]).unwrap();
    let c = pack_config_dir(Some("{}"), vec![file("a", b"2"), dir("d")]).unwrap();
    assert_ne!(a, c);
    assert_eq!(show(&unpack_zip_to_config(a).unwrap())[1].1, Some(b"1".to_vec()));
    assert_eq!(show(&unpack_zip_to_config(c).unwrap())[1].1, Some(b"2".to_vec()));
}

#[test]
fn round_trip_restores_files_and_empty_directories() {
    let walked = vec![
        dir(""),
        file("settings.json", b"{\"theme\":\"dark\"}"),
        dir("db"),
        file("db/app.db", &[83, 81, 76, 105, 116, 101, 0, 255, 254]),
        file("db/app.db-wal", b""),
        dir("logs"),
        dir("logs/old"),
        file("ünïcödé/名前.txt", "内容".as_bytes()),
    ];
    let bytes = pack_config_dir(Some("{\"version\":\"1.0.0\"}"), walked).unwrap();
    let steps = unpack_zip_to_config(bytes).unwrap();
    assert_eq!(
        show(&steps),
        vec![
            ("backup_meta.json".to_string(), Some(b"{\"version\":\"1.0.0\"}".to_vec())),
            ("settings.json".to_string(), Some(b"{\"theme\":\"dark\"}".to_vec())),
            ("db/".to_string(), None),
            ("db/app.db".to_string(), Some(vec![83, 81, 76, 105, 116, 101, 0, 255, 254])),
            ("db/app.db-wal".to_string(), Some(Vec::new())),
            ("logs/".to_string(), None),
            ("logs/old/".to_string(), None),
            ("ünïcödé/名前.txt".to_string(), Some("内容".as_bytes().to_vec())),
        ]
    );
}

#[test]
fn sensitive_files_of_the_source_are_in_no_archive_and_in_no_restore() {
    let walked = vec![
        file("a.txt", b"a"),
        file(".webdav_secret", b"s"),
        file("nested/.webdav_secret", b"s"),
        file("nested/token.credentials.json", b"c"),
        dir(".credentials"),
        file(".credentials/key", b"k"),
    ];
    let bytes = pack_config_dir(Some("{}"), walked).unwrap();
    for name in names_in(&bytes) {
        assert!(!name.contains(".webdav_secret"));
        assert!(!name.contains(".credentials"));
    }
    let steps = unpack_zip_to_config(bytes).unwrap();
    assert_eq!(
        show(&steps),
        vec![
            ("backup_meta.json".to_string(), Some(b"{}".to_vec())),
            ("a.txt".to_string(), Some(b"a".to_vec())),
        ]
    );
}

#[test]
fn sensitive_entries_of_a_hostile_archive_are_not_restored() {
    let bytes = container(&[
        ("ok.txt", Some(b"ok")),
        (".webdav_secret", Some(b"stolen")),
        ("dir/.webdav_secret", Some(b"stolen")),
        ("dir/x.credentials", Some(b"stolen")),
        (".credentials", None),
        ("fine/", None),
    ]);
    let steps = unpack_zip_to_config(bytes).unwrap();
    assert_eq!(
        show(&steps),
        vec![("ok.txt".to_string(), Some(b"ok".to_vec())), ("fine/".to_string(), None)]
    );
}

#[test]
fn entries_that_escape_are_not_restored() {
    let bytes = container(&[
        ("../../evil", Some(b"evil")),
        ("/etc/cron.d/evil", Some(b"evil")),
        ("a/../../evil", Some(b"evil")),
        ("..", None),
        ("good/../still_good.txt", Some(b"good")),
        ("deep/a/b/../../c.txt", Some(b"c")),
    ]);
    let steps = unpack_zip_to_config(bytes).unwrap();
    assert_eq!(
        show(&steps),
        vec![
            ("good/../still_good.txt".to_string(), Some(b"good".to_vec())),
            ("deep/a/b/../../c.txt".to_string(), Some(b"c".to_vec())),
        ]
    );
}

#[test]
fn bytes_that_are_no_container_are_a_format_error() {
    let e = unpack_zip_to_config(b"this is not a zip file".to_vec()).unwrap_err();
    assert_eq!(e.kind, ErrorKind::Format);
    assert!(e.message.starts_with("Invalid zip: "), "{}", e.message);
    assert!(e.message.len() > "Invalid zip: ".len());
    let e = unpack_zip_to_config(Vec::new()).unwrap_err();
    assert_eq!(e.kind, ErrorKind::Format);
}

#[test]
fn damaged_content_fails_the_restore() {
    let mut bytes = container(&[("a.txt", Some(b"hello world, hello world"))]);
    let at = bytes.windows(5).position(|w| w == b"hello").unwrap();
    bytes[at] = b'j';
    let e = unpack_zip_to_config(bytes).unwrap_err();
    assert_eq!(e.kind, ErrorKind::Io);
    assert!(!e.message.is_empty());
}

#[test]
fn compressed_entries_are_restored_too() {
    let mut w = zip::ZipWriter::new(Cursor::new(Vec::new()));
    let options =
        zip::write::FileOptions::default().compression_method(zip::CompressionMethod::Deflated);
    w.start_file("big.txt", options).unwrap();
    let content = vec![b'x'; 10000];
    w.write_all(&content).unwrap();
    let bytes = w.finish().unwrap().into_inner();
    assert!(bytes.len() < 5000);
    let steps = unpack_zip_to_config(bytes).unwrap();
    assert_eq!(show(&steps), vec![("big.txt".to_string(), Some(content))]);
}

#[test]
fn empty_container_restores_nothing() {
    let bytes = container(&[]);
    assert!(unpack_zip_to_config(bytes).unwrap().is_empty());
    let packed = pack_config_dir(Some("{}"), Vec::new()).unwrap();
    assert_eq!(
        show(&unpack_zip_to_config(packed).unwrap()),
        vec![("backup_meta.json".to_string(), Some(b"{}".to_vec()))]
    );
}

#[test]
fn written_archive_stores_directories_with_a_slash() {
    let plan = vec![
        ArchiveEntry { name: "d".to_string(), is_directory: true, content: vec![1, 2] },
        ArchiveEntry { name: "e/".to_string(), is_directory: true, content: Vec::new() },
        ArchiveEntry { name: "f".to_string(), is_directory: false, content: vec![3] },
    ];
    let bytes = write_archive(&plan).unwrap();
    assert_eq!(names_in(&bytes), vec!["d/", "e/", "f"]);
    let mut archive = zip::ZipArchive::new(Cursor::new(bytes)).unwrap();
    assert_eq!(archive.by_index(0).unwrap().size(), 0);
    assert_eq!(archive.by_index(2).unwrap().size(), 1);
}

#[test]
fn metadata_text_is_read_for_a_preview() {
    let bytes = pack_config_dir(Some("{\"deviceName\":\"pc\"}"), vec![file("a", b"1")]).unwrap();
    assert_eq!(read_metadata_text(bytes).as_deref(), Some("{\"deviceName\":\"pc\"}"));
    let none = container(&[("a", Some(b"1"))]);
    assert_eq!(read_metadata_text(none), None);
    assert_eq!(read_metadata_text(b"garbage".to_vec()), None);
    let binary = container(&[("backup_meta.json", Some(&[0xff, 0xfe]))]);
    assert_eq!(read_metadata_text(binary), None);
}

#[test]
fn metadata_of_a_real_archive_parses_as_json() {
    let mut map = serde_json::Map::new();
    map.insert("version".to_string(), serde_json::Value::String("1.0.0".to_string()));
    map.insert("deviceId".to_string(), serde_json::Value::String("id".to_string()));
    map.insert("deviceName".to_string(), serde_json::Value::String("pc".to_string()));
    map.insert("timestamp".to_string(), serde_json::Value::from(1709802301000i64));
    map.insert("platform".to_string(), serde_json::Value::String("linux".to_string()));
    let json = serde_json::to_string_pretty(&serde_json::Value::Object(map)).unwrap();
    let bytes = pack_config_dir(Some(&json), Vec::new()).unwrap();
    let text = read_metadata_text(bytes).unwrap();
    let back: serde_json::Value = serde_json::from_str(&text).unwrap();
    assert_eq!(back["deviceId"], "id");
    assert_eq!(back["timestamp"], 1709802301000i64);
}

#[test]
fn entry_that_asks_for_a_password_is_an_error_and_no_crash() {
    let mut w = zip::ZipWriter::new(Cursor::new(Vec::new()));
    let options =
        zip::write::FileOptions::default().compression_method(zip::CompressionMethod::Stored);
    w.start_file_with_extra_data("locked.txt", options).unwrap();
    let extra: [u8; 11] = [0x77, 0x77, 7, 0, 2, 0, 0x41, 0x45, 3, 0, 0];
    w.write_all(&extra).unwrap();
    w.end_extra_data().unwrap();
    w.write_all(b"content").unwrap();
    let mut bytes = w.finish().unwrap().into_inner();
    let mut patched = 0;
    for at in 0..bytes.len() - extra.len() {
        if bytes[at..at + extra.len()] == extra {
            bytes[at] = 0x01;
            bytes[at + 1] = 0x99;
            patched += 1;
        }
    }
    assert_eq!(patched, 2);
    let e = unpack_zip_to_config(bytes.clone()).unwrap_err();
    assert_eq!(e.kind, ErrorKind::Format);
    assert!(!e.message.is_empty());
    assert_eq!(read_metadata_text(bytes), None);
}

#[test]
fn written_archive_reads_back_as_its_plan_and_as_no_other() {
    let plan = vec![
        ArchiveEntry { name: "d".to_string(), is_directory: true, content: Vec::new() },
        ArchiveEntry { name: "d/f.txt".to_string(), is_directory: false, content: vec![1, 2, 3] },
    ];
    let bytes = write_archive(&plan).unwrap();
    assert!(reads_back(&bytes, &plan));

    let mut other = plan.clone();
    other[1].content = vec![1, 2, 4];
    assert!(!reads_back(&bytes, &other));
    let mut renamed = plan.clone();
    renamed[1].name = "d/g.txt".to_string();
    assert!(!reads_back(&bytes, &renamed));
    let mut as_file = plan.clone();
    as_file[0].is_directory = false;
    assert!(!reads_back(&bytes, &as_file));
    assert!(!reads_back(&bytes, &plan[..1].to_vec()));
    let mut longer = plan.clone();
    longer.push(ArchiveEntry { name: "x".to_string(), is_directory: false, content: Vec::new() });
    assert!(!reads_back(&bytes, &longer));
    assert!(!reads_back(&b"garbage".to_vec(), &plan));
    assert!(!reads_back(&Vec::new(), &Vec::new()));
    assert!(reads_back(&write_archive(&Vec::new()).unwrap(), &Vec::new()));
}

#[test]
fn archive_that_would_not_be_restored_is_not_handed_out() {
    let escaping = vec![ArchiveEntry {
        name: "../outside.txt".to_string(),
        is_directory: false,
        content: vec![1],
    }];
    let e = write_archive(&escaping).unwrap_err();
    assert_eq!(e.kind, ErrorKind::Io);
    assert_eq!(e.message, "Archive could not be read back");
    let long_name = vec![ArchiveEntry {
        name: "n".repeat(70000),
        is_directory: false,
        content: vec![1],
    }];
    assert_eq!(write_archive(&long_name).unwrap_err().kind, ErrorKind::Io);
}
