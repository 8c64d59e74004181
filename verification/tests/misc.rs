use config_backup::error::{BackupError, ErrorKind};
use config_backup::monitor::MonitorCache;
use config_backup::paths::{is_enclosed, names_sensitive_file};
use config_backup::progress::{Percent, ProgressPayload};
use config_backup::text::{
    append, chars_of, comes_before, final_segment, has_infix, has_prefix, has_suffix,
    matches_at, parse_u32, parse_u64, render_decimal, render_padded, same_chars, string_of,
    trimmed_end,
};
use config_backup::window::WindowConfigState;

fn c(s: &str) -> Vec<char> {
    s.chars().collect()
}

fn s(v: Vec<char>) -> String {
    v.into_iter().collect()
}

#[test]
fn chars_and_strings_convert() {
    assert_eq!(chars_of("héllo"), vec!['h', 'é', 'l', 'l', 'o']);
    assert_eq!(string_of(&vec!['a', '☃']), "a☃");
    assert_eq!(chars_of(""), Vec::<char>::new());
    assert_eq!(config_backup::text::concat("ab", "cd"), "abcd");
    let mut v = c("ab");
    append(&mut v, &c("cd"));
    assert_eq!(s(v), "abcd");
}

#[test]
fn searching_in_text() {
    assert!(has_prefix(&c("backup_x"), &c("backup_")));
    assert!(!has_prefix(&c("backup"), &c("backup_")));
    assert!(has_prefix(&c("x"), &c("")));
    assert!(has_suffix(&c("a.zip"), &c(".zip")));
    assert!(!has_suffix(&c("zip"), &c(".zip")));
    assert!(has_infix(&c("a.credentials.b"), &c(".credentials")));
    assert!(!has_infix(&c("a.credential"), &c(".credentials")));
    assert!(has_infix(&c(""), &c("")));
    assert!(!has_infix(&c(""), &c("a")));
    assert!(matches_at(&c("abc"), &c("bc"), 1));
    assert!(!matches_at(&c("abc"), &c("bc"), 2));
    assert!(!matches_at(&c("abc"), &c("bc"), usize::MAX));
    assert!(same_chars(&c("abc"), &c("abc")));
    assert!(!same_chars(&c("abc"), &c("abd")));
    assert!(!same_chars(&c("abc"), &c("ab")));
}

#[test]
fn trimming_and_segments() {
    assert_eq!(s(trimmed_end(&c("a/b///"), '/')), "a/b");
    assert_eq!(s(trimmed_end(&c("///"), '/')), "");
    assert_eq!(s(trimmed_end(&c("a"), '/')), "a");
    assert_eq!(s(final_segment(&c("a/b/c"), '/')), "c");
    assert_eq!(s(final_segment(&c("abc"), '/')), "abc");
    assert_eq!(s(final_segment(&c("a/"), '/')), "");
    assert_eq!(s(final_segment(&c(""), '/')), "");
}

#[test]
fn order_is_that_of_strings() {
    let samples = ["", "a", "ab", "b", "B", "é", "z", "\u{ffff}", "😀", "a😀", "aé", "a\u{0}"];
    for x in samples {
        for y in samples {
            assert_eq!(comes_before(&c(x), &c(y)), x < y, "{:?} {:?}", x, y);
        }
    }
}

#[test]
fn numbers_are_rendered_and_parsed() {
    assert_eq!(s(render_decimal(0)), "0");
    assert_eq!(s(render_decimal(10)), "10");
    assert_eq!(s(render_decimal(u128::MAX)), "340282366920938463463374607431768211455");
    assert_eq!(s(render_padded(7, 2)), "07");
    assert_eq!(s(render_padded(7, 0)), "7");
    assert_eq!(s(render_padded(123, 2)), "123");
    assert_eq!(s(render_padded(0, 4)), "0000");
    for text in [
        "0", "7", "007", "+7", "+", "", "-7", "++7", "7a", " 7", "18446744073709551615",
        "18446744073709551616", "99999999999999999999", "٣", "+0", "1_000", "4294967295",
        "4294967296", "+4294967295",
    ] {
        assert_eq!(parse_u64(&c(text)), text.parse::<u64>().ok(), "{:?}", text);
        assert_eq!(parse_u32(&c(text)), text.parse::<u32>().ok(), "{:?}", text);
    }
}

#[test]
fn sensitive_and_enclosed_paths() {
    assert!(names_sensitive_file(&c("x/.webdav_secret")));
    assert!(names_sensitive_file(&c("x.credentials.y")));
    assert!(!names_sensitive_file(&c("x/webdav_secret")));
    for (path, inside) in [
        ("", true),
        ("a", true),
        ("a/b", true),
        ("a/..", true),
        ("a/../b", true),
        ("./a", true),
        (".", true),
        ("a//b", true),
        ("a/", true),
        ("...", true),
        ("..a", true),
        ("..", false),
        ("../a", false),
        ("a/../..", false),
        ("a/../../b", false),
        ("/", false),
        ("/a", false),
        ("a\0", false),
        ("./..", false),
        ("a/./../..", false),
    ] {
        assert_eq!(is_enclosed(&c(path)), inside, "{:?}", path);
        if !path.contains('\0') {
            let mut depth: i64 = 0;
            let mut ok = !path.starts_with('/');
            for component in std::path::Path::new(path).components() {
                match component {
                    std::path::Component::ParentDir => depth -= 1,
                    std::path::Component::Normal(_) => depth += 1,
                    _ => {}
                }
                if depth < 0 {
                    ok = false;
                }
            }
            assert_eq!(inside, ok, "{:?}", path);
        }
    }
}

#[test]
fn percentages() {
    let p = Percent::fixed(42);
    assert_eq!(p, Percent { start: 42, span: 0, done: 0, total: 1 });
    assert_eq!(p.whole(), 42);
    assert_eq!(Percent { start: 9, span: 60, done: 5, total: 0 }.whole(), 9);
    assert_eq!(Percent { start: 20, span: 60, done: 1, total: 3 }.whole(), 40);
    assert_eq!(Percent { start: 255, span: 255, done: u64::MAX, total: 1 }.whole(), u64::MAX);
    let r = ProgressPayload::at("stage", 7);
    assert_eq!(r.message, "stage");
    assert_eq!(r.progress.whole(), 7);
}

#[test]
fn errors_hold_kind_and_text() {
    let e = BackupError::new(ErrorKind::Auth, "Password required");
    assert_eq!(e.kind, ErrorKind::Auth);
    assert_eq!(e.message, "Password required");
    assert_eq!(e.to_text(), "Password required");
    let d = e.duplicate();
    assert_eq!(d.kind, ErrorKind::Auth);
    assert_eq!(d.message, "Password required");
    assert_ne!(ErrorKind::Io, ErrorKind::Network);
}

#[test]
fn fresh_cache_is_empty() {
    let cache: MonitorCache<u64, (u64, u64), Vec<u8>> = MonitorCache::new();
    assert!(cache.history.is_empty());
    assert!(cache.disk_io.is_empty());
    assert!(cache.network_io.is_empty());
}

#[test]
fn window_settings() {
    let mut w = WindowConfigState::new();
    assert!(w.minimize_to_tray);
    assert_eq!(w.close_behavior, "quit");
    assert!(!w.hides_on_close());
    w.update(false, "minimize".to_string());
    assert!(!w.minimize_to_tray);
    assert_eq!(w.close_behavior, "minimize");
    assert!(w.hides_on_close());
    w.update(true, "Minimize".to_string());
    assert!(!w.hides_on_close());
}
