use config_backup::error::{BackupError, ErrorKind};
use config_backup::restore::{
    advance_stage, ApplyRestore, RestoreCommand, RestoreEvent, RestoreStep, Signal, Stage,
};

fn is_unpack(c: &RestoreCommand) -> bool {
    matches!(c, RestoreCommand::Unpack)
}

#[test]
fn restore_runs_in_order() {
    let (mut r, report, command) = ApplyRestore::begin();
    assert_eq!(r.step, RestoreStep::ClosingDatabase);
    let report = report.unwrap();
    assert_eq!(report.message, "backup.progress.preparing");
    assert_eq!(report.progress.whole(), 10);
    assert!(matches!(command, RestoreCommand::CloseDatabase));

    let (report, command) = r.advance(RestoreEvent::DatabaseClosed);
    assert!(report.is_none());
    assert!(matches!(command, RestoreCommand::Sleep { millis: 500 }));
    assert_eq!(r.step, RestoreStep::AwaitingGrace);

    let (report, command) = r.advance(RestoreEvent::GraceElapsed);
    assert!(report.is_none());
    assert!(matches!(command, RestoreCommand::OpenTempFile));
    assert_eq!(r.step, RestoreStep::OpeningTempFile);

    let (report, command) = r.advance(RestoreEvent::TempFileOpened);
    let report = report.unwrap();
    assert_eq!(report.message, "backup.progress.extracting");
    assert_eq!(report.progress.whole(), 50);
    assert!(is_unpack(&command));
    assert_eq!(r.step, RestoreStep::Unpacking);

    let (report, command) = r.advance(RestoreEvent::Unpacked);
    assert!(report.is_none());
    assert!(matches!(command, RestoreCommand::RemoveTempFile));
    assert_eq!(r.step, RestoreStep::RemovingTempFile);

    let (report, command) = r.advance(RestoreEvent::TempFileRemoved);
    let report = report.unwrap();
    assert_eq!(report.message, "backup.progress.complete");
    assert_eq!(report.progress.whole(), 100);
    assert!(matches!(command, RestoreCommand::Finish));
    assert_eq!(r.step, RestoreStep::Done);

    let (report, command) = r.advance(RestoreEvent::Unpacked);
    assert!(report.is_none());
    assert!(matches!(command, RestoreCommand::Nothing));
    assert_eq!(r.step, RestoreStep::Done);
}

#[test]
fn missing_temp_file_fails_and_is_never_unpacked() {
    let (mut r, _, _) = ApplyRestore::begin();
    r.advance(RestoreEvent::DatabaseClosed);
    r.advance(RestoreEvent::GraceElapsed);
    let (report, command) = r.advance(RestoreEvent::TempFileMissing {
        reason: "No such file or directory (os error 2)".to_string(),
    });
    assert!(report.is_none());
    assert_eq!(r.step, RestoreStep::Failed);
    match command {
        RestoreCommand::Fail { error } => {
            assert_eq!(error.kind, ErrorKind::NotFound);
            assert_eq!(error.message, "Temp file missing: No such file or directory (os error 2)");
        }
        _ => panic!("a failure was expected"),
    }
    for event in [
        RestoreEvent::TempFileOpened,
        RestoreEvent::Unpacked,
        RestoreEvent::DatabaseClosed,
        RestoreEvent::GraceElapsed,
        RestoreEvent::TempFileRemoved,
    ] {
        let (report, command) = r.advance(event);
        assert!(report.is_none());
        assert!(matches!(command, RestoreCommand::Nothing));
        assert_eq!(r.step, RestoreStep::Failed);
    }
}

#[test]
fn missing_temp_file_at_any_step_asks_for_no_unpacking() {
    let all_steps = [
        RestoreStep::ClosingDatabase,
        RestoreStep::AwaitingGrace,
        RestoreStep::OpeningTempFile,
        RestoreStep::Unpacking,
        RestoreStep::RemovingTempFile,
        RestoreStep::Done,
        RestoreStep::Failed,
    ];
    for step in all_steps {
        let mut r = ApplyRestore { step };
        let (_, command) = r.advance(RestoreEvent::TempFileMissing { reason: "gone".to_string() });
        assert!(!is_unpack(&command));
        assert!(r.step == RestoreStep::Failed || r.step == RestoreStep::Done);
    }
}

#[test]
fn unpacking_is_asked_for_once_the_file_is_open_and_not_before() {
    let all_steps = [
        RestoreStep::ClosingDatabase,
        RestoreStep::AwaitingGrace,
        RestoreStep::OpeningTempFile,
        RestoreStep::Unpacking,
        RestoreStep::RemovingTempFile,
        RestoreStep::Done,
        RestoreStep::Failed,
    ];
    for step in all_steps {
        let events = [
            RestoreEvent::DatabaseClosed,
            RestoreEvent::GraceElapsed,
            RestoreEvent::TempFileOpened,
            RestoreEvent::TempFileMissing { reason: String::new() },
            RestoreEvent::Unpacked,
            RestoreEvent::UnpackFailed { error: BackupError::new(ErrorKind::Format, "bad") },
            RestoreEvent::TempFileRemoved,
        ];
        for event in events {
            let opened = matches!(event, RestoreEvent::TempFileOpened);
            let mut r = ApplyRestore { step };
            let (_, command) = r.advance(event);
            assert_eq!(is_unpack(&command), step == RestoreStep::OpeningTempFile && opened);
        }
    }
}

#[test]
fn events_out_of_order_fail_the_restore() {
    let (mut r, _, _) = ApplyRestore::begin();
    let (_, command) = r.advance(RestoreEvent::TempFileOpened);
    assert_eq!(r.step, RestoreStep::Failed);
    match command {
        RestoreCommand::Fail { error } => {
            assert_eq!(error.kind, ErrorKind::Io);
            assert_eq!(error.message, "Restore out of sequence");
        }
        _ => panic!("a failure was expected"),
    }
    let (mut r, _, _) = ApplyRestore::begin();
    r.advance(RestoreEvent::DatabaseClosed);
    let (_, command) = r.advance(RestoreEvent::Unpacked);
    assert!(matches!(command, RestoreCommand::Fail { .. }));
    assert_eq!(r.step, RestoreStep::Failed);
}

#[test]
fn failed_unpacking_hands_its_error_on() {
    let (mut r, _, _) = ApplyRestore::begin();
    r.advance(RestoreEvent::DatabaseClosed);
    r.advance(RestoreEvent::GraceElapsed);
    r.advance(RestoreEvent::TempFileOpened);
    let (_, command) = r.advance(RestoreEvent::UnpackFailed {
        error: BackupError::new(ErrorKind::Format, "Invalid zip: bad"),
    });
    assert_eq!(r.step, RestoreStep::Failed);
    match command {
        RestoreCommand::Fail { error } => {
            assert_eq!(error.kind, ErrorKind::Format);
            assert_eq!(error.message, "Invalid zip: bad");
        }
        _ => panic!("a failure was expected"),
    }
}

#[test]
fn stages_of_a_backup() {
    let mut s = Stage::Idle;
    s = advance_stage(s, Signal::Requested);
    assert_eq!(s, Stage::Preparing);
    s = advance_stage(s, Signal::Prepared);
    assert_eq!(s, Stage::Transferring);
    s = advance_stage(s, Signal::Uploaded);
    assert_eq!(s, Stage::Complete);
    assert_eq!(advance_stage(s, Signal::Failure), Stage::Complete);
}

#[test]
fn stages_of_a_restore() {
    let mut s = Stage::Idle;
    for (signal, expected) in [
        (Signal::Requested, Stage::Preparing),
        (Signal::Prepared, Stage::Transferring),
        (Signal::Downloaded, Stage::Previewed),
        (Signal::Confirmed, Stage::Restoring),
        (Signal::Restored, Stage::Complete),
    ] {
        s = advance_stage(s, signal);
        assert_eq!(s, expected);
    }
}

#[test]
fn failure_ends_what_has_not_ended() {
    for s in [Stage::Idle, Stage::Preparing, Stage::Transferring, Stage::Previewed, Stage::Restoring]
    {
        assert_eq!(advance_stage(s, Signal::Failure), Stage::Failed);
    }
    for signal in [
        Signal::Requested,
        Signal::Prepared,
        Signal::Uploaded,
        Signal::Downloaded,
        Signal::Confirmed,
        Signal::Restored,
        Signal::Failure,
    ] {
        assert_eq!(advance_stage(Stage::Failed, signal), Stage::Failed);
        assert_eq!(advance_stage(Stage::Complete, signal), Stage::Complete);
    }
}

#[test]
fn restoring_is_entered_from_a_preview_only() {
    let stages = [
        Stage::Idle,
        Stage::Preparing,
        Stage::Transferring,
        Stage::Previewed,
        Stage::Complete,
        Stage::Failed,
    ];
    let signals = [
        Signal::Requested,
        Signal::Prepared,
        Signal::Uploaded,
        Signal::Downloaded,
        Signal::Confirmed,
        Signal::Restored,
        Signal::Failure,
    ];
    for s in stages {
        for signal in signals {
            let entered = advance_stage(s, signal) == Stage::Restoring;
            assert_eq!(entered, s == Stage::Previewed && signal == Signal::Confirmed);
        }
    }
    assert_eq!(advance_stage(Stage::Idle, Signal::Confirmed), Stage::Idle);
    assert_eq!(advance_stage(Stage::Transferring, Signal::Confirmed), Stage::Transferring);
}
