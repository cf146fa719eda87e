use std::collections::HashMap;

use file_watcher_backup::logfile::{log_directory, log_file_path, todays_log_file_path};
use file_watcher_backup::startup::{
    unnamed_source_failure, IoOutcome, Startup, StartupAction, StartupPhase,
};
use file_watcher_backup::status::{exit_status, StartupFailure};
use file_watcher_backup::target::WatchTarget;
use file_watcher_backup::watch::{
    ChangeEvent, ChangeKind, CopyOutcome, Delivery, LoopAction, LoopPhase, WatchLoop,
};

fn target() -> WatchTarget {
    WatchTarget::new("/tmp/notes.txt", "/tmp/backup/").unwrap()
}

fn write_of(path: &str) -> Delivery {
    Delivery::Event(ChangeEvent { kind: ChangeKind::Write, path: Some(path.to_string()) })
}

#[test]
fn exit_statuses() {
    assert_eq!(exit_status(StartupFailure::MissingSource), 66);
    assert_eq!(exit_status(StartupFailure::UnreadableSource), 74);
    assert_eq!(exit_status(StartupFailure::DestinationSetup), 74);
    assert_eq!(exit_status(StartupFailure::LogSink), 74);
    assert_eq!(exit_status(StartupFailure::Subscription), 74);
}

#[test]
fn missing_source_exits_without_side_effects() {
    let mut s = Startup::new(target());
    assert!(matches!(s.action(), StartupAction::ReadSource(p) if p == "/tmp/notes.txt"));
    s.advance(IoOutcome::NotFound);
    assert!(s.is_finished());
    assert_eq!(s.phase, StartupPhase::Failed(StartupFailure::MissingSource));
    assert!(matches!(s.action(), StartupAction::Exit(66)));
}

#[test]
fn unreadable_source_exits_with_io_error() {
    let mut s = Startup::new(target());
    s.advance(IoOutcome::OtherError);
    assert!(matches!(s.action(), StartupAction::Exit(74)));
}

#[test]
fn destination_failure_exits_with_io_error() {
    let mut s = Startup::new(target());
    s.advance(IoOutcome::Done);
    assert!(matches!(s.action(), StartupAction::CreateDirectory(d) if d == "/tmp/backup/"));
    s.advance(IoOutcome::OtherError);
    assert!(matches!(s.action(), StartupAction::Exit(74)));
}

#[test]
fn failed_initial_copy_still_subscribes() {
    let mut s = Startup::new(target());
    s.advance(IoOutcome::Done);
    s.advance(IoOutcome::Done);
    assert!(matches!(s.action(),
        StartupAction::CopyFile(a, b) if a == "/tmp/notes.txt" && b == "/tmp/backup/notes.txt"));
    s.advance(IoOutcome::OtherError);
    assert!(matches!(s.action(), StartupAction::Subscribe(p) if p == "/tmp/notes.txt"));
    s.advance(IoOutcome::Done);
    assert!(s.is_finished());
    assert!(matches!(s.action(), StartupAction::BeginWatching));
}

#[test]
fn subscription_failure_exits() {
    let mut s = Startup::new(target());
    s.advance(IoOutcome::Done);
    s.advance(IoOutcome::Done);
    s.advance(IoOutcome::Done);
    s.advance(IoOutcome::OtherError);
    assert_eq!(s.phase, StartupPhase::Failed(StartupFailure::Subscription));
    assert!(matches!(s.action(), StartupAction::Exit(74)));
}

#[test]
fn write_triggers_copy_other_kinds_do_not() {
    let mut w = WatchLoop::new(target());
    let a = w.on_delivery(write_of("/tmp/notes.txt"));
    assert!(matches!(a,
        LoopAction::Copy(f, t) if f == "/tmp/notes.txt" && t == "/tmp/backup/notes.txt"));
    assert_eq!(w.phase, LoopPhase::Copying);
    w.on_copy_finished(&CopyOutcome::Copied(1));
    assert_eq!(w.phase, LoopPhase::Idle);
    for kind in [ChangeKind::NoticeWrite, ChangeKind::NoticeRemove, ChangeKind::Create,
                 ChangeKind::Chmod, ChangeKind::Remove, ChangeKind::Rename,
                 ChangeKind::Rescan, ChangeKind::Error] {
        let a = w.on_delivery(Delivery::Event(ChangeEvent {
            kind, path: Some("/tmp/notes.txt".to_string()) }));
        assert!(matches!(a, LoopAction::Pass(k) if k == kind));
        assert_eq!(w.phase, LoopPhase::Idle);
    }
    let a = w.on_delivery(Delivery::ChannelError);
    assert!(matches!(a, LoopAction::ReportChannelError));
    assert_eq!(w.phase, LoopPhase::Idle);
}

#[test]
fn write_without_path_copies_source() {
    let mut w = WatchLoop::new(target());
    let a = w.on_delivery(Delivery::Event(ChangeEvent { kind: ChangeKind::Write, path: None }));
    assert!(matches!(a,
        LoopAction::Copy(f, t) if f == "/tmp/notes.txt" && t == "/tmp/backup/notes.txt"));
}

#[test]
fn failed_copy_keeps_loop_running() {
    let mut w = WatchLoop::new(target());
    let _ = w.on_delivery(write_of("/tmp/notes.txt"));
    w.on_copy_finished(&CopyOutcome::Failed("read-only file system".to_string()));
    assert_eq!(w.phase, LoopPhase::Idle);
    let a = w.on_delivery(write_of("/tmp/notes.txt"));
    assert!(matches!(a, LoopAction::Copy(_, t) if t == "/tmp/backup/notes.txt"));
    assert_eq!(w.phase, LoopPhase::Copying);
}

fn run_copy(store: &mut HashMap<String, String>, from: &str, to: &str) {
    let data = store.get(from).cloned().unwrap();
    store.insert(to.to_string(), data);
}

#[test]
fn notes_backup_scenario() {
    let mut store: HashMap<String, String> = HashMap::new();
    store.insert("/tmp/notes.txt".to_string(), "a".to_string());
    let mut s = Startup::new(target());
    while !s.is_finished() {
        match s.action() {
            StartupAction::CopyFile(from, to) => run_copy(&mut store, &from, &to),
            _ => {}
        }
        s.advance(IoOutcome::Done);
    }
    assert_eq!(store.get("/tmp/backup/notes.txt").map(|s| s.as_str()), Some("a"));

    store.insert("/tmp/notes.txt".to_string(), "ab".to_string());
    let mut w = WatchLoop::new(s.target);
    match w.on_delivery(write_of("/tmp/notes.txt")) {
        LoopAction::Copy(from, to) => run_copy(&mut store, &from, &to),
        _ => panic!("a write must trigger a copy"),
    }
    w.on_copy_finished(&CopyOutcome::Copied(2));
    assert_eq!(store.get("/tmp/backup/notes.txt").map(|s| s.as_str()), Some("ab"));
}

#[test]
fn copying_unchanged_file_again_changes_nothing() {
    let mut store: HashMap<String, String> = HashMap::new();
    store.insert("/tmp/notes.txt".to_string(), "a".to_string());
    let mut w = WatchLoop::new(target());
    for _ in 0..2 {
        match w.on_delivery(write_of("/tmp/notes.txt")) {
            LoopAction::Copy(from, to) => run_copy(&mut store, &from, &to),
            _ => panic!("a write must trigger a copy"),
        }
        w.on_copy_finished(&CopyOutcome::Copied(1));
        assert_eq!(store.get("/tmp/backup/notes.txt").map(|s| s.as_str()), Some("a"));
        assert_eq!(store.len(), 2);
    }
}

#[test]
fn log_paths() {
    assert_eq!(log_directory("/home/ann"), "/home/ann/file-watcher-backup");
    assert_eq!(log_file_path("/home/ann", "2024-01-02"),
               "/home/ann/file-watcher-backup/2024-01-02.log");
    assert_eq!(log_file_path("/home/ann/", "2024-01-02"),
               "/home/ann/file-watcher-backup/2024-01-02.log");
}

#[test]
fn todays_log_file_is_dated() {
    for offset in [0i32, 3600, -18000] {
        let today = todays_log_file_path("/home/ann", offset).unwrap();
        let prefix = "/home/ann/file-watcher-backup/";
        assert!(today.starts_with(prefix));
        assert!(today.ends_with(".log"));
        let stamp = &today[prefix.len()..today.len() - ".log".len()];
        assert_eq!(stamp.len(), "2024-01-02".len());
        assert!(stamp.chars().all(|c| c.is_ascii_digit() || c == '-'));
        assert_eq!(&stamp[4..5], "-");
        assert_eq!(&stamp[7..8], "-");
        let year: u32 = stamp[0..4].parse().unwrap();
        let month: u32 = stamp[5..7].parse().unwrap();
        let day: u32 = stamp[8..10].parse().unwrap();
        assert!(year >= 2000);
        assert!((1..=12).contains(&month));
        assert!((1..=31).contains(&day));
    }
}

#[test]
fn source_without_file_name() {
    assert_eq!(unnamed_source_failure(IoOutcome::NotFound), StartupFailure::MissingSource);
    assert_eq!(unnamed_source_failure(IoOutcome::OtherError), StartupFailure::UnreadableSource);
    assert_eq!(unnamed_source_failure(IoOutcome::Done), StartupFailure::UnreadableSource);
}
