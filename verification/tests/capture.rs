use keyfit::db::{Database, KeyRankingItem};
use keyfit::buffer::AggregationBuffer;
use keyfit::keyboard::{
    check_accessibility_permission, permission_instructions, Command, EventOutcome, InputEvent,
    KeyStat, KeyboardHook, StartError,
};
use keyfit::scheduler::{FlushScheduler, SchedulerStep, FLUSH_INTERVAL, PAUSE_SECONDS};

const DAY: i64 = 1_700_000_000;

fn setup_test_hook() -> (KeyboardHook, tempfile::TempDir) {
    let dir = tempfile::tempdir().unwrap();
    let path = dir.path().join("keyfit.db");
    let db = Database::new(path.to_str().unwrap()).unwrap();
    let hook = KeyboardHook::new(db);
    (hook, dir)
}

fn stat(key_code: &str) -> KeyStat {
    KeyStat { ts_day: DAY, key_code: key_code.to_string(), app_id: 1 }
}

fn release(key: &str) -> InputEvent {
    InputEvent::KeyRelease(key.to_string())
}

fn editor() -> Option<(String, String)> {
    Some(("Editor".to_string(), "com.example.editor".to_string()))
}

fn keys(batch: &[KeyStat]) -> Vec<&str> {
    batch.iter().map(|s| s.key_code.as_str()).collect()
}

#[test]
fn test_keyboard_hook_start_stop() {
    let (mut hook, _dir) = setup_test_hook();

    assert!(!hook.is_running());

    hook.start(true).unwrap();
    assert!(hook.is_running());

    hook.stop();
    assert!(!hook.is_running());
}

#[test]
fn test_keyboard_hook_double_start() {
    let (mut hook, _dir) = setup_test_hook();

    hook.start(true).unwrap();
    assert!(hook.is_running());

    hook.start(true).unwrap();
    assert!(hook.is_running());
}

#[test]
fn running_flag_follows_start_and_toggle() {
    let (mut hook, _dir) = setup_test_hook();
    assert!(!hook.is_running());
    hook.start(true).unwrap();
    assert!(hook.is_running());
    assert!(!hook.toggle(true));
    assert!(!hook.is_running());
    assert!(hook.toggle(true));
    assert!(hook.is_running());
}

#[test]
fn buffer_hands_out_every_push_once() {
    let mut buffer = AggregationBuffer::new();
    assert!(buffer.is_empty());
    buffer.push(stat("A"));
    buffer.push(stat("B"));
    buffer.push(stat("A"));
    assert_eq!(buffer.len(), 3);
    let first = buffer.drain_all();
    assert_eq!(keys(&first), vec!["A", "B", "A"]);
    assert!(buffer.is_empty());
    let second = buffer.drain_all();
    assert!(second.is_empty());
    buffer.push(stat("C"));
    let third = buffer.drain_all();
    assert_eq!(keys(&third), vec!["C"]);
}

fn crosses_threads<T: Send>(_: &T) {}

#[test]
fn controller_can_be_handed_to_another_thread() {
    let (hook, _dir) = setup_test_hook();
    crosses_threads(&hook);
    crosses_threads(&FlushScheduler::new());
}

#[test]
fn drain_of_an_empty_buffer_is_empty() {
    let mut buffer = AggregationBuffer::new();
    assert!(buffer.drain_all().is_empty());
    assert_eq!(buffer.len(), 0);
}

#[test]
fn start_asks_for_both_threads() {
    let (mut hook, _dir) = setup_test_hook();
    assert_eq!(hook.take_commands(), vec![]);
    hook.start(true).unwrap();
    assert_eq!(hook.take_commands(), vec![Command::SpawnScheduler, Command::SpawnListener]);
    assert_eq!(hook.take_commands(), vec![]);
    hook.start(true).unwrap();
    assert_eq!(hook.take_commands(), vec![]);
}

#[test]
fn stop_joins_the_scheduler_and_lets_the_listener_go() {
    let (mut hook, _dir) = setup_test_hook();
    hook.start(true).unwrap();
    hook.take_commands();
    hook.stop();
    assert_eq!(hook.take_commands(), vec![Command::JoinScheduler, Command::ReleaseListener]);
    hook.stop();
    assert_eq!(hook.take_commands(), vec![]);
}

#[test]
fn start_without_permission_fails() {
    let (mut hook, _dir) = setup_test_hook();
    assert_eq!(hook.start(false), Err(StartError::PermissionDenied));
    assert!(!hook.is_running());
    assert_eq!(hook.take_commands(), vec![]);
    assert!(!hook.toggle(false));
    assert!(!hook.is_running());
    assert_eq!(
        StartError::PermissionDenied.to_string(),
        "Insufficient macOS permissions. Please follow the instructions above to set permissions."
    );
}

#[test]
fn running_capture_needs_no_permission_to_stay() {
    let (mut hook, _dir) = setup_test_hook();
    hook.start(true).unwrap();
    assert_eq!(hook.start(false), Ok(()));
    assert!(hook.is_running());
}

#[test]
fn key_release_while_running_is_buffered_and_flushed() {
    let (mut hook, _dir) = setup_test_hook();
    hook.start(true).unwrap();
    assert!(hook.wants_context(&release("KeyA")));
    let outcome = hook.record(release("KeyA"), Some(DAY), editor());
    assert_eq!(outcome, EventOutcome::Buffered { app_id: 1 });
    assert_eq!(hook.database().get_total_key_count(None, None, None).unwrap(), 0);
    hook.flush();
    assert_eq!(hook.database().get_total_key_count(None, None, None).unwrap(), 1);
    hook.flush();
    assert_eq!(hook.database().get_total_key_count(None, None, None).unwrap(), 1);
}

#[test]
fn only_key_releases_count() {
    let (mut hook, _dir) = setup_test_hook();
    hook.start(true).unwrap();
    assert!(!hook.wants_context(&InputEvent::KeyPress("KeyA".to_string())));
    assert!(!hook.wants_context(&InputEvent::Other));
    let press = hook.record(InputEvent::KeyPress("KeyA".to_string()), Some(DAY), editor());
    assert_eq!(press, EventOutcome::Ignored);
    assert_eq!(hook.record(InputEvent::Other, Some(DAY), editor()), EventOutcome::Ignored);
    hook.flush();
    assert_eq!(hook.database().get_total_key_count(None, None, None).unwrap(), 0);
}

#[test]
fn key_release_without_application_is_dropped() {
    let (mut hook, _dir) = setup_test_hook();
    hook.start(true).unwrap();
    assert_eq!(hook.record(release("KeyA"), Some(DAY), None), EventOutcome::Dropped);
    assert_eq!(hook.record(release("KeyA"), None, editor()), EventOutcome::Dropped);
    hook.flush();
    assert_eq!(hook.database().get_total_key_count(None, None, None).unwrap(), 0);
    assert_eq!(hook.database().get_apps().unwrap(), vec![]);
}

#[test]
fn stop_flushes_and_stopped_capture_ignores_events() {
    let (mut hook, _dir) = setup_test_hook();
    hook.start(true).unwrap();
    hook.record(release("KeyA"), Some(DAY), editor());
    hook.record(release("KeyA"), Some(DAY), editor());
    hook.stop();
    assert_eq!(hook.database().get_total_key_count(None, None, None).unwrap(), 2);

    assert!(!hook.wants_context(&release("KeyB")));
    assert_eq!(hook.record(release("KeyB"), Some(DAY), editor()), EventOutcome::Ignored);
    assert_eq!(hook.handle_event(release("KeyB"), editor()), EventOutcome::Ignored);
    hook.flush();
    assert_eq!(hook.database().get_total_key_count(None, None, None).unwrap(), 2);

    hook.start(true).unwrap();
    hook.record(release("KeyA"), Some(DAY), editor());
    hook.stop();
    assert_eq!(
        hook.database().get_key_ranking(None, None, Some(1), Some(10)).unwrap(),
        vec![KeyRankingItem { key_code: "KeyA".to_string(), count: 3 }]
    );
}

#[test]
fn every_key_release_is_counted_once() {
    let (mut hook, _dir) = setup_test_hook();
    hook.start(true).unwrap();
    let batches = [2usize, 0, 4, 1];
    for size in batches {
        for _ in 0..size {
            let outcome = hook.record(release("Space"), Some(DAY), editor());
            assert_eq!(outcome, EventOutcome::Buffered { app_id: 1 });
        }
        hook.flush();
    }
    assert_eq!(
        hook.database().get_key_stats_by_day(Some(DAY), Some(DAY), Some(1)).unwrap(),
        vec![keyfit::db::KeyStatsByDay { ts_day: DAY, key_code: "Space".to_string(), count: 7 }]
    );
    assert_eq!(hook.take_commands(), vec![Command::SpawnScheduler, Command::SpawnListener]);
}

#[test]
fn toggle_asks_for_the_threads_in_turn() {
    let (mut hook, _dir) = setup_test_hook();
    assert!(hook.toggle(true));
    assert!(!hook.toggle(true));
    assert!(hook.toggle(true));
    assert_eq!(
        hook.take_commands(),
        vec![
            Command::SpawnScheduler,
            Command::SpawnListener,
            Command::JoinScheduler,
            Command::ReleaseListener,
            Command::SpawnScheduler,
            Command::SpawnListener,
        ]
    );
}

#[test]
fn events_are_stamped_with_the_local_midnight() {
    let (mut hook, _dir) = setup_test_hook();
    hook.start(true).unwrap();
    let before = chrono::Local::now();
    let outcome = hook.handle_event(release("KeyA"), editor());
    let after = chrono::Local::now();
    assert_eq!(outcome, EventOutcome::Buffered { app_id: 1 });
    hook.flush();
    let range = hook.database().get_date_range().unwrap();
    assert_eq!(range.min, range.max);
    let midnight = |now: chrono::DateTime<chrono::Local>| {
        now.date_naive()
            .and_hms_opt(0, 0, 0)
            .unwrap()
            .and_local_timezone(chrono::Local)
            .unwrap()
            .timestamp()
    };
    assert!(range.min == midnight(before) || range.min == midnight(after));
    assert!(range.min <= before.timestamp());
    assert!(before.timestamp() - range.min < 90_000);
}

#[test]
fn lost_batch_is_reported() {
    let dir = tempfile::tempdir().unwrap();
    let path = dir.path().join("keyfit.db");
    let db = Database::new(path.to_str().unwrap()).unwrap();
    let mut hook = KeyboardHook::new(db);
    hook.start(true).unwrap();
    hook.take_commands();
    hook.record(release("KeyA"), Some(DAY), editor());
    hook.record(release("KeyB"), Some(DAY), editor());
    {
        let vandal = rusqlite::Connection::open(&path).unwrap();
        vandal.execute_batch("DROP TABLE key_stat").unwrap();
    }
    hook.flush();
    let commands = hook.take_commands();
    assert_eq!(commands.len(), 1);
    match &commands[0] {
        Command::ReportFlushFailure { events, error } => {
            assert_eq!(*events, 2);
            assert!(!error.to_string().is_empty());
        }
        other => panic!("unexpected command {:?}", other),
    }
    hook.flush();
    assert_eq!(hook.take_commands(), vec![]);
}

#[test]
fn unknown_application_is_reported() {
    let dir = tempfile::tempdir().unwrap();
    let path = dir.path().join("keyfit.db");
    let db = Database::new(path.to_str().unwrap()).unwrap();
    let mut hook = KeyboardHook::new(db);
    hook.start(true).unwrap();
    hook.take_commands();
    {
        let vandal = rusqlite::Connection::open(&path).unwrap();
        vandal.execute_batch("DROP TABLE app").unwrap();
    }
    assert_eq!(hook.record(release("KeyA"), Some(DAY), editor()), EventOutcome::Failed);
    let commands = hook.take_commands();
    assert_eq!(commands.len(), 1);
    assert!(matches!(&commands[0], Command::ReportAppFailure { .. }));
    hook.flush();
    assert_eq!(hook.take_commands(), vec![]);
}

#[test]
fn scheduler_pauses_five_times_then_flushes() {
    assert_eq!(FLUSH_INTERVAL, 5);
    assert_eq!(PAUSE_SECONDS, 1);
    let mut scheduler = FlushScheduler::new();
    let mut steps = Vec::new();
    for _ in 0..13 {
        steps.push(scheduler.next(true));
    }
    let pause = SchedulerStep::Pause;
    let flush = SchedulerStep::Flush;
    assert_eq!(
        steps,
        vec![
            pause, pause, pause, pause, pause, flush, pause, pause, pause, pause, pause, flush,
            pause
        ]
    );
}

#[test]
fn scheduler_honours_a_stop_within_one_pause() {
    let mut scheduler = FlushScheduler::new();
    assert_eq!(scheduler.next(true), SchedulerStep::Pause);
    assert_eq!(scheduler.next(true), SchedulerStep::Pause);
    assert_eq!(scheduler.next(false), SchedulerStep::Flush);
    assert_eq!(scheduler.next(false), SchedulerStep::Exit);
    assert_eq!(scheduler.next(false), SchedulerStep::Exit);
}

#[test]
fn scheduler_of_a_stopped_capture_ends_at_once() {
    let mut scheduler = FlushScheduler::new();
    assert_eq!(scheduler.next(false), SchedulerStep::Exit);
}

#[test]
fn permission_needs_both_grants() {
    assert!(check_accessibility_permission(true, true));
    assert!(!check_accessibility_permission(true, false));
    assert!(!check_accessibility_permission(false, true));
    assert!(!check_accessibility_permission(false, false));
}

#[test]
fn instructions_name_what_is_missing() {
    assert_eq!(permission_instructions(true, true), Vec::<String>::new());
    let important = "Important: On macOS Mojave or later, 'Input Monitoring' permission is required to monitor keyboard events. Without this permission, the rdev library cannot receive keyboard events.";
    assert_eq!(
        permission_instructions(false, false),
        vec![
            "=== macOS permissions required ===",
            "Go to System Preferences > Security & Privacy > Privacy and set the following:",
            "1. Accessibility: Add and enable the KeyFit app",
            "2. Input Monitoring: Add and enable the KeyFit app",
            "",
            important,
            "",
            "After setting, please restart the app.",
            "=== End of permission instructions ===",
        ]
    );
    assert_eq!(
        permission_instructions(false, true),
        vec![
            "=== macOS permissions required ===",
            "Go to System Preferences > Security & Privacy > Privacy and set the following:",
            "2. Input Monitoring: Add and enable the KeyFit app",
            "",
            important,
            "",
            "After setting, please restart the app.",
            "=== End of permission instructions ===",
        ]
    );
    assert_eq!(permission_instructions(true, false).len(), 8);
    assert_eq!(
        permission_instructions(true, false)[2],
        "1. Accessibility: Add and enable the KeyFit app"
    );
}
