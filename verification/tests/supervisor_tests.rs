use aw_watcher_media_player::platform::macos::supervisor::{
    command_name, debounce_setting_is_invalid, media_control_candidates, next_worker_step,
    stream_command_profiles, stream_debounce_ms, AttemptOutcome, DebounceSetting, SpawnFailure,
    SpawnResult, SpawnScan, StreamCommandProfile,
};

fn failure_text(failure: &SpawnFailure) -> Option<&str> {
    match failure {
        SpawnFailure::NotFound => None,
        SpawnFailure::Other(message) => Some(message.as_str()),
    }
}

#[test]
fn profiles_go_from_rich_to_bare() {
    let profiles = stream_command_profiles(200);
    assert_eq!(profiles.len(), 3);
    assert_eq!(profiles[0].args, vec!["stream", "--no-diff", "--debounce=200"]);
    assert_eq!(profiles[1].args, vec!["stream", "--no-diff"]);
    assert_eq!(profiles[2].args, vec!["stream"]);
    assert_eq!(profiles[0].display(), "stream --no-diff --debounce=200");
    assert_eq!(stream_command_profiles(0)[0].display(), "stream --no-diff --debounce=0");
    let profile = StreamCommandProfile::new(vec![]);
    assert_eq!(profile.display(), "");
}

#[test]
fn debounce_falls_back_to_default() {
    assert_eq!(stream_debounce_ms(&DebounceSetting::NotPresent), 200);
    assert_eq!(stream_debounce_ms(&DebounceSetting::NotUnicode), 200);
    assert_eq!(stream_debounce_ms(&DebounceSetting::Value(" 350\n".to_string())), 350);
    assert_eq!(stream_debounce_ms(&DebounceSetting::Value("0".to_string())), 0);
    assert_eq!(stream_debounce_ms(&DebounceSetting::Value("fast".to_string())), 200);
    assert_eq!(stream_debounce_ms(&DebounceSetting::Value("-5".to_string())), 200);
    assert_eq!(stream_debounce_ms(&DebounceSetting::Value(String::new())), 200);
    assert!(!debounce_setting_is_invalid(&DebounceSetting::NotPresent));
    assert!(debounce_setting_is_invalid(&DebounceSetting::NotUnicode));
    assert!(debounce_setting_is_invalid(&DebounceSetting::Value("fast".to_string())));
    assert!(!debounce_setting_is_invalid(&DebounceSetting::Value("12".to_string())));
}

#[test]
fn candidates_start_with_explicit_path_and_hold_nothing_twice() {
    let fallbacks = vec![
        "/opt/homebrew/bin/media-control",
        "/usr/local/bin/media-control",
        "media-control",
    ];
    assert_eq!(media_control_candidates(None), fallbacks);
    assert_eq!(media_control_candidates(Some(String::new())), fallbacks);
    assert_eq!(
        media_control_candidates(Some("/tmp/mc".to_string())),
        vec!["/tmp/mc", "/opt/homebrew/bin/media-control", "/usr/local/bin/media-control", "media-control"]
    );
    assert_eq!(
        media_control_candidates(Some("media-control".to_string())),
        vec!["media-control", "/opt/homebrew/bin/media-control", "/usr/local/bin/media-control"]
    );
}

#[test]
fn scan_reports_errors_before_missing_executables() {
    let mut scan = SpawnScan::new();
    assert_eq!(failure_text(&scan.finish()), Some("No media-control command candidates available"));
    assert!(!scan.record("a", "stream", &AttemptOutcome::NotFound));
    assert!(matches!(scan.finish(), SpawnFailure::NotFound));
    assert!(!scan.record("b", "stream --no-diff", &AttemptOutcome::ExitedEarly("exit status: 1".to_string())));
    assert!(!scan.record("b", "stream", &AttemptOutcome::CheckFailed("broken".to_string())));
    assert!(!scan.record("c", "stream", &AttemptOutcome::SpawnFailed("denied".to_string())));
    assert_eq!(
        failure_text(&scan.finish()),
        Some("b stream --no-diff exited before startup with status exit status: 1, b stream failed during startup check (broken), c stream (denied)")
    );
    assert!(scan.record("d", "stream", &AttemptOutcome::Started));
    assert_eq!(scan.other_errors.len(), 3);
    assert!(scan.saw_not_found);
    assert_eq!(command_name("/usr/local/bin/media-control", "stream --no-diff"), "/usr/local/bin/media-control stream --no-diff");
}

#[test]
fn worker_warns_once_about_missing_executable() {
    let first = next_worker_step(false, SpawnResult::NotFound);
    assert!(first.warn);
    assert!(first.warned_about_missing_binary);
    assert_eq!(first.wait_seconds, Some(15));
    let second = next_worker_step(true, SpawnResult::NotFound);
    assert!(!second.warn);
    assert!(second.warned_about_missing_binary);
    assert_eq!(second.wait_seconds, Some(15));
    let failed = next_worker_step(true, SpawnResult::Failed);
    assert!(failed.warn);
    assert!(failed.warned_about_missing_binary);
    assert_eq!(failed.wait_seconds, Some(2));
    let started = next_worker_step(true, SpawnResult::Started);
    assert!(!started.warn);
    assert!(!started.warned_about_missing_binary);
    assert_eq!(started.wait_seconds, None);
}

#[test]
fn attempts_run_profiles_inside_candidates() {
    let mut scan = SpawnScan::new();
    let mut order = Vec::new();
    while let Some((candidate, profile)) = scan.next_attempt(2, 3) {
        order.push((candidate, profile));
        assert!(!scan.record("c", "p", &AttemptOutcome::NotFound));
    }
    assert_eq!(order, vec![(0, 0), (0, 1), (0, 2), (1, 0), (1, 1), (1, 2)]);
    assert_eq!(scan.attempts, 6);
    assert!(matches!(scan.finish(), SpawnFailure::NotFound));
    assert_eq!(SpawnScan::new().next_attempt(0, 3), None);
    assert_eq!(SpawnScan::new().next_attempt(3, 0), None);
}

#[test]
fn round_stops_at_the_first_attempt_that_runs() {
    let mut scan = SpawnScan::new();
    assert_eq!(scan.next_attempt(2, 2), Some((0, 0)));
    assert!(!scan.record("a", "x", &AttemptOutcome::SpawnFailed("denied".to_string())));
    assert_eq!(scan.next_attempt(2, 2), Some((0, 1)));
    assert!(scan.record("a", "y", &AttemptOutcome::Started));
    assert!(scan.started);
    assert_eq!(scan.next_attempt(2, 2), None);
    let mut full = SpawnScan::new();
    full.attempts = usize::MAX;
    assert!(!full.record("a", "x", &AttemptOutcome::NotFound));
    assert_eq!(full.attempts, usize::MAX);
}
