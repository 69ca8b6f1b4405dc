use aw_watcher_media_player::config::Config;
use aw_watcher_media_player::platform::MediaData;
use aw_watcher_media_player::watcher::{
    bucket_name, init_failure_message, next_init_step, next_send_step, pulse_window,
    should_attempt_reinit, should_warn, tick_action, DeliveryState, InitStep, SendStep, Severity,
    TickAction, INIT_RETRY_DELAY_SECONDS, SEND_RETRY_DELAY_MILLIS,
};

#[test]
fn reinit_is_attempted_after_first_failure_and_every_fifth() {
    for failures in [1u32, 5, 10, 15, 20] {
        assert!(should_attempt_reinit(failures), "{failures}");
    }
    for failures in [2u32, 3, 4, 6, 7, 8, 9] {
        assert!(!should_attempt_reinit(failures), "{failures}");
    }
}

#[test]
fn warnings_are_throttled_to_powers_of_two() {
    for failures in [1u32, 2, 4, 8, 16] {
        assert!(should_warn(failures), "{failures}");
    }
    for failures in [3u32, 5, 6, 7] {
        assert!(!should_warn(failures), "{failures}");
    }
    assert!(!should_warn(0));
    assert!(should_warn(1 << 31));
    assert!(!should_warn(u32::MAX));
}

#[test]
fn failure_counter_increments_and_saturates() {
    let mut state = DeliveryState::new();
    assert_eq!(state.consecutive_send_failures, 0);
    let first = state.record_failure();
    assert_eq!(state.consecutive_send_failures, 1);
    assert_eq!(first.severity, Severity::Warning);
    assert!(first.reinit);
    let second = state.record_failure();
    assert_eq!(state.consecutive_send_failures, 2);
    assert_eq!(second.severity, Severity::Warning);
    assert!(!second.reinit);
    let third = state.record_failure();
    assert_eq!(third.severity, Severity::Debug);
    assert!(!third.reinit);
    state.record_failure();
    let fifth = state.record_failure();
    assert_eq!(state.consecutive_send_failures, 5);
    assert_eq!(fifth.severity, Severity::Debug);
    assert!(fifth.reinit);

    let mut full = DeliveryState { consecutive_send_failures: u32::MAX };
    full.record_failure();
    assert_eq!(full.consecutive_send_failures, u32::MAX);
}

#[test]
fn success_and_reinit_reset_the_counter() {
    let mut state = DeliveryState { consecutive_send_failures: 3 };
    state.record_reinit(false);
    assert_eq!(state.consecutive_send_failures, 3);
    state.record_reinit(true);
    assert_eq!(state.consecutive_send_failures, 0);

    let mut state = DeliveryState { consecutive_send_failures: 7 };
    assert!(state.record_success());
    assert_eq!(state.consecutive_send_failures, 0);
    assert!(!state.record_success());
}

#[test]
fn init_retries_refused_connections_three_times() {
    let refused: Result<(), String> =
        Err("error sending request: tcp connect error: Connection refused (os error 111)".into());
    assert_eq!(next_init_step(0, &refused), InitStep::Retry);
    assert_eq!(next_init_step(2, &refused), InitStep::Retry);
    assert_eq!(next_init_step(3, &refused), InitStep::Fail);
    let other: Result<(), String> = Err("410 Gone".into());
    assert_eq!(next_init_step(0, &other), InitStep::Fail);
    assert_eq!(next_init_step(0, &Ok(())), InitStep::Done);
    assert_eq!(next_init_step(3, &Ok(())), InitStep::Done);
}

#[test]
fn failed_send_is_retried_once() {
    assert_eq!(next_send_step(false, true), SendStep::Delivered);
    assert_eq!(next_send_step(false, false), SendStep::Retry);
    assert_eq!(next_send_step(true, false), SendStep::Failed);
    assert_eq!(next_send_step(true, true), SendStep::Delivered);
}

#[test]
fn pulse_window_is_poll_interval_plus_one_second() {
    assert_eq!(pulse_window(5), 6);
    assert_eq!(pulse_window(0), 1);
    assert_eq!(pulse_window(u64::MAX), u64::MAX as u128 + 1);
}

#[test]
fn bucket_is_named_after_watcher_and_host() {
    assert_eq!(bucket_name("laptop"), "aw-watcher-media-player_laptop");
    assert_eq!(
        init_failure_message("aw-watcher-media-player_laptop"),
        "Failed to create bucket aw-watcher-media-player_laptop"
    );
}

fn snapshot_of(player: &str) -> MediaData {
    MediaData {
        artists: None,
        album: None,
        title: Some("Song".to_string()),
        uri: None,
        player: player.to_string(),
    }
}

#[test]
fn tick_sends_only_reported_players() {
    let config = Config {
        host: "localhost".to_string(),
        port: 5600,
        poll_interval: 5,
        include_players: vec![],
        exclude_players: vec!["spotify".to_string()],
    };
    assert_eq!(tick_action(&config, &None), TickAction::Idle);
    assert_eq!(tick_action(&config, &Some(snapshot_of("Spotify Free"))), TickAction::Skip);
    assert_eq!(tick_action(&config, &Some(snapshot_of("Firefox"))), TickAction::Send);
}

#[test]
fn retry_delays_are_short_and_fixed() {
    assert_eq!(INIT_RETRY_DELAY_SECONDS, 1);
    assert_eq!(SEND_RETRY_DELAY_MILLIS, 500);
}
