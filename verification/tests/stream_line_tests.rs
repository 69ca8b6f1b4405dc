use aw_watcher_media_player::platform::macos::{parse_stream_line, ParsedLine};
use aw_watcher_media_player::platform::MediaData;

#[test]
fn parses_simple_playing_payload() {
    let line = r#"{"type":"playback","payload":{"bundleIdentifier":"com.spotify.client","title":"400 Lux","artist":"Lorde","album":"Pure Heroine"}}"#;

    let parsed = parse_stream_line(line);
    assert_eq!(
        parsed,
        Some(ParsedLine::Playing(MediaData {
            artists: Some(vec!["Lorde".to_string()]),
            album: Some("Pure Heroine".to_string()),
            title: Some("400 Lux".to_string()),
            uri: None,
            player: "com.spotify.client".to_string(),
        }))
    );
}

#[test]
fn parses_not_playing_payload() {
    let line = r#"{"type":"playback","payload":{"bundleIdentifier":"com.spotify.client","playbackRate":0}}"#;
    assert_eq!(parse_stream_line(line), Some(ParsedLine::NotPlaying));
}

#[test]
fn parses_artists_array() {
    let line = r#"{"payload":{"player":"Music","artists":["A","B"],"title":"Song","album":"Compilation","uri":"https://example.com","playing":true}}"#;

    let parsed = parse_stream_line(line);
    assert_eq!(
        parsed,
        Some(ParsedLine::Playing(MediaData {
            artists: Some(vec!["A".to_string(), "B".to_string()]),
            album: Some("Compilation".to_string()),
            title: Some("Song".to_string()),
            uri: Some("https://example.com".to_string()),
            player: "Music".to_string(),
        }))
    );
}

#[test]
fn parses_playing_state_without_metadata_as_no_change() {
    let line = r#"{"payload":{"state":"playing"}}"#;
    assert_eq!(parse_stream_line(line), Some(ParsedLine::NoChange));
}

#[test]
fn playing_flag_overrides_stale_zero_playback_rate() {
    let line = r#"{"type":"data","payload":{"playing":true,"playbackRate":0,"bundleIdentifier":"com.vivaldi.Vivaldi","title":"Song","artist":"Artist"}}"#;

    let parsed = parse_stream_line(line);
    assert_eq!(
        parsed,
        Some(ParsedLine::Playing(MediaData {
            artists: Some(vec!["Artist".to_string()]),
            album: None,
            title: Some("Song".to_string()),
            uri: None,
            player: "com.vivaldi.Vivaldi".to_string(),
        }))
    );
}

#[test]
fn paused_flag_overrides_stale_nonzero_playback_rate() {
    let line = r#"{"type":"data","payload":{"playing":false,"playbackRate":1,"bundleIdentifier":"com.vivaldi.Vivaldi","title":"Song","artist":"Artist"}}"#;
    assert_eq!(parse_stream_line(line), Some(ParsedLine::NotPlaying));
}

#[test]
fn parses_root_level_payload_without_nested_payload() {
    let line =
        r#"{"type":"data","playing":true,"player":"Music","artists":["A"],"title":"Song"}"#;

    let parsed = parse_stream_line(line);
    assert_eq!(
        parsed,
        Some(ParsedLine::Playing(MediaData {
            artists: Some(vec!["A".to_string()]),
            album: None,
            title: Some("Song".to_string()),
            uri: None,
            player: "Music".to_string(),
        }))
    );
}

#[test]
fn parses_case_variant_nested_payload_via_fallback() {
    let line = r#"{"Type":"Data","Payload":{"Meta":{"BundleIdentifier":"com.vivaldi.Vivaldi","Title":"Song","Artist":"Artist","Playing":true}}}"#;

    let parsed = parse_stream_line(line);
    assert_eq!(
        parsed,
        Some(ParsedLine::Playing(MediaData {
            artists: Some(vec!["Artist".to_string()]),
            album: None,
            title: Some("Song".to_string()),
            uri: None,
            player: "com.vivaldi.Vivaldi".to_string(),
        }))
    );
}

#[test]
fn ignores_non_data_type_with_case_variant_type_key() {
    let line =
        r#"{"Type":"Status","payload":{"playing":true,"player":"Music","title":"Song"}}"#;
    assert_eq!(parse_stream_line(line), None);
}

#[test]
fn ignores_empty_payload_and_non_data_types() {
    assert_eq!(
        parse_stream_line(r#"{"type":"data","diff":false,"payload":{}}"#),
        None
    );
    assert_eq!(
        parse_stream_line(
            r#"{"type":"status","payload":{"playing":true,"player":"Music","title":"Song"}}"#
        ),
        None
    );
}

#[test]
fn ignores_invalid_lines() {
    assert_eq!(parse_stream_line("not-json"), None);
    assert_eq!(parse_stream_line(r#"{"payload":{"duration":123}}"#), None);
}
