use aw_watcher_media_player::platform::linux;
use aw_watcher_media_player::platform::windows;
use aw_watcher_media_player::platform::MediaData;
use serde_json::Value;

fn full_snapshot() -> MediaData {
    MediaData {
        artists: Some(vec!["A".to_string(), "B".to_string()]),
        album: Some("Compilation".to_string()),
        title: Some("Song".to_string()),
        uri: Some("https://example.com".to_string()),
        player: "Music".to_string(),
    }
}

#[test]
fn serialize_writes_every_present_field() {
    let data = full_snapshot().serialize();
    assert_eq!(data.len(), 5);
    assert_eq!(data.get("player"), Some(&Value::String("Music".to_string())));
    assert_eq!(data.get("artist"), Some(&Value::String("A, B".to_string())));
    assert_eq!(data.get("album"), Some(&Value::String("Compilation".to_string())));
    assert_eq!(data.get("title"), Some(&Value::String("Song".to_string())));
    assert_eq!(data.get("uri"), Some(&Value::String("https://example.com".to_string())));
}

#[test]
fn serialize_omits_absent_and_empty_fields() {
    let data = MediaData {
        artists: Some(vec![]),
        album: Some(String::new()),
        title: Some(String::new()),
        uri: None,
        player: String::new(),
    }
    .serialize();
    assert_eq!(data.len(), 1);
    assert_eq!(data.get("player"), Some(&Value::String(String::new())));
}

#[test]
fn snapshots_compare_by_content() {
    assert_eq!(full_snapshot(), full_snapshot());
    assert_eq!(full_snapshot(), full_snapshot().clone());
    let mut other = full_snapshot();
    other.artists = Some(vec!["A".to_string()]);
    assert_ne!(full_snapshot(), other);
    let mut other = full_snapshot();
    other.uri = None;
    assert_ne!(full_snapshot(), other);
    let mut other = full_snapshot();
    other.player = "music".to_string();
    assert_ne!(full_snapshot(), other);
}

fn linux_reading(status: Option<linux::PlaybackStatus>) -> linux::PlayerReading {
    linux::PlayerReading {
        identity: "VLC media player".to_string(),
        status,
        metadata: Some(linux::Metadata {
            title: Some("Song".to_string()),
            album_name: Some(String::new()),
            url: None,
            artists: None,
            album_artists: Some(vec!["Various".to_string()]),
        }),
    }
}

#[test]
fn linux_snapshot_needs_a_playing_player_with_metadata() {
    assert_eq!(linux::mediadata(&None), None);
    assert_eq!(linux::mediadata(&Some(linux_reading(None))), None);
    assert_eq!(
        linux::mediadata(&Some(linux_reading(Some(linux::PlaybackStatus::Paused)))),
        None
    );
    assert_eq!(
        linux::mediadata(&Some(linux_reading(Some(linux::PlaybackStatus::Stopped)))),
        None
    );
    let mut bare = linux_reading(Some(linux::PlaybackStatus::Playing));
    bare.metadata = None;
    assert!(linux::lacks_metadata(&bare));
    assert_eq!(linux::mediadata(&Some(bare)), None);
}

#[test]
fn linux_snapshot_maps_fields_and_falls_back_to_album_artists() {
    let reading = linux_reading(Some(linux::PlaybackStatus::Playing));
    assert!(!linux::lacks_metadata(&reading));
    assert_eq!(
        linux::mediadata(&Some(reading)),
        Some(MediaData {
            artists: Some(vec!["Various".to_string()]),
            album: None,
            title: Some("Song".to_string()),
            uri: None,
            player: "VLC media player".to_string(),
        })
    );
    let mut reading = linux_reading(Some(linux::PlaybackStatus::Playing));
    if let Some(metadata) = reading.metadata.as_mut() {
        metadata.artists = Some(vec!["Band".to_string()]);
        metadata.url = Some("file:///song.ogg".to_string());
        metadata.album_name = Some("Album".to_string());
    }
    assert_eq!(
        linux::mediadata(&Some(reading)),
        Some(MediaData {
            artists: Some(vec!["Band".to_string()]),
            album: Some("Album".to_string()),
            title: Some("Song".to_string()),
            uri: Some("file:///song.ogg".to_string()),
            player: "VLC media player".to_string(),
        })
    );
}

fn windows_reading() -> windows::SessionReading {
    windows::SessionReading {
        status: Some(windows::SessionStatus::Playing),
        properties: Some(windows::MediaProperties {
            title: Some("Song".to_string()),
            artist: Some("Band".to_string()),
            album_title: None,
        }),
        source_app_user_model_id: Some("Spotify.exe".to_string()),
    }
}

#[test]
fn windows_snapshot_degrades_field_by_field() {
    assert_eq!(
        windows::mediadata(&Some(windows_reading())),
        Some(MediaData {
            artists: Some(vec!["Band".to_string()]),
            album: None,
            title: Some("Song".to_string()),
            uri: None,
            player: "Spotify.exe".to_string(),
        })
    );
    let mut reading = windows_reading();
    if let Some(properties) = reading.properties.as_mut() {
        properties.artist = None;
        properties.title = None;
    }
    assert_eq!(
        windows::mediadata(&Some(reading)),
        Some(MediaData {
            artists: None,
            album: None,
            title: None,
            uri: None,
            player: "Spotify.exe".to_string(),
        })
    );
}

#[test]
fn windows_snapshot_needs_playing_session_properties_and_application() {
    assert_eq!(windows::mediadata(&None), None);
    let mut reading = windows_reading();
    reading.status = Some(windows::SessionStatus::Paused);
    assert_eq!(windows::mediadata(&Some(reading)), None);
    let mut reading = windows_reading();
    reading.status = None;
    assert_eq!(windows::mediadata(&Some(reading)), None);
    let mut reading = windows_reading();
    reading.properties = None;
    assert_eq!(windows::mediadata(&Some(reading)), None);
    let mut reading = windows_reading();
    reading.source_app_user_model_id = None;
    assert_eq!(windows::mediadata(&Some(reading)), None);
}
