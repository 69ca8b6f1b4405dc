use aw_watcher_media_player::json::Json;
use aw_watcher_media_player::platform::macos::schema::{
    first_some_artists, first_some_str, first_some_string, is_data_message_type, StreamLine,
};
use aw_watcher_media_player::platform::macos::search::{
    find_artists_value, find_bool_value, find_direct_member, find_key_value, find_own_type,
    find_rate_value, find_string_value,
};
use aw_watcher_media_player::platform::macos::supervisor::{handle_stream_line, read_stream_line};
use aw_watcher_media_player::platform::macos::{
    apply_update, normalize, parse_stream_line, parse_stream_line_fallback_from_value, ParsedLine,
};
use aw_watcher_media_player::platform::MediaData;

fn song(player: &str) -> MediaData {
    MediaData {
        artists: Some(vec!["Artist".to_string()]),
        album: None,
        title: Some("Song".to_string()),
        uri: None,
        player: player.to_string(),
    }
}

fn text(s: &str) -> Json {
    Json::Text(s.to_string())
}

fn object(members: Vec<(&str, Json)>) -> Json {
    Json::Object(members.into_iter().map(|(k, v)| (k.to_string(), v)).collect())
}

#[test]
fn schema_shapes_give_the_same_snapshot() {
    let nested = r#"{"payload":{"player":"Music","title":"Song","artist":"Artist","playing":true}}"#;
    let flat = r#"{"player":"Music","title":"Song","artist":"Artist","playing":true}"#;
    let varied = r#"{"PLAYER":"Music","Title":"Song","aRtIsT":"Artist","Playing":true}"#;
    let expected = Some(ParsedLine::Playing(song("Music")));
    assert_eq!(parse_stream_line(nested), expected);
    assert_eq!(parse_stream_line(flat), expected);
    assert_eq!(parse_stream_line(varied), expected);
}

#[test]
fn values_are_trimmed_and_blank_values_are_absent() {
    let line = r#"{"player":"  Music ","title":"\tSong\n","artist":["  ", " Artist "],"album":"   ","uri":""}"#;
    assert_eq!(parse_stream_line(line), Some(ParsedLine::Playing(song("Music"))));
}

#[test]
fn player_is_unknown_when_no_key_names_it() {
    let line = r#"{"title":"Song","artist":"Artist"}"#;
    assert_eq!(parse_stream_line(line), Some(ParsedLine::Playing(song("Unknown"))));
}

#[test]
fn key_search_supplies_the_player_that_the_schema_misses() {
    let line = r#"{"title":"Song","artist":"Artist","info":{"BundleIdentifier":"com.apple.Music"}}"#;
    assert_eq!(parse_stream_line(line), Some(ParsedLine::Playing(song("com.apple.Music"))));
}

#[test]
fn schema_snapshot_stays_when_key_search_finds_no_player_either() {
    let line = r#"{"title":"Song","name":"Other","artist":"Artist"}"#;
    assert_eq!(parse_stream_line(line), Some(ParsedLine::Playing(song("Unknown"))));
}

#[test]
fn first_synonym_wins_in_schema_order() {
    let line = r#"{"payload":{"name":"Other","title":"Song","albumArtist":"Band","artist":"Artist","app":"x","player":"Music","sourceAppUserModelId":"y"}}"#;
    assert_eq!(parse_stream_line(line), Some(ParsedLine::Playing(song("Music"))));
}

#[test]
fn nested_payload_is_completed_from_the_root() {
    let line = r#"{"player":"Music","title":"Root","payload":{"title":"Song","artist":"Artist"}}"#;
    assert_eq!(parse_stream_line(line), Some(ParsedLine::Playing(song("Music"))));
}

#[test]
fn flags_are_read_from_booleans_words_and_numbers() {
    for flag in ["false", "\"false\"", "\" No \"", "\"OFF\"", "\"0\"", "0", "-1", "0.0"] {
        let line = format!(r#"{{"isPlaying":{flag},"title":"Song","artist":"Artist"}}"#);
        assert_eq!(parse_stream_line(&line), Some(ParsedLine::NotPlaying), "{flag}");
    }
    for flag in ["true", "\"TRUE\"", "\"yes\"", "\"on\"", "\"1\"", "1", "0.5", "null", "\"maybe\"", "[]"] {
        let line = format!(r#"{{"isPlaying":{flag},"title":"Song","artist":"Artist","player":"P"}}"#);
        assert_eq!(parse_stream_line(&line), Some(ParsedLine::Playing(song("P"))), "{flag}");
    }
}

#[test]
fn rates_are_read_from_numbers_and_number_texts() {
    for rate in ["0", "0.0", "-1", "\"0\"", "\" 0.0 \"", "\"-2\"", "\"nan\"", "-0.0", "0e3"] {
        let line = format!(r#"{{"rate":{rate},"title":"Song"}}"#);
        assert_eq!(parse_stream_line(&line), Some(ParsedLine::NotPlaying), "{rate}");
    }
    for rate in ["1", "0.25", "1e-7", "\"1\"", "\"1.5\"", "\"inf\"", "\"fast\"", "null", "true"] {
        let line = format!(r#"{{"rate":{rate},"state":"playing"}}"#);
        assert_eq!(parse_stream_line(&line), Some(ParsedLine::NoChange), "{rate}");
    }
}

#[test]
fn precedence_is_flag_then_rate_then_status_text() {
    assert_eq!(
        parse_stream_line(r#"{"playing":true,"playbackRate":0,"state":"paused"}"#),
        Some(ParsedLine::NoChange)
    );
    assert_eq!(
        parse_stream_line(r#"{"playbackRate":1,"state":"paused"}"#),
        Some(ParsedLine::NoChange)
    );
    assert_eq!(
        parse_stream_line(r#"{"playbackRate":0,"state":"playing"}"#),
        Some(ParsedLine::NotPlaying)
    );
    assert_eq!(
        parse_stream_line(r#"{"playing":false,"isPlaying":true}"#),
        Some(ParsedLine::NotPlaying)
    );
    assert_eq!(
        parse_stream_line(r#"{"playbackState":"Playing","state":"paused"}"#),
        Some(ParsedLine::NoChange)
    );
}

#[test]
fn status_texts_are_read_by_their_words() {
    for state in ["paused", "Stopped", "INTERRUPTED", "none", "playback stopped", "displayed"] {
        let line = format!(r#"{{"status":"{state}"}}"#);
        let expected = if state == "displayed" { Some(ParsedLine::NoChange) } else { Some(ParsedLine::NotPlaying) };
        assert_eq!(parse_stream_line(&line), expected, "{state}");
    }
    for state in ["playing", "Play", "now PLAYING"] {
        let line = format!(r#"{{"status":"{state}"}}"#);
        assert_eq!(parse_stream_line(&line), Some(ParsedLine::NoChange), "{state}");
    }
    for state in ["buffering", "nonexistent", "  "] {
        let line = format!(r#"{{"status":"{state}"}}"#);
        assert_eq!(parse_stream_line(&line), None, "{state}");
    }
}

#[test]
fn not_playing_wins_over_metadata() {
    let line = r#"{"playing":false,"player":"Music","title":"Song","artist":"Artist"}"#;
    assert_eq!(parse_stream_line(line), Some(ParsedLine::NotPlaying));
}

#[test]
fn other_message_types_give_no_update() {
    for kind in ["status", "Status", "  error ", "datum", "play back"] {
        let line = format!(r#"{{"type":"{kind}","playing":true,"player":"Music","title":"Song","artist":"Artist"}}"#);
        assert_eq!(parse_stream_line(&line), None, "{kind}");
    }
    for kind in ["data", "DATA", "Playback", " playback "] {
        let line = format!(r#"{{"type":"{kind}","playing":true,"player":"Music","title":"Song","artist":"Artist"}}"#);
        assert_eq!(parse_stream_line(&line), Some(ParsedLine::Playing(song("Music"))), "{kind}");
    }
}

#[test]
fn type_inside_the_payload_is_no_discriminator() {
    let line = r#"{"payload":{"type":"track","title":"Song","player":"Music"}}"#;
    assert_eq!(
        parse_stream_line(line),
        Some(ParsedLine::Playing(MediaData {
            artists: None,
            album: None,
            title: Some("Song".to_string()),
            uri: None,
            player: "Music".to_string(),
        }))
    );
    let nested_type = r#"{"payload":{"type":"status","title":"Song","artist":"Artist","player":"Music"}}"#;
    assert_eq!(parse_stream_line(nested_type), Some(ParsedLine::Playing(song("Music"))));
    let deep = r#"{"Payload":{"Meta":{"Type":"status","Title":"Song","Artist":"Artist","Player":"Music"}}}"#;
    assert_eq!(parse_stream_line(deep), Some(ParsedLine::Playing(song("Music"))));
    let in_list = r#"[{"type":"status"}]"#;
    assert_eq!(parse_stream_line_fallback_from_value(&Json::parse(in_list).unwrap()), None);
    let searched = object(vec![
        ("info", object(vec![("type", text("status"))])),
        ("Title", text("Song")),
        ("Artist", text("Artist")),
        ("Player", text("Music")),
    ]);
    assert_eq!(
        parse_stream_line_fallback_from_value(&searched),
        Some(ParsedLine::Playing(song("Music")))
    );
    assert_eq!(normalize(&searched), Some(ParsedLine::Playing(song("Music"))));
}

#[test]
fn own_type_is_read_in_any_letter_case() {
    let doc = Json::parse(r#"{"TYPE":" Status ","payload":{"type":"data"}}"#).unwrap();
    assert_eq!(find_own_type(&doc), Some("Status".to_string()));
    assert_eq!(normalize(&doc), None);
    let doc = Json::parse(r#"{"payload":{"type":"data"}}"#).unwrap();
    assert_eq!(find_own_type(&doc), None);
    let doc = Json::parse(r#"{"type":5}"#).unwrap();
    assert_eq!(find_own_type(&doc), None);
    assert_eq!(find_own_type(&Json::Array(vec![])), None);
    let doc = Json::parse(r#"{"a":{"title":"x"},"Title":"y","title":"z"}"#).unwrap();
    match &doc {
        Json::Object(entries) => {
            assert!(matches!(find_direct_member(entries, &["title"]), Some(Json::Text(t)) if t == "y"));
            assert!(find_direct_member(entries, &["name"]).is_none());
        }
        other => panic!("unexpected {other:?}"),
    }
}

#[test]
fn documents_that_are_no_events_give_no_update() {
    for line in ["[]", "\"text\"", "12", "null", "true", r#"[{"title":"Song","playing":true}]"#,
        r#"{"payload":"text","title":"Song"}"#, r#"{"payload":5,"title":"Song"}"#,
        r#"{"payload":true,"title":"Song"}"#, "{}", "", "{", r#"{"title":"Song"} x"#] {
        assert_eq!(parse_stream_line(line), None, "{line:?}");
    }
    assert_eq!(
        parse_stream_line(r#"{"payload":null,"title":"Song","artist":"Artist","player":"P"}"#),
        Some(ParsedLine::Playing(song("P")))
    );
}

#[test]
fn payload_array_is_read_by_position() {
    let line = r#"{"payload":[true,null,null,null,null,null,null,"Song",null,"Artist"],"player":"Music"}"#;
    assert_eq!(parse_stream_line(line), Some(ParsedLine::Playing(song("Music"))));
    assert_eq!(
        parse_stream_line(r#"{"payload":[false]}"#),
        Some(ParsedLine::NotPlaying)
    );
    assert_eq!(parse_stream_line(r#"{"payload":[],"state":"playing"}"#), Some(ParsedLine::NoChange));
    let full = format!(r#"{{"payload":[true{}]}}"#, ",null".repeat(22));
    assert_eq!(parse_stream_line(&full), Some(ParsedLine::NoChange));
    let long = format!(r#"{{"payload":[true{}]}}"#, ",null".repeat(23));
    assert_eq!(parse_stream_line(&long), None);
}

#[test]
fn schema_takes_artist_arrays_of_strings_only() {
    let mixed = r#"{"player":"P","title":"Song","artist":["Artist",5]}"#;
    let line = StreamLine::decode(&Json::parse(mixed).unwrap()).unwrap();
    assert_eq!(line.root.artist, None);
    assert_eq!(line.root.title, Some("Song".to_string()));
    assert_eq!(parse_stream_line(mixed), Some(ParsedLine::Playing(MediaData {
        artists: None,
        album: None,
        title: Some("Song".to_string()),
        uri: None,
        player: "P".to_string(),
    })));
    let searched = find_artists_value(&Json::parse(mixed).unwrap(), &["artist"]);
    assert_eq!(searched, Some(vec!["Artist".to_string()]));
}

#[test]
fn key_search_takes_direct_members_before_nested_ones() {
    let doc = Json::parse(r#"{"a":{"title":"Nested"},"z":[{"Name":"Deeper"}],"TITLE":" Top "}"#).unwrap();
    assert_eq!(find_string_value(&doc, &["title", "name"]), Some("Top".to_string()));
    let doc = Json::parse(r#"{"a":{"x":1},"b":[1,{"c":{"Name":"Deep"}}],"d":{"name":"Later"}}"#).unwrap();
    assert_eq!(find_string_value(&doc, &["title", "name"]), Some("Deep".to_string()));
    assert!(find_key_value(&doc, &["missing"]).is_none());
    assert!(matches!(find_key_value(&doc, &["C"]), Some(Json::Object(_))));
    let doc = Json::parse(r#"{"playing":"yes","rate":"1","isPlaying":1}"#).unwrap();
    assert_eq!(find_bool_value(&doc, &["playing", "isPlaying"]), None);
    assert_eq!(find_rate_value(&doc, &["playing", "isPlaying"]), Some(true));
    assert_eq!(find_rate_value(&doc, &["rate"]), None);
}

#[test]
fn key_search_reads_payload_before_the_whole_document() {
    let doc = object(vec![
        ("payload", object(vec![("Title", text("Inner"))])),
        ("title", text("Outer")),
    ]);
    assert_eq!(
        parse_stream_line_fallback_from_value(&doc),
        Some(ParsedLine::Playing(MediaData {
            artists: None,
            album: None,
            title: Some("Inner".to_string()),
            uri: None,
            player: "Unknown".to_string(),
        }))
    );
    let doc = object(vec![("Type", text("status")), ("title", text("Song"))]);
    assert_eq!(parse_stream_line_fallback_from_value(&doc), None);
    let doc = object(vec![("Playing", Json::Bool(false)), ("title", text("Song"))]);
    assert_eq!(parse_stream_line_fallback_from_value(&doc), Some(ParsedLine::NotPlaying));
    let doc = object(vec![("PlaybackRate", Json::Number("2".to_string()))]);
    assert_eq!(parse_stream_line_fallback_from_value(&doc), Some(ParsedLine::NoChange));
    assert_eq!(parse_stream_line_fallback_from_value(&Json::Null), None);
}

#[test]
fn normalize_reads_documents_built_by_hand() {
    let doc = object(vec![
        ("type", text("data")),
        ("payload", object(vec![
            ("bundleIdentifier", text("com.spotify.client")),
            ("title", text("Song")),
            ("artists", Json::Array(vec![text("Artist")])),
            ("playbackRate", Json::Number("1.0".to_string())),
        ])),
    ]);
    assert_eq!(normalize(&doc), Some(ParsedLine::Playing(song("com.spotify.client"))));
    assert_eq!(normalize(&Json::Array(vec![])), None);
    assert_eq!(normalize(&object(vec![("state", text("playing"))])), Some(ParsedLine::NoChange));
}

#[test]
fn first_present_value_is_taken() {
    let none: Option<String> = None;
    let a = Some("a".to_string());
    let b = Some("b".to_string());
    assert_eq!(first_some_str(&[&none, &a, &b]), Some("a"));
    assert_eq!(first_some_string(&[&b, &a]), Some("b".to_string()));
    assert_eq!(first_some_string(&[&none, &none]), None);
    assert_eq!(first_some_string(&[]), None);
    let artists = Some(vec!["x".to_string()]);
    assert_eq!(first_some_artists(&[&None, &artists]), Some(vec!["x".to_string()]));
    assert_eq!(first_some_artists(&[&None]), None);
    assert!(is_data_message_type("Data"));
    assert!(is_data_message_type("PLAYBACK"));
    assert!(!is_data_message_type("status"));
    assert!(!is_data_message_type(""));
}

#[test]
fn no_change_leaves_any_record_as_it_is() {
    let mut empty: Option<MediaData> = None;
    assert!(!apply_update(&mut empty, ParsedLine::NoChange));
    assert_eq!(empty, None);
    let mut full = Some(song("Music"));
    assert!(!apply_update(&mut full, ParsedLine::NoChange));
    assert_eq!(full, Some(song("Music")));
}

#[test]
fn repeated_update_is_one_transition() {
    let mut record: Option<MediaData> = None;
    assert!(apply_update(&mut record, ParsedLine::Playing(song("Music"))));
    assert_eq!(record, Some(song("Music")));
    assert!(!apply_update(&mut record, ParsedLine::Playing(song("Music"))));
    assert_eq!(record, Some(song("Music")));
    assert!(apply_update(&mut record, ParsedLine::Playing(song("Other"))));
    assert_eq!(record, Some(song("Other")));
    assert!(apply_update(&mut record, ParsedLine::NotPlaying));
    assert_eq!(record, None);
    assert!(!apply_update(&mut record, ParsedLine::NotPlaying));
    assert_eq!(record, None);
}

#[test]
fn stream_lines_update_the_record() {
    let mut record: Option<MediaData> = None;
    assert!(handle_stream_line(&mut record, r#"{"player":"Music","title":"Song","artist":"Artist"}"#));
    assert_eq!(record, Some(song("Music")));
    assert!(!handle_stream_line(&mut record, "   "));
    assert!(!handle_stream_line(&mut record, ""));
    assert!(!handle_stream_line(&mut record, "not-json"));
    assert!(!handle_stream_line(&mut record, r#"{"state":"playing"}"#));
    assert!(!handle_stream_line(&mut record, r#"{"type":"status","playing":false}"#));
    assert_eq!(record, Some(song("Music")));
    assert!(handle_stream_line(&mut record, r#"  {"playing":false}  "#));
    assert_eq!(record, None);
}

#[test]
fn stream_lines_are_read_without_the_record() {
    assert_eq!(read_stream_line(""), None);
    assert_eq!(read_stream_line(" \t "), None);
    assert_eq!(read_stream_line("not-json"), None);
    assert_eq!(read_stream_line(r#"{"state":"playing"}"#), Some(ParsedLine::NoChange));
    assert_eq!(read_stream_line(r#" {"playing":false} "#), Some(ParsedLine::NotPlaying));
    assert_eq!(
        read_stream_line(r#"{"player":"Music","title":"Song","artist":"Artist"}"#),
        Some(ParsedLine::Playing(song("Music")))
    );
}
