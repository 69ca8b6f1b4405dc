use aw_watcher_media_player::json::Json;

#[test]
fn rejects_text_that_is_not_json() {
    assert!(Json::parse("not-json").is_none());
}

#[test]
fn parses_object_members_in_key_order() {
    let doc = Json::parse(r#"{"b":1,"a":[true,null,"x"]}"#).unwrap();
    match doc {
        Json::Object(entries) => {
            assert_eq!(entries.len(), 2);
            assert_eq!(entries[0].0, "a");
            assert_eq!(entries[1].0, "b");
            assert!(matches!(&entries[1].1, Json::Number(n) if n == "1"));
            match &entries[0].1 {
                Json::Array(items) => {
                    assert_eq!(items.len(), 3);
                    assert!(matches!(items[0], Json::Bool(true)));
                    assert!(matches!(items[1], Json::Null));
                    assert!(matches!(&items[2], Json::Text(s) if s == "x"));
                }
                other => panic!("unexpected {other:?}"),
            }
        }
        other => panic!("unexpected {other:?}"),
    }
}
