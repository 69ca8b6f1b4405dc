//! Looking for a key anywhere in a document, whatever its letter case.

use vstd::prelude::*;
use vstd::string::*;

use crate::json::{entries_view, items_view, lemma_array_view, lemma_object_view, slot_view, Json, JsonSpec};
use crate::platform::macos::schema::{
    lenient_artists_reading, number_above_zero, read_artists_leniently, read_state_signal,
    read_number_above_zero, read_text, state_signal_of, text_reading,
};
use crate::platform::{MediaData, MediaDataView, UNKNOWN_PLAYER};
use crate::text::{eq_ignore_ascii_case, eq_ignoring_ascii_case};

verus! {

/// Whether `key` is one of `keys`, letter case aside.
pub open spec fn key_is_among(key: Seq<char>, keys: Seq<Seq<char>>) -> bool {
    exists|i: int| 0 <= i < keys.len() && eq_ignoring_ascii_case(key, #[trigger] keys[i])
}

/// The value of the first member, from `from` on, whose key is one of `keys`.
pub open spec fn first_keyed(entries: Seq<(Seq<char>, JsonSpec)>, keys: Seq<Seq<char>>, from: int)
    -> Option<JsonSpec>
    decreases entries.len() - from,
{
    if from < 0 || from >= entries.len() {
        None
    } else if key_is_among(entries[from].0, keys) {
        Some(entries[from].1)
    } else {
        first_keyed(entries, keys, from + 1)
    }
}

/// The value found for `keys` in `value`: in an object, that of the first
/// member whose key is one of them, else what is found in the first member
/// value that holds one; in an array, what is found in the first item that
/// holds one; nothing in any other value.
pub open spec fn find_key(value: JsonSpec, keys: Seq<Seq<char>>) -> Option<JsonSpec>
    decreases value,
{
    match value {
        JsonSpec::Object(entries) => match first_keyed(entries, keys, 0) {
            Some(found) => Some(found),
            None => find_in_members(entries, keys, 0),
        },
        JsonSpec::Array(items) => find_in_items(items, keys, 0),
        _ => None,
    }
}

/// What is found in the first member value, from `from` on, that holds one
/// of `keys`.
pub open spec fn find_in_members(
    entries: Seq<(Seq<char>, JsonSpec)>,
    keys: Seq<Seq<char>>,
    from: int,
) -> Option<JsonSpec>
    decreases entries, entries.len() - from,
{
    if from < 0 || from >= entries.len() {
        None
    } else {
        match find_key(entries[from].1, keys) {
            Some(found) => Some(found),
            None => find_in_members(entries, keys, from + 1),
        }
    }
}

/// What is found in the first item, from `from` on, that holds one of `keys`.
pub open spec fn find_in_items(items: Seq<JsonSpec>, keys: Seq<Seq<char>>, from: int) -> Option<
    JsonSpec,
>
    decreases items, items.len() - from,
{
    if from < 0 || from >= items.len() {
        None
    } else {
        match find_key(items[from], keys) {
            Some(found) => Some(found),
            None => find_in_items(items, keys, from + 1),
        }
    }
}

fn key_among(key: &str, keys: &[&str]) -> (among: bool)
    ensures
        among == key_is_among(key@, keys.deep_view()),
{
    let mut i: usize = 0;
    while i < keys.len()
        invariant
            i <= keys.len(),
            forall|k: int| 0 <= k < i ==> !eq_ignoring_ascii_case(key@, keys.deep_view()[k]),
        decreases keys.len() - i,
    {
        proof {
            assert(keys.deep_view()[i as int] == keys@[i as int]@);
        }
        if eq_ignore_ascii_case(key, keys[i]) {
            return true;
        }
        i += 1;
    }
    false
}

/// Looks among the members of an object for the first whose key is one of
/// `keys`.
pub fn find_direct_member<'a>(entries: &'a Vec<(String, Json)>, keys: &[&str]) -> (out: Option<
    &'a Json,
>)
    ensures
        slot_view(out) == first_keyed(entries_view(entries@), keys.deep_view(), 0),
{
    let ghost members = entries_view(entries@);
    let mut i: usize = 0;
    while i < entries.len()
        invariant
            i <= entries.len(),
            members == entries_view(entries@),
            first_keyed(members, keys.deep_view(), 0) == first_keyed(
                members,
                keys.deep_view(),
                i as int,
            ),
        decreases entries.len() - i,
    {
        proof {
            assert(members[i as int] == (entries@[i as int].0@, entries@[i as int].1@));
        }
        if key_among(entries[i].0.as_str(), keys) {
            return Some(&entries[i].1);
        }
        i += 1;
    }
    None
}

/// Looks for one of `keys` in `value`.
pub fn find_key_value<'a>(value: &'a Json, keys: &[&str]) -> (out: Option<&'a Json>)
    ensures
        slot_view(out) == find_key(value@, keys.deep_view()),
    decreases value,
{
    match value {
        Json::Object(entries) => {
            proof {
                lemma_object_view(*entries);
            }
            let ghost members = entries_view(entries@);
            match find_direct_member(entries, keys) {
                Some(found) => { return Some(found); },
                None => {},
            }
            let mut j: usize = 0;
            while j < entries.len()
                invariant
                    j <= entries.len(),
                    value == Json::Object(*entries),
                    members == entries_view(entries@),
                    value@ == JsonSpec::Object(members),
                    first_keyed(members, keys.deep_view(), 0) is None,
                    find_in_members(members, keys.deep_view(), 0) == find_in_members(
                        members,
                        keys.deep_view(),
                        j as int,
                    ),
                decreases entries.len() - j,
            {
                proof {
                    assert(members[j as int] == (entries@[j as int].0@, entries@[j as int].1@));
                }
                let found = find_key_value(&entries[j].1, keys);
                if found.is_some() {
                    return found;
                }
                j += 1;
            }
            None
        },
        Json::Array(items) => {
            proof {
                lemma_array_view(*items);
            }
            let ghost documents = items_view(items@);
            let mut j: usize = 0;
            while j < items.len()
                invariant
                    j <= items.len(),
                    value == Json::Array(*items),
                    documents == items_view(items@),
                    value@ == JsonSpec::Array(documents),
                    find_in_items(documents, keys.deep_view(), 0) == find_in_items(
                        documents,
                        keys.deep_view(),
                        j as int,
                    ),
                decreases items.len() - j,
            {
                proof {
                    assert(documents[j as int] == items@[j as int]@);
                }
                let found = find_key_value(&items[j], keys);
                if found.is_some() {
                    return found;
                }
                j += 1;
            }
            None
        },
        _ => None,
    }
}

/// The text found for `keys` in `value`: that of the value found, if it is
/// a string that is not blank.
pub open spec fn found_text(value: JsonSpec, keys: Seq<Seq<char>>) -> Option<Seq<char>> {
    match find_key(value, keys) {
        Some(found) => text_reading(found),
        None => None,
    }
}

/// The artists found for `keys` in `value`, read leniently.
pub open spec fn found_artists(value: JsonSpec, keys: Seq<Seq<char>>) -> Option<Seq<Seq<char>>> {
    match find_key(value, keys) {
        Some(found) => lenient_artists_reading(found),
        None => None,
    }
}

/// The flag found for `keys` in `value`: the value found, if it is a boolean.
pub open spec fn found_flag(value: JsonSpec, keys: Seq<Seq<char>>) -> Option<bool> {
    match find_key(value, keys) {
        Some(JsonSpec::Bool(flag)) => Some(flag),
        _ => None,
    }
}

/// The rate found for `keys` in `value`, read for whether it is above zero:
/// the value found, if it is a number.
pub open spec fn found_rate(value: JsonSpec, keys: Seq<Seq<char>>) -> Option<bool> {
    match find_key(value, keys) {
        Some(JsonSpec::Number(number)) => Some(number_above_zero(number)),
        _ => None,
    }
}

/// The keys under which a title may stand.
pub open spec fn title_keys() -> Seq<Seq<char>> {
    seq!["title"@, "name"@]
}

/// The keys under which artists may stand.
pub open spec fn artist_keys() -> Seq<Seq<char>> {
    seq!["artist"@, "artists"@, "albumArtist"@, "albumArtists"@]
}

/// The keys under which an album may stand.
pub open spec fn album_keys() -> Seq<Seq<char>> {
    seq!["album"@, "albumTitle"@]
}

/// The keys under which a resource locator may stand.
pub open spec fn uri_keys() -> Seq<Seq<char>> {
    seq!["uri"@, "url"@]
}

/// The keys under which the player may stand.
pub open spec fn player_keys() -> Seq<Seq<char>> {
    seq![
        "bundleIdentifier"@,
        "bundle_identifier"@,
        "player"@,
        "sourceAppUserModelId"@,
        "application"@,
        "app"@,
    ]
}

/// The keys under which a playing flag may stand.
pub open spec fn flag_keys() -> Seq<Seq<char>> {
    seq!["playing"@, "isPlaying"@]
}

/// The keys under which a playback rate may stand.
pub open spec fn rate_keys() -> Seq<Seq<char>> {
    seq!["playbackRate"@, "rate"@]
}

/// The keys under which a status text may stand.
pub open spec fn state_keys() -> Seq<Seq<char>> {
    seq!["playbackState"@, "state"@, "status"@]
}

/// The key of the message type.
pub open spec fn type_keys() -> Seq<Seq<char>> {
    seq!["type"@]
}

/// The type that a document states of itself: the text of the first of its
/// own members whose key is `type` in some letter case. What stands deeper
/// in the document states no type of the document.
pub open spec fn own_type(doc: JsonSpec) -> Option<Seq<char>> {
    match doc {
        JsonSpec::Object(entries) => match first_keyed(entries, type_keys(), 0) {
            Some(value) => text_reading(value),
            None => None,
        },
        _ => None,
    }
}

/// The snapshot found in `value` by key search: none where it holds neither
/// title, artists, album nor locator; without a player it is that of the
/// unknown player.
pub open spec fn found_media_data(value: JsonSpec) -> Option<MediaDataView> {
    let title = found_text(value, title_keys());
    let artists = found_artists(value, artist_keys());
    let album = found_text(value, album_keys());
    let uri = found_text(value, uri_keys());
    if title is None && artists is None && album is None && uri is None {
        None
    } else {
        Some(
            MediaDataView {
                artists,
                album,
                title,
                uri,
                player: match found_text(value, player_keys()) {
                    Some(player) => player,
                    None => UNKNOWN_PLAYER@,
                },
            },
        )
    }
}

/// Whether media is playing, as far as key search in `value` tells: a flag
/// decides before a rate, a rate before a status text.
pub open spec fn found_playback_state(value: JsonSpec) -> Option<bool> {
    let flag = found_flag(value, flag_keys());
    let rate = found_rate(value, rate_keys());
    if flag is Some {
        flag
    } else if rate is Some {
        rate
    } else {
        state_signal_of(found_text(value, state_keys()))
    }
}

/// Looks for one of `keys` in `value` and reads the text found.
pub fn find_string_value(value: &Json, keys: &[&str]) -> (out: Option<String>)
    ensures
        out.deep_view() == found_text(value@, keys.deep_view()),
{
    match find_key_value(value, keys) {
        Some(found) => read_text(found),
        None => None,
    }
}

/// Looks for one of `keys` in `value` and reads the artists found.
pub fn find_artists_value(value: &Json, keys: &[&str]) -> (out: Option<Vec<String>>)
    ensures
        out.deep_view() == found_artists(value@, keys.deep_view()),
{
    match find_key_value(value, keys) {
        Some(found) => read_artists_leniently(found),
        None => None,
    }
}

/// Looks for one of `keys` in `value` and reads the boolean found.
pub fn find_bool_value(value: &Json, keys: &[&str]) -> (out: Option<bool>)
    ensures
        out == found_flag(value@, keys.deep_view()),
{
    match find_key_value(value, keys) {
        Some(Json::Bool(flag)) => Some(*flag),
        _ => None,
    }
}

/// Looks for one of `keys` in `value` and tells whether the number found is
/// above zero.
pub fn find_rate_value(value: &Json, keys: &[&str]) -> (out: Option<bool>)
    ensures
        out == found_rate(value@, keys.deep_view()),
{
    match find_key_value(value, keys) {
        Some(Json::Number(number)) => Some(read_number_above_zero(number.as_str())),
        _ => None,
    }
}

/// Reads the type that a document states of itself.
pub fn find_own_type(doc: &Json) -> (out: Option<String>)
    ensures
        out.deep_view() == own_type(doc@),
{
    let type_list = ["type"];
    let type_names: &[&str] = &type_list;
    proof {
        assert(type_names.deep_view() =~= type_keys());
    }
    match doc {
        Json::Object(entries) => {
            proof {
                lemma_object_view(*entries);
            }
            match find_direct_member(entries, type_names) {
                Some(value) => read_text(value),
                None => None,
            }
        },
        _ => None,
    }
}

/// Reads a snapshot from `value` by key search.
pub fn parse_media_data_value(value: &Json) -> (out: Option<MediaData>)
    ensures
        match out {
            Some(data) => found_media_data(value@) == Some(data@),
            None => found_media_data(value@) is None,
        },
{
    let title_list = ["title", "name"];
    let title_names: &[&str] = &title_list;
    let artist_list = ["artist", "artists", "albumArtist", "albumArtists"];
    let artist_names: &[&str] = &artist_list;
    let album_list = ["album", "albumTitle"];
    let album_names: &[&str] = &album_list;
    let uri_list = ["uri", "url"];
    let uri_names: &[&str] = &uri_list;
    let player_list = [
        "bundleIdentifier",
        "bundle_identifier",
        "player",
        "sourceAppUserModelId",
        "application",
        "app",
    ];
    let player_names: &[&str] = &player_list;
    proof {
        assert(title_names.deep_view() =~= title_keys());
        assert(artist_names.deep_view() =~= artist_keys());
        assert(album_names.deep_view() =~= album_keys());
        assert(uri_names.deep_view() =~= uri_keys());
        assert(player_names.deep_view() =~= player_keys());
    }
    let title = find_string_value(value, title_names);
    let artists = find_artists_value(value, artist_names);
    let album = find_string_value(value, album_names);
    let uri = find_string_value(value, uri_names);
    let player = match find_string_value(value, player_names) {
        Some(player) => player,
        None => UNKNOWN_PLAYER.to_owned(),
    };
    if title.is_none() && artists.is_none() && album.is_none() && uri.is_none() {
        return None;
    }
    Some(MediaData { artists, album, title, uri, player })
}

/// Reads from `value`, by key search, whether media is playing.
pub fn parse_playback_state_value(value: &Json) -> (out: Option<bool>)
    ensures
        out == found_playback_state(value@),
{
    let flag_list = ["playing", "isPlaying"];
    let flag_names: &[&str] = &flag_list;
    let rate_list = ["playbackRate", "rate"];
    let rate_names: &[&str] = &rate_list;
    let state_list = ["playbackState", "state", "status"];
    let state_names: &[&str] = &state_list;
    proof {
        assert(flag_names.deep_view() =~= flag_keys());
        assert(rate_names.deep_view() =~= rate_keys());
        assert(state_names.deep_view() =~= state_keys());
    }
    let flag = find_bool_value(value, flag_names);
    if flag.is_some() {
        return flag;
    }
    let rate = find_rate_value(value, rate_names);
    if rate.is_some() {
        return rate;
    }
    match find_string_value(value, state_names) {
        Some(text) => read_state_signal(text.as_str()),
        None => None,
    }
}

} // verus!
