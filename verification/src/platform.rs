//! The normalized description of what is playing, shared by every platform.

use serde_json::Value;
use vstd::prelude::*;
use vstd::string::*;

use crate::json::JsonSpec;
use crate::text::{
    copy_optional_string, copy_string, copy_strings, join, joined, optional_strings_equal,
    str_equal, strings_equal,
};

pub mod linux;
pub mod macos;
pub mod windows;

verus! {

/// The player name reported when the source does not identify the application.
pub const UNKNOWN_PLAYER: &'static str = "Unknown";

/// A source of media snapshots: built once, asked repeatedly.
pub trait CrossMediaPlayer: Sized {
    fn new() -> Self;

    fn mediadata(&self) -> Option<MediaData>;
}

/// What is playing right now.
#[derive(Debug)]
pub struct MediaData {
    pub artists: Option<Vec<String>>,
    pub album: Option<String>,
    pub title: Option<String>,
    pub uri: Option<String>,
    pub player: String,
}

/// The mathematical content of a [`MediaData`].
pub struct MediaDataView {
    pub artists: Option<Seq<Seq<char>>>,
    pub album: Option<Seq<char>>,
    pub title: Option<Seq<char>>,
    pub uri: Option<Seq<char>>,
    pub player: Seq<char>,
}

impl View for MediaData {
    type V = MediaDataView;

    open spec fn view(&self) -> MediaDataView {
        MediaDataView {
            artists: self.artists.deep_view(),
            album: self.album.deep_view(),
            title: self.title.deep_view(),
            uri: self.uri.deep_view(),
            player: self.player@,
        }
    }
}

/// `serde_json::Map`, carried through without a look inside.
#[verifier::external_type_specification]
#[verifier::external_body]
#[verifier::reject_recursive_types(K)]
#[verifier::reject_recursive_types(V)]
pub struct ExJsonMap<K, V>(serde_json::Map<K, V>);

/// The members that a `serde_json::Map` holds, by key.
pub uninterp spec fn map_members(map: serde_json::Map<String, Value>) -> Map<Seq<char>, JsonSpec>;

/// The payload without any member.
pub open spec fn no_members() -> Map<Seq<char>, JsonSpec> {
    Map::empty()
}

/// Calls `serde_json::Map::new`: the new map has no member.
#[verifier::external_body]
fn new_json_map() -> (out: serde_json::Map<String, Value>)
    ensures
        map_members(out) == no_members(),
{
    serde_json::Map::new()
}

/// Calls `serde_json::Map::insert` with a string value: afterwards the map
/// holds that string under `key`, in place of what it may have held there,
/// and every other member as before.
#[verifier::external_body]
fn insert_text(map: &mut serde_json::Map<String, Value>, key: &str, value: String)
    ensures
        map_members(*final(map)) == map_members(*old(map)).insert(key@, JsonSpec::Text(value@)),
{
    map.insert(key.to_string(), Value::String(value));
}

impl MediaDataView {
    /// The artists written as one text, or nothing where that text is empty.
    pub open spec fn artist_text(self) -> Option<Seq<char>> {
        match self.artists {
            Some(list) if joined(list, ", "@).len() > 0 => Some(joined(list, ", "@)),
            _ => None,
        }
    }

    /// The event payload: `player` always, each other key only with a
    /// non-empty text.
    pub open spec fn payload(self) -> Map<Seq<char>, JsonSpec> {
        let with_player = no_members().insert(
            "player"@,
            JsonSpec::Text(self.player),
        );
        let with_artist = put_text(with_player, "artist"@, self.artist_text());
        let with_album = put_text(with_artist, "album"@, self.album);
        let with_title = put_text(with_album, "title"@, self.title);
        put_text(with_title, "uri"@, self.uri)
    }
}

/// `members` with `text` under `key`, unless the text is absent or empty.
pub open spec fn put_text(
    members: Map<Seq<char>, JsonSpec>,
    key: Seq<char>,
    text: Option<Seq<char>>,
) -> Map<Seq<char>, JsonSpec> {
    match text {
        Some(t) if t.len() > 0 => members.insert(key, JsonSpec::Text(t)),
        _ => members,
    }
}

fn put_optional_text(map: &mut serde_json::Map<String, Value>, key: &str, text: &Option<String>)
    ensures
        map_members(*final(map)) == put_text(map_members(*old(map)), key@, text.deep_view()),
{
    match text {
        Some(t) => {
            if !t.as_str().is_empty() {
                insert_text(map, key, copy_string(t));
            }
        },
        None => {},
    }
}

impl MediaData {
    /// Tells whether `self` and `other` describe the same media.
    pub fn same_as(&self, other: &MediaData) -> (same: bool)
        ensures
            same == (self@ == other@),
    {
        let artists_agree = match (&self.artists, &other.artists) {
            (None, None) => true,
            (Some(a), Some(b)) => strings_equal(a, b),
            _ => false,
        };
        artists_agree && optional_strings_equal(&self.album, &other.album)
            && optional_strings_equal(&self.title, &other.title) && optional_strings_equal(
            &self.uri,
            &other.uri,
        ) && str_equal(self.player.as_str(), other.player.as_str())
    }

    /// A fresh value with the same content.
    pub fn duplicate(&self) -> (out: MediaData)
        ensures
            out@ == self@,
    {
        let artists = match &self.artists {
            Some(list) => Some(copy_strings(list)),
            None => None,
        };
        MediaData {
            artists,
            album: copy_optional_string(&self.album),
            title: copy_optional_string(&self.title),
            uri: copy_optional_string(&self.uri),
            player: copy_string(&self.player),
        }
    }

    /// The flat key-value payload of the event that reports this media.
    pub fn serialize(&self) -> (data: serde_json::Map<String, Value>)
        ensures
            map_members(data) == self@.payload(),
    {
        let mut data = new_json_map();
        insert_text(&mut data, "player", copy_string(&self.player));
        let artist: Option<String> = match &self.artists {
            Some(list) => Some(join(list, ", ")),
            None => None,
        };
        put_optional_text(&mut data, "artist", &artist);
        put_optional_text(&mut data, "album", &self.album);
        put_optional_text(&mut data, "title", &self.title);
        put_optional_text(&mut data, "uri", &self.uri);
        data
    }
}

impl Clone for MediaData {
    fn clone(&self) -> (out: MediaData)
        ensures
            out@ == self@,
    {
        self.duplicate()
    }
}

impl PartialEq for MediaData {
    fn eq(&self, other: &MediaData) -> (same: bool) {
        self.same_as(other)
    }
}

impl vstd::std_specs::cmp::PartialEqSpecImpl for MediaData {
    open spec fn obeys_eq_spec() -> bool {
        true
    }

    open spec fn eq_spec(&self, other: &MediaData) -> bool {
        self@ == other@
    }
}

impl Eq for MediaData {

}

} // verus!
