//! The known shape of a stream event, read from a JSON document.

use vstd::prelude::*;
use vstd::string::*;

use crate::json::{entries_view, find_member, items_view, member, slot_view, Json, JsonSpec};
use crate::number::{above_zero, is_above_zero};
use crate::platform::{MediaData, MediaDataView, UNKNOWN_PLAYER};
use crate::text::{
    ascii_lowered, chars_contain, chars_equal, chars_of, contains, copy_optional_string,
    copy_strings, eq_ignore_ascii_case, eq_ignoring_ascii_case, lower_ascii_chars,
    str_equal, trim, trimmed,
};

verus! {

/// The first value of `values` that is present, if any.
pub open spec fn first_present<T>(values: Seq<Option<T>>) -> Option<T>
    decreases values.len(),
{
    if values.len() == 0 {
        None
    } else if values[0] is Some {
        values[0]
    } else {
        first_present(values.drop_first())
    }
}

proof fn lemma_first_present_skip<T>(values: Seq<Option<T>>, i: int)
    requires
        0 <= i <= values.len(),
        forall|k: int| 0 <= k < i ==> values[k] is None,
    ensures
        first_present(values) == first_present(values.skip(i)),
    decreases i,
{
    if i == 0 {
        assert(values.skip(0) =~= values);
    } else {
        lemma_first_present_skip(values, i - 1);
        assert(values.skip(i - 1).drop_first() =~= values.skip(i));
    }
}

/// The first string of `values` that is present, borrowed.
pub fn first_some_str<'a>(values: &[&'a Option<String>]) -> (out: Option<&'a str>)
    ensures
        out.deep_view() == first_present(values.deep_view()),
{
    let mut i: usize = 0;
    while i < values.len()
        invariant
            i <= values.len(),
            forall|k: int| 0 <= k < i ==> values.deep_view()[k] is None,
        decreases values.len() - i,
    {
        match values[i] {
            Some(text) => {
                proof {
                    lemma_first_present_skip(values.deep_view(), i as int);
                    assert(values.deep_view().skip(i as int)[0] == Some(text@));
                }
                return Some(text.as_str());
            },
            None => {
                proof {
                    assert(values.deep_view()[i as int] is None);
                }
            },
        }
        i += 1;
    }
    proof {
        lemma_first_present_skip(values.deep_view(), i as int);
    }
    None
}

/// The first string of `values` that is present.
pub fn first_some_string(values: &[&Option<String>]) -> (out: Option<String>)
    ensures
        out.deep_view() == first_present(values.deep_view()),
{
    match first_some_str(values) {
        Some(text) => Some(text.to_owned()),
        None => None,
    }
}

/// The first list of `values` that is present.
pub fn first_some_artists(values: &[&Option<Vec<String>>]) -> (out: Option<Vec<String>>)
    ensures
        out.deep_view() == first_present(values.deep_view()),
{
    let mut i: usize = 0;
    while i < values.len()
        invariant
            i <= values.len(),
            forall|k: int| 0 <= k < i ==> values.deep_view()[k] is None,
        decreases values.len() - i,
    {
        match values[i] {
            Some(list) => {
                proof {
                    lemma_first_present_skip(values.deep_view(), i as int);
                    assert(values.deep_view().skip(i as int)[0] == Some(list.deep_view()));
                }
                return Some(copy_strings(list));
            },
            None => {
                proof {
                    assert(values.deep_view()[i as int] is None);
                }
            },
        }
        i += 1;
    }
    proof {
        lemma_first_present_skip(values.deep_view(), i as int);
    }
    None
}

/// Whether a message of this type carries playback data.
pub open spec fn is_data_type(message_type: Seq<char>) -> bool {
    eq_ignoring_ascii_case(message_type, "data"@) || eq_ignoring_ascii_case(
        message_type,
        "playback"@,
    )
}

/// Tells whether a message of this type carries playback data.
pub fn is_data_message_type(message_type: &str) -> (data: bool)
    ensures
        data == is_data_type(message_type@),
{
    eq_ignore_ascii_case(message_type, "data") || eq_ignore_ascii_case(message_type, "playback")
}

/// The text of a string value, trimmed; nothing for a blank string or a value
/// of another kind.
pub open spec fn text_reading(value: JsonSpec) -> Option<Seq<char>> {
    match value {
        JsonSpec::Text(s) if trimmed(s).len() > 0 => Some(trimmed(s)),
        _ => None,
    }
}

/// What a word says of a flag.
pub open spec fn flag_word(word: Seq<char>) -> Option<bool> {
    if eq_ignoring_ascii_case(word, "true"@) || eq_ignoring_ascii_case(word, "yes"@)
        || eq_ignoring_ascii_case(word, "on"@) || word == "1"@ {
        Some(true)
    } else if eq_ignoring_ascii_case(word, "false"@) || eq_ignoring_ascii_case(word, "no"@)
        || eq_ignoring_ascii_case(word, "off"@) || word == "0"@ {
        Some(false)
    } else {
        None
    }
}

/// Whether a number, given by its decimal text, is above zero.
pub open spec fn number_above_zero(number: Seq<char>) -> bool {
    above_zero(number) == Some(true)
}

/// A flag: a boolean itself, a string by the word it holds, a number by
/// whether it is above zero.
pub open spec fn flag_reading(value: JsonSpec) -> Option<bool> {
    match value {
        JsonSpec::Bool(b) => Some(b),
        JsonSpec::Text(s) => flag_word(trimmed(s)),
        JsonSpec::Number(n) => Some(number_above_zero(n)),
        _ => None,
    }
}

/// A playback rate, read for whether it is above zero: a number, or a string
/// that holds one.
pub open spec fn rate_reading(value: JsonSpec) -> Option<bool> {
    match value {
        JsonSpec::Number(n) => Some(number_above_zero(n)),
        JsonSpec::Text(s) => above_zero(trimmed(s)),
        _ => None,
    }
}

/// The non-blank strings among `items`, each trimmed, in order.
pub open spec fn names_among(items: Seq<JsonSpec>) -> Seq<Seq<char>>
    decreases items.len(),
{
    if items.len() == 0 {
        Seq::empty()
    } else {
        match text_reading(items.last()) {
            Some(name) => names_among(items.drop_last()).push(name),
            None => names_among(items.drop_last()),
        }
    }
}

/// A list of names, or nothing where the list is empty.
pub open spec fn some_names(names: Seq<Seq<char>>) -> Option<Seq<Seq<char>>> {
    if names.len() == 0 {
        None
    } else {
        Some(names)
    }
}

/// Artists read leniently: one string, or the strings of an array, whatever
/// else the array holds.
pub open spec fn lenient_artists_reading(value: JsonSpec) -> Option<Seq<Seq<char>>> {
    match value {
        JsonSpec::Text(s) => some_names(names_among(seq![value])),
        JsonSpec::Array(items) => some_names(names_among(items)),
        _ => None,
    }
}

/// Whether every item is a string.
pub open spec fn all_text(items: Seq<JsonSpec>) -> bool {
    forall|i: int| 0 <= i < items.len() ==> #[trigger] items[i] is Text
}

/// Artists read by the schema: one string, or an array of strings only.
pub open spec fn artists_reading(value: JsonSpec) -> Option<Seq<Seq<char>>> {
    match value {
        JsonSpec::Array(items) if !all_text(items) => None,
        _ => lenient_artists_reading(value),
    }
}

/// Reads the text of a string value.
pub fn read_text(value: &Json) -> (out: Option<String>)
    ensures
        out.deep_view() == text_reading(value@),
{
    match value {
        Json::Text(s) => {
            let text = trim(s.as_str());
            if text.as_str().is_empty() {
                None
            } else {
                Some(text)
            }
        },
        _ => None,
    }
}

fn read_flag_word(word: &str) -> (out: Option<bool>)
    ensures
        out == flag_word(word@),
{
    if eq_ignore_ascii_case(word, "true") || eq_ignore_ascii_case(word, "yes")
        || eq_ignore_ascii_case(word, "on") || str_equal(word, "1") {
        Some(true)
    } else if eq_ignore_ascii_case(word, "false") || eq_ignore_ascii_case(word, "no")
        || eq_ignore_ascii_case(word, "off") || str_equal(word, "0") {
        Some(false)
    } else {
        None
    }
}

pub fn read_number_above_zero(number: &str) -> (out: bool)
    ensures
        out == number_above_zero(number@),
{
    match is_above_zero(number) {
        Some(above) => above,
        None => false,
    }
}

/// Reads a flag.
pub fn read_flag(value: &Json) -> (out: Option<bool>)
    ensures
        out == flag_reading(value@),
{
    match value {
        Json::Bool(b) => Some(*b),
        Json::Text(s) => read_flag_word(trim(s.as_str()).as_str()),
        Json::Number(n) => Some(read_number_above_zero(n.as_str())),
        _ => None,
    }
}

/// Reads a playback rate for whether it is above zero.
pub fn read_rate(value: &Json) -> (out: Option<bool>)
    ensures
        out == rate_reading(value@),
{
    match value {
        Json::Number(n) => Some(read_number_above_zero(n.as_str())),
        Json::Text(s) => is_above_zero(trim(s.as_str()).as_str()),
        _ => None,
    }
}

fn read_names(items: &Vec<Json>) -> (out: Vec<String>)
    ensures
        out.deep_view() == names_among(items_view(items@)),
{
    let mut out: Vec<String> = Vec::new();
    let mut i: usize = 0;
    proof {
        assert(items_view(items@).take(0) =~= Seq::<JsonSpec>::empty());
        assert(out.deep_view() =~= Seq::<Seq<char>>::empty());
    }
    while i < items.len()
        invariant
            i <= items.len(),
            out.deep_view() == names_among(items_view(items@).take(i as int)),
        decreases items.len() - i,
    {
        let ghost before = out.deep_view();
        let ghost seen = items_view(items@).take(i + 1);
        proof {
            assert(seen.drop_last() =~= items_view(items@).take(i as int));
            assert(seen.last() == items@[i as int]@);
        }
        match read_text(&items[i]) {
            Some(name) => {
                let ghost name_view = name@;
                out.push(name);
                proof {
                    assert(out.deep_view() =~= before.push(name_view));
                }
            },
            None => {},
        }
        i += 1;
    }
    proof {
        assert(items_view(items@).take(i as int) =~= items_view(items@));
    }
    out
}

fn names_if_any(names: Vec<String>) -> (out: Option<Vec<String>>)
    ensures
        out.deep_view() == some_names(names.deep_view()),
{
    if names.len() == 0 {
        None
    } else {
        Some(names)
    }
}

/// Reads artists leniently.
pub fn read_artists_leniently(value: &Json) -> (out: Option<Vec<String>>)
    ensures
        out.deep_view() == lenient_artists_reading(value@),
{
    match value {
        Json::Text(s) => {
            let mut names: Vec<String> = Vec::new();
            proof {
                let one = seq![value@];
                assert(one.drop_last() =~= Seq::<JsonSpec>::empty());
                assert(names_among(one.drop_last()) =~= Seq::<Seq<char>>::empty());
                assert(names.deep_view() =~= Seq::<Seq<char>>::empty());
            }
            match read_text(value) {
                Some(name) => {
                    let ghost name_view = name@;
                    names.push(name);
                    proof {
                        assert(names.deep_view() =~= Seq::<Seq<char>>::empty().push(name_view));
                    }
                },
                None => {},
            }
            names_if_any(names)
        },
        Json::Array(items) => {
            proof {
                crate::json::lemma_array_view(*items);
            }
            names_if_any(read_names(items))
        },
        _ => None,
    }
}

fn items_all_text(items: &Vec<Json>) -> (all: bool)
    ensures
        all == all_text(items_view(items@)),
{
    let mut i: usize = 0;
    while i < items.len()
        invariant
            i <= items.len(),
            forall|k: int| 0 <= k < i ==> #[trigger] items_view(items@)[k] is Text,
        decreases items.len() - i,
    {
        match &items[i] {
            Json::Text(_) => {},
            _ => {
                proof {
                    assert(!(items_view(items@)[i as int] is Text));
                }
                return false;
            },
        }
        i += 1;
    }
    true
}

/// Reads artists by the schema.
pub fn read_artists(value: &Json) -> (out: Option<Vec<String>>)
    ensures
        out.deep_view() == artists_reading(value@),
{
    match value {
        Json::Array(items) => {
            proof {
                crate::json::lemma_array_view(*items);
            }
            if items_all_text(items) {
                read_artists_leniently(value)
            } else {
                None
            }
        },
        _ => read_artists_leniently(value),
    }
}

/// The number of fields of a payload.
pub const FIELD_COUNT: usize = 23;

/// The keys of a payload's fields, in the order of the schema.
pub open spec fn field_keys() -> Seq<Seq<char>> {
    seq![
        "playing"@,
        "isPlaying"@,
        "playbackRate"@,
        "rate"@,
        "playbackState"@,
        "state"@,
        "status"@,
        "title"@,
        "name"@,
        "artist"@,
        "artists"@,
        "albumArtist"@,
        "albumArtists"@,
        "album"@,
        "albumTitle"@,
        "uri"@,
        "url"@,
        "bundleIdentifier"@,
        "bundle_identifier"@,
        "player"@,
        "sourceAppUserModelId"@,
        "application"@,
        "app"@,
    ]
}

/// The fields of an event payload as the schema knows them. A rate is held
/// by whether it is above zero.
#[derive(Debug)]
pub struct StreamPayload {
    pub playing: Option<bool>,
    pub is_playing: Option<bool>,
    pub playback_rate: Option<bool>,
    pub rate: Option<bool>,
    pub playback_state_text: Option<String>,
    pub state: Option<String>,
    pub status: Option<String>,
    pub title: Option<String>,
    pub name: Option<String>,
    pub artist: Option<Vec<String>>,
    pub artists: Option<Vec<String>>,
    pub album_artist: Option<Vec<String>>,
    pub album_artists: Option<Vec<String>>,
    pub album: Option<String>,
    pub album_title: Option<String>,
    pub uri: Option<String>,
    pub url: Option<String>,
    pub bundle_identifier: Option<String>,
    pub bundle_identifier_snake: Option<String>,
    pub player: Option<String>,
    pub source_app_user_model_id: Option<String>,
    pub application: Option<String>,
    pub app: Option<String>,
}

/// The mathematical content of a [`StreamPayload`].
pub struct StreamPayloadView {
    pub playing: Option<bool>,
    pub is_playing: Option<bool>,
    pub playback_rate: Option<bool>,
    pub rate: Option<bool>,
    pub playback_state_text: Option<Seq<char>>,
    pub state: Option<Seq<char>>,
    pub status: Option<Seq<char>>,
    pub title: Option<Seq<char>>,
    pub name: Option<Seq<char>>,
    pub artist: Option<Seq<Seq<char>>>,
    pub artists: Option<Seq<Seq<char>>>,
    pub album_artist: Option<Seq<Seq<char>>>,
    pub album_artists: Option<Seq<Seq<char>>>,
    pub album: Option<Seq<char>>,
    pub album_title: Option<Seq<char>>,
    pub uri: Option<Seq<char>>,
    pub url: Option<Seq<char>>,
    pub bundle_identifier: Option<Seq<char>>,
    pub bundle_identifier_snake: Option<Seq<char>>,
    pub player: Option<Seq<char>>,
    pub source_app_user_model_id: Option<Seq<char>>,
    pub application: Option<Seq<char>>,
    pub app: Option<Seq<char>>,
}

impl View for StreamPayload {
    type V = StreamPayloadView;

    open spec fn view(&self) -> StreamPayloadView {
        StreamPayloadView {
            playing: self.playing,
            is_playing: self.is_playing,
            playback_rate: self.playback_rate,
            rate: self.rate,
            playback_state_text: self.playback_state_text.deep_view(),
            state: self.state.deep_view(),
            status: self.status.deep_view(),
            title: self.title.deep_view(),
            name: self.name.deep_view(),
            artist: self.artist.deep_view(),
            artists: self.artists.deep_view(),
            album_artist: self.album_artist.deep_view(),
            album_artists: self.album_artists.deep_view(),
            album: self.album.deep_view(),
            album_title: self.album_title.deep_view(),
            uri: self.uri.deep_view(),
            url: self.url.deep_view(),
            bundle_identifier: self.bundle_identifier.deep_view(),
            bundle_identifier_snake: self.bundle_identifier_snake.deep_view(),
            player: self.player.deep_view(),
            source_app_user_model_id: self.source_app_user_model_id.deep_view(),
            application: self.application.deep_view(),
            app: self.app.deep_view(),
        }
    }
}

/// A flag read from a value that may be missing.
pub open spec fn flag_of(slot: Option<JsonSpec>) -> Option<bool> {
    match slot {
        Some(value) => flag_reading(value),
        None => None,
    }
}

/// A rate read from a value that may be missing.
pub open spec fn rate_of(slot: Option<JsonSpec>) -> Option<bool> {
    match slot {
        Some(value) => rate_reading(value),
        None => None,
    }
}

/// A text read from a value that may be missing.
pub open spec fn text_of(slot: Option<JsonSpec>) -> Option<Seq<char>> {
    match slot {
        Some(value) => text_reading(value),
        None => None,
    }
}

/// Artists read from a value that may be missing.
pub open spec fn artists_of(slot: Option<JsonSpec>) -> Option<Seq<Seq<char>>> {
    match slot {
        Some(value) => artists_reading(value),
        None => None,
    }
}

/// The payload whose fields are read from `slots`, one value for each field
/// in the order of the schema, `None` for a field that is not given.
pub open spec fn payload_of_slots(slots: Seq<Option<JsonSpec>>) -> StreamPayloadView {
    StreamPayloadView {
        playing: flag_of(slots[0]),
        is_playing: flag_of(slots[1]),
        playback_rate: rate_of(slots[2]),
        rate: rate_of(slots[3]),
        playback_state_text: text_of(slots[4]),
        state: text_of(slots[5]),
        status: text_of(slots[6]),
        title: text_of(slots[7]),
        name: text_of(slots[8]),
        artist: artists_of(slots[9]),
        artists: artists_of(slots[10]),
        album_artist: artists_of(slots[11]),
        album_artists: artists_of(slots[12]),
        album: text_of(slots[13]),
        album_title: text_of(slots[14]),
        uri: text_of(slots[15]),
        url: text_of(slots[16]),
        bundle_identifier: text_of(slots[17]),
        bundle_identifier_snake: text_of(slots[18]),
        player: text_of(slots[19]),
        source_app_user_model_id: text_of(slots[20]),
        application: text_of(slots[21]),
        app: text_of(slots[22]),
    }
}

/// For each field the value that an object holds under the field's key.
pub open spec fn member_slots(entries: Seq<(Seq<char>, JsonSpec)>) -> Seq<Option<JsonSpec>> {
    Seq::new(FIELD_COUNT as nat, |i: int| member(entries, field_keys()[i]))
}

/// For each field the item at the field's position, as far as there is one.
pub open spec fn item_slots(items: Seq<JsonSpec>) -> Seq<Option<JsonSpec>> {
    Seq::new(
        FIELD_COUNT as nat,
        |i: int|
            if 0 <= i < items.len() {
                Some(items[i])
            } else {
                None
            },
    )
}

/// The payload that an object holds: each field read from the member under
/// the field's key.
pub open spec fn payload_of_members(entries: Seq<(Seq<char>, JsonSpec)>) -> StreamPayloadView {
    payload_of_slots(member_slots(entries))
}

/// The payload that an array holds: each field read from the item at the
/// field's position. An array with more items than fields holds none.
pub open spec fn payload_of_items(items: Seq<JsonSpec>) -> Option<StreamPayloadView> {
    if items.len() > FIELD_COUNT {
        None
    } else {
        Some(payload_of_slots(item_slots(items)))
    }
}

/// `first` where it is present, else `second`.
pub open spec fn or_else<T>(first: Option<T>, second: Option<T>) -> Option<T> {
    if first is Some {
        first
    } else {
        second
    }
}

/// What a status text says of playback: paused, stopped and interrupted
/// mean not playing, as does the word `none`; otherwise any mention of
/// playing means playing.
pub open spec fn state_signal(text: Seq<char>) -> Option<bool> {
    let word = ascii_lowered(text);
    if contains(word, "pause"@) || contains(word, "stop"@) || contains(word, "interrupt"@) || word
        == "none"@ {
        Some(false)
    } else if contains(word, "play"@) {
        Some(true)
    } else {
        None
    }
}

/// The signal of an optional status text.
pub open spec fn state_signal_of(text: Option<Seq<char>>) -> Option<bool> {
    match text {
        Some(t) => state_signal(t),
        None => None,
    }
}

impl StreamPayloadView {
    /// Each field of `self` where it is present, else that of `fallback`.
    pub open spec fn with_fallback(self, fallback: StreamPayloadView) -> StreamPayloadView {
        StreamPayloadView {
            playing: or_else(self.playing, fallback.playing),
            is_playing: or_else(self.is_playing, fallback.is_playing),
            playback_rate: or_else(self.playback_rate, fallback.playback_rate),
            rate: or_else(self.rate, fallback.rate),
            playback_state_text: or_else(self.playback_state_text, fallback.playback_state_text),
            state: or_else(self.state, fallback.state),
            status: or_else(self.status, fallback.status),
            title: or_else(self.title, fallback.title),
            name: or_else(self.name, fallback.name),
            artist: or_else(self.artist, fallback.artist),
            artists: or_else(self.artists, fallback.artists),
            album_artist: or_else(self.album_artist, fallback.album_artist),
            album_artists: or_else(self.album_artists, fallback.album_artists),
            album: or_else(self.album, fallback.album),
            album_title: or_else(self.album_title, fallback.album_title),
            uri: or_else(self.uri, fallback.uri),
            url: or_else(self.url, fallback.url),
            bundle_identifier: or_else(self.bundle_identifier, fallback.bundle_identifier),
            bundle_identifier_snake: or_else(self.bundle_identifier_snake, fallback.bundle_identifier_snake),
            player: or_else(self.player, fallback.player),
            source_app_user_model_id: or_else(self.source_app_user_model_id, fallback.source_app_user_model_id),
            application: or_else(self.application, fallback.application),
            app: or_else(self.app, fallback.app),
        }
    }

    /// Whether media is playing, as far as the payload says: a flag decides
    /// before a rate, a rate before a status text.
    pub open spec fn playback_state(self) -> Option<bool> {
        let flag = or_else(self.playing, self.is_playing);
        let rate = or_else(self.playback_rate, self.rate);
        if flag is Some {
            flag
        } else if rate is Some {
            rate
        } else {
            state_signal_of(first_present(seq![self.playback_state_text, self.state, self.status]))
        }
    }

    /// The title, by the first of its keys that is present.
    pub open spec fn title_text(self) -> Option<Seq<char>> {
        first_present(seq![self.title, self.name])
    }

    /// The artists, by the first of their keys that is present.
    pub open spec fn artist_names(self) -> Option<Seq<Seq<char>>> {
        first_present(seq![self.artist, self.artists, self.album_artist, self.album_artists])
    }

    /// The album, by the first of its keys that is present.
    pub open spec fn album_text(self) -> Option<Seq<char>> {
        first_present(seq![self.album, self.album_title])
    }

    /// The resource locator, by the first of its keys that is present.
    pub open spec fn uri_text(self) -> Option<Seq<char>> {
        first_present(seq![self.uri, self.url])
    }

    /// The player, by the first of its keys that is present.
    pub open spec fn player_text(self) -> Option<Seq<char>> {
        first_present(
            seq![
                self.bundle_identifier,
                self.bundle_identifier_snake,
                self.player,
                self.source_app_user_model_id,
                self.application,
                self.app,
            ],
        )
    }

    /// The snapshot that the payload describes: none where it has neither
    /// title, artists, album nor locator; a payload that names no player is
    /// that of the unknown player.
    pub open spec fn media_data(self) -> Option<MediaDataView> {
        if self.title_text() is None && self.artist_names() is None && self.album_text() is None
            && self.uri_text() is None {
            None
        } else {
            Some(
                MediaDataView {
                    artists: self.artist_names(),
                    album: self.album_text(),
                    title: self.title_text(),
                    uri: self.uri_text(),
                    player: match self.player_text() {
                        Some(player) => player,
                        None => UNKNOWN_PLAYER@,
                    },
                },
            )
        }
    }
}

/// The views of a list of optional references, in order.
pub open spec fn slots_view(slots: Seq<Option<&Json>>) -> Seq<Option<JsonSpec>> {
    Seq::new(slots.len(), |i: int| slot_view(slots[i]))
}

fn read_flag_slot(slot: &Option<&Json>) -> (out: Option<bool>)
    ensures
        out == flag_of(slot_view(*slot)),
{
    match slot {
        Some(value) => read_flag(value),
        None => None,
    }
}

fn read_rate_slot(slot: &Option<&Json>) -> (out: Option<bool>)
    ensures
        out == rate_of(slot_view(*slot)),
{
    match slot {
        Some(value) => read_rate(value),
        None => None,
    }
}

fn read_text_slot(slot: &Option<&Json>) -> (out: Option<String>)
    ensures
        out.deep_view() == text_of(slot_view(*slot)),
{
    match slot {
        Some(value) => read_text(value),
        None => None,
    }
}

fn read_artists_slot(slot: &Option<&Json>) -> (out: Option<Vec<String>>)
    ensures
        out.deep_view() == artists_of(slot_view(*slot)),
{
    match slot {
        Some(value) => read_artists(value),
        None => None,
    }
}

fn field_key_list() -> (keys: Vec<&'static str>)
    ensures
        keys.len() == FIELD_COUNT,
        keys.deep_view() == field_keys(),
{
    let keys = vec![
        "playing",
        "isPlaying",
        "playbackRate",
        "rate",
        "playbackState",
        "state",
        "status",
        "title",
        "name",
        "artist",
        "artists",
        "albumArtist",
        "albumArtists",
        "album",
        "albumTitle",
        "uri",
        "url",
        "bundleIdentifier",
        "bundle_identifier",
        "player",
        "sourceAppUserModelId",
        "application",
        "app",
    ];
    proof {
        assert(keys.deep_view() =~= field_keys());
    }
    keys
}

fn or_flag(first: Option<bool>, second: Option<bool>) -> (out: Option<bool>)
    ensures
        out == or_else(first, second),
{
    match first {
        Some(_) => first,
        None => second,
    }
}

fn or_text(first: &Option<String>, second: &Option<String>) -> (out: Option<String>)
    ensures
        out.deep_view() == or_else(first.deep_view(), second.deep_view()),
{
    match first {
        Some(_) => copy_optional_string(first),
        None => copy_optional_string(second),
    }
}

fn copy_optional_strings(list: &Option<Vec<String>>) -> (out: Option<Vec<String>>)
    ensures
        out.deep_view() == list.deep_view(),
{
    match list {
        Some(names) => Some(copy_strings(names)),
        None => None,
    }
}

fn or_names(first: &Option<Vec<String>>, second: &Option<Vec<String>>) -> (out: Option<
    Vec<String>,
>)
    ensures
        out.deep_view() == or_else(first.deep_view(), second.deep_view()),
{
    match first {
        Some(_) => copy_optional_strings(first),
        None => copy_optional_strings(second),
    }
}

pub fn read_state_signal(text: &str) -> (out: Option<bool>)
    ensures
        out == state_signal(text@),
{
    let word = lower_ascii_chars(&chars_of(text));
    if chars_contain(&word, &chars_of("pause")) || chars_contain(&word, &chars_of("stop"))
        || chars_contain(&word, &chars_of("interrupt")) || chars_equal(&word, &chars_of("none")) {
        Some(false)
    } else if chars_contain(&word, &chars_of("play")) {
        Some(true)
    } else {
        None
    }
}

impl StreamPayload {
    /// Reads the fields from `slots`, one value for each field in the order
    /// of the schema.
    fn from_slots(slots: &Vec<Option<&Json>>) -> (out: StreamPayload)
        requires
            slots.len() == FIELD_COUNT,
        ensures
            out@ == payload_of_slots(slots_view(slots@)),
    {
        StreamPayload {
            playing: read_flag_slot(&slots[0]),
            is_playing: read_flag_slot(&slots[1]),
            playback_rate: read_rate_slot(&slots[2]),
            rate: read_rate_slot(&slots[3]),
            playback_state_text: read_text_slot(&slots[4]),
            state: read_text_slot(&slots[5]),
            status: read_text_slot(&slots[6]),
            title: read_text_slot(&slots[7]),
            name: read_text_slot(&slots[8]),
            artist: read_artists_slot(&slots[9]),
            artists: read_artists_slot(&slots[10]),
            album_artist: read_artists_slot(&slots[11]),
            album_artists: read_artists_slot(&slots[12]),
            album: read_text_slot(&slots[13]),
            album_title: read_text_slot(&slots[14]),
            uri: read_text_slot(&slots[15]),
            url: read_text_slot(&slots[16]),
            bundle_identifier: read_text_slot(&slots[17]),
            bundle_identifier_snake: read_text_slot(&slots[18]),
            player: read_text_slot(&slots[19]),
            source_app_user_model_id: read_text_slot(&slots[20]),
            application: read_text_slot(&slots[21]),
            app: read_text_slot(&slots[22]),
        }
    }

    /// Reads the payload that an object holds.
    pub fn from_members(entries: &Vec<(String, Json)>) -> (out: StreamPayload)
        ensures
            out@ == payload_of_members(entries_view(entries@)),
    {
        let keys = field_key_list();
        let mut slots: Vec<Option<&Json>> = Vec::new();
        let mut i: usize = 0;
        while i < FIELD_COUNT
            invariant
                i <= FIELD_COUNT,
                slots.len() == i,
                keys.len() == FIELD_COUNT,
                keys.deep_view() == field_keys(),
                forall|k: int|
                    0 <= k < i ==> slot_view(#[trigger] slots@[k]) == member(
                        entries_view(entries@),
                        field_keys()[k],
                    ),
            decreases FIELD_COUNT - i,
        {
            proof {
                assert(keys.deep_view()[i as int] == keys@[i as int]@);
            }
            slots.push(find_member(entries, keys[i]));
            i += 1;
        }
        proof {
            assert(slots_view(slots@) =~= member_slots(entries_view(entries@)));
        }
        StreamPayload::from_slots(&slots)
    }

    /// Reads the payload that an array holds, if it holds one.
    pub fn from_items(items: &Vec<Json>) -> (out: Option<StreamPayload>)
        ensures
            match out {
                Some(payload) => payload_of_items(items_view(items@)) == Some(payload@),
                None => payload_of_items(items_view(items@)) is None,
            },
    {
        if items.len() > FIELD_COUNT {
            return None;
        }
        let mut slots: Vec<Option<&Json>> = Vec::new();
        let mut i: usize = 0;
        while i < FIELD_COUNT
            invariant
                i <= FIELD_COUNT,
                slots.len() == i,
                forall|k: int|
                    0 <= k < i ==> slot_view(#[trigger] slots@[k]) == item_slots(
                        items_view(items@),
                    )[k],
            decreases FIELD_COUNT - i,
        {
            if i < items.len() {
                slots.push(Some(&items[i]));
            } else {
                slots.push(None);
            }
            i += 1;
        }
        proof {
            assert(slots_view(slots@) =~= item_slots(items_view(items@)));
        }
        Some(StreamPayload::from_slots(&slots))
    }

    /// A payload with each field of `self` where it is present, else that of
    /// `fallback`.
    pub fn with_fallback(&self, fallback: &StreamPayload) -> (out: StreamPayload)
        ensures
            out@ == self@.with_fallback(fallback@),
    {
        StreamPayload {
            playing: or_flag(self.playing, fallback.playing),
            is_playing: or_flag(self.is_playing, fallback.is_playing),
            playback_rate: or_flag(self.playback_rate, fallback.playback_rate),
            rate: or_flag(self.rate, fallback.rate),
            playback_state_text: or_text(&self.playback_state_text, &fallback.playback_state_text),
            state: or_text(&self.state, &fallback.state),
            status: or_text(&self.status, &fallback.status),
            title: or_text(&self.title, &fallback.title),
            name: or_text(&self.name, &fallback.name),
            artist: or_names(&self.artist, &fallback.artist),
            artists: or_names(&self.artists, &fallback.artists),
            album_artist: or_names(&self.album_artist, &fallback.album_artist),
            album_artists: or_names(&self.album_artists, &fallback.album_artists),
            album: or_text(&self.album, &fallback.album),
            album_title: or_text(&self.album_title, &fallback.album_title),
            uri: or_text(&self.uri, &fallback.uri),
            url: or_text(&self.url, &fallback.url),
            bundle_identifier: or_text(&self.bundle_identifier, &fallback.bundle_identifier),
            bundle_identifier_snake: or_text(&self.bundle_identifier_snake, &fallback.bundle_identifier_snake),
            player: or_text(&self.player, &fallback.player),
            source_app_user_model_id: or_text(&self.source_app_user_model_id, &fallback.source_app_user_model_id),
            application: or_text(&self.application, &fallback.application),
            app: or_text(&self.app, &fallback.app),
        }
    }

    /// A fresh payload with the same content.
    pub fn duplicate(&self) -> (out: StreamPayload)
        ensures
            out@ == self@,
    {
        StreamPayload {
            playing: self.playing,
            is_playing: self.is_playing,
            playback_rate: self.playback_rate,
            rate: self.rate,
            playback_state_text: copy_optional_string(&self.playback_state_text),
            state: copy_optional_string(&self.state),
            status: copy_optional_string(&self.status),
            title: copy_optional_string(&self.title),
            name: copy_optional_string(&self.name),
            artist: copy_optional_strings(&self.artist),
            artists: copy_optional_strings(&self.artists),
            album_artist: copy_optional_strings(&self.album_artist),
            album_artists: copy_optional_strings(&self.album_artists),
            album: copy_optional_string(&self.album),
            album_title: copy_optional_string(&self.album_title),
            uri: copy_optional_string(&self.uri),
            url: copy_optional_string(&self.url),
            bundle_identifier: copy_optional_string(&self.bundle_identifier),
            bundle_identifier_snake: copy_optional_string(&self.bundle_identifier_snake),
            player: copy_optional_string(&self.player),
            source_app_user_model_id: copy_optional_string(&self.source_app_user_model_id),
            application: copy_optional_string(&self.application),
            app: copy_optional_string(&self.app),
        }
    }

    /// Tells whether media is playing, as far as the payload says.
    pub fn playback_state(&self) -> (out: Option<bool>)
        ensures
            out == self@.playback_state(),
    {
        let flag = or_flag(self.playing, self.is_playing);
        if flag.is_some() {
            return flag;
        }
        let rate = or_flag(self.playback_rate, self.rate);
        if rate.is_some() {
            return rate;
        }
        let list = [&self.playback_state_text, &self.state, &self.status];
        let values: &[&Option<String>] = &list;
        proof {
            assert(values.deep_view() =~= seq![
                self@.playback_state_text,
                self@.state,
                self@.status,
            ]);
        }
        match first_some_str(values) {
            Some(text) => read_state_signal(text),
            None => None,
        }
    }

    /// The snapshot that the payload describes, if it describes one.
    pub fn media_data(&self) -> (out: Option<MediaData>)
        ensures
            match out {
                Some(data) => self@.media_data() == Some(data@),
                None => self@.media_data() is None,
            },
    {
        let title_keys = [&self.title, &self.name];
        let title_values: &[&Option<String>] = &title_keys;
        let artist_keys = [&self.artist, &self.artists, &self.album_artist, &self.album_artists];
        let artist_values: &[&Option<Vec<String>>] = &artist_keys;
        let album_keys = [&self.album, &self.album_title];
        let album_values: &[&Option<String>] = &album_keys;
        let uri_keys = [&self.uri, &self.url];
        let uri_values: &[&Option<String>] = &uri_keys;
        let player_keys = [
            &self.bundle_identifier,
            &self.bundle_identifier_snake,
            &self.player,
            &self.source_app_user_model_id,
            &self.application,
            &self.app,
        ];
        let player_values: &[&Option<String>] = &player_keys;
        proof {
            assert(title_values.deep_view() =~= seq![self@.title, self@.name]);
            assert(artist_values.deep_view() =~= seq![
                self@.artist,
                self@.artists,
                self@.album_artist,
                self@.album_artists,
            ]);
            assert(album_values.deep_view() =~= seq![self@.album, self@.album_title]);
            assert(uri_values.deep_view() =~= seq![self@.uri, self@.url]);
            assert(player_values.deep_view() =~= seq![
                self@.bundle_identifier,
                self@.bundle_identifier_snake,
                self@.player,
                self@.source_app_user_model_id,
                self@.application,
                self@.app,
            ]);
        }
        let title = first_some_string(title_values);
        let artists = first_some_artists(artist_values);
        let album = first_some_string(album_values);
        let uri = first_some_string(uri_values);
        let player = match first_some_string(player_values) {
            Some(player) => player,
            None => UNKNOWN_PLAYER.to_owned(),
        };
        if title.is_none() && artists.is_none() && album.is_none() && uri.is_none() {
            return None;
        }
        Some(MediaData { artists, album, title, uri, player })
    }
}

/// A stream event as the schema knows it: its type, the payload nested
/// under `payload`, and the payload spread over the event itself.
#[derive(Debug)]
pub struct StreamLine {
    pub message_type: Option<String>,
    pub payload: Option<StreamPayload>,
    pub root: StreamPayload,
}

/// The mathematical content of a [`StreamLine`].
pub struct StreamLineView {
    pub message_type: Option<Seq<char>>,
    pub payload: Option<StreamPayloadView>,
    pub root: StreamPayloadView,
}

impl View for StreamLine {
    type V = StreamLineView;

    open spec fn view(&self) -> StreamLineView {
        StreamLineView {
            message_type: self.message_type.deep_view(),
            payload: match self.payload {
                Some(payload) => Some(payload@),
                None => None,
            },
            root: self.root@,
        }
    }
}

/// The event that a document holds by the schema. Only an object is an
/// event. Its `payload` member may be missing or null, or hold the payload
/// as an object or as an array; with any other `payload` the document is no
/// event.
pub open spec fn line_of(doc: JsonSpec) -> Option<StreamLineView> {
    match doc {
        JsonSpec::Object(entries) => {
            let message_type = text_of(member(entries, "type"@));
            let root = payload_of_members(entries);
            match member(entries, "payload"@) {
                None => Some(StreamLineView { message_type, payload: None, root }),
                Some(JsonSpec::Null) => Some(StreamLineView { message_type, payload: None, root }),
                Some(JsonSpec::Object(inner)) => Some(
                    StreamLineView {
                        message_type,
                        payload: Some(payload_of_members(inner)),
                        root,
                    },
                ),
                Some(JsonSpec::Array(items)) => match payload_of_items(items) {
                    Some(payload) => Some(
                        StreamLineView { message_type, payload: Some(payload), root },
                    ),
                    None => None,
                },
                Some(_) => None,
            }
        },
        _ => None,
    }
}

impl StreamLineView {
    /// Whether the event carries playback data: one without a type does.
    pub open spec fn is_data_message(self) -> bool {
        match self.message_type {
            Some(message_type) => is_data_type(message_type),
            None => true,
        }
    }

    /// The payload in force: the nested one, completed field by field from
    /// the event itself; the event itself where nothing is nested.
    pub open spec fn effective_payload(self) -> StreamPayloadView {
        match self.payload {
            Some(payload) => payload.with_fallback(self.root),
            None => self.root,
        }
    }
}

impl StreamLine {
    /// Reads the event that a document holds by the schema.
    pub fn decode(doc: &Json) -> (out: Option<StreamLine>)
        ensures
            match out {
                Some(line) => line_of(doc@) == Some(line@),
                None => line_of(doc@) is None,
            },
    {
        match doc {
            Json::Object(entries) => {
                proof {
                    crate::json::lemma_object_view(*entries);
                }
                let type_slot = find_member(entries, "type");
                let message_type = read_text_slot(&type_slot);
                let root = StreamPayload::from_members(entries);
                match find_member(entries, "payload") {
                    None => Some(StreamLine { message_type, payload: None, root }),
                    Some(Json::Null) => Some(StreamLine { message_type, payload: None, root }),
                    Some(Json::Object(inner)) => {
                        proof {
                            crate::json::lemma_object_view(*inner);
                        }
                        Some(
                            StreamLine {
                                message_type,
                                payload: Some(StreamPayload::from_members(inner)),
                                root,
                            },
                        )
                    },
                    Some(Json::Array(items)) => {
                        proof {
                            crate::json::lemma_array_view(*items);
                        }
                        match StreamPayload::from_items(items) {
                            Some(payload) => Some(
                                StreamLine { message_type, payload: Some(payload), root },
                            ),
                            None => None,
                        }
                    },
                    Some(_) => None,
                }
            },
            _ => None,
        }
    }

    /// Tells whether the event carries playback data.
    pub fn is_data_message(&self) -> (data: bool)
        ensures
            data == self@.is_data_message(),
    {
        match &self.message_type {
            Some(message_type) => is_data_message_type(message_type.as_str()),
            None => true,
        }
    }

    /// The payload in force.
    pub fn effective_payload(&self) -> (out: StreamPayload)
        ensures
            out@ == self@.effective_payload(),
    {
        match &self.payload {
            Some(payload) => payload.with_fallback(&self.root),
            None => self.root.duplicate(),
        }
    }
}

} // verus!
