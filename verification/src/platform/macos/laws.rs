//! What holds of every document that the normalizer reads.

use vstd::prelude::*;

use crate::json::{member, JsonSpec};
use crate::platform::macos::schema::{
    all_text, artists_of, field_keys, first_present, flag_of, is_data_type,
    lenient_artists_reading, line_of, rate_of,
    member_slots, names_among,
    or_else, payload_of_members, text_of,
    StreamPayloadView, FIELD_COUNT,
};
use crate::platform::macos::search::{
    album_keys, artist_keys, find_in_items, find_in_members, find_key, first_keyed, flag_keys,
    found_artists, found_flag, found_media_data, found_playback_state, found_rate,
    key_is_among, own_type, player_keys, rate_keys, state_keys, title_keys, type_keys, uri_keys,
};
use crate::platform::macos::{fallback_update, nested_payload, update_of, ParsedLineView};
use crate::text::{ascii_lowered, eq_ignoring_ascii_case};

verus! {

/// A flag decides before a rate: where a payload holds a playing flag, its
/// playback state is that flag, whatever its rates and status texts say.
pub proof fn lemma_flag_decides_before_rate(payload: StreamPayloadView)
    requires
        or_else(payload.playing, payload.is_playing) is Some,
    ensures
        payload.playback_state() == or_else(payload.playing, payload.is_playing),
{
}

/// Whether a document is an event whose own type lets it through: it
/// states none, or one of playback data.
pub open spec fn type_lets_through(doc: JsonSpec) -> bool {
    match line_of(doc) {
        Some(line) => match or_else(line.message_type, own_type(doc)) {
            Some(message_type) => is_data_type(message_type),
            None => true,
        },
        None => false,
    }
}

/// An event whose payload in force holds a false playing flag says "not
/// playing", whatever rate it holds and whatever else it describes.
pub proof fn lemma_false_flag_means_not_playing(doc: JsonSpec)
    requires
        type_lets_through(doc),
        or_else(
            line_of(doc).unwrap().effective_payload().playing,
            line_of(doc).unwrap().effective_payload().is_playing,
        ) == Some(false),
    ensures
        update_of(doc) == Some(ParsedLineView::NotPlaying),
{
}

/// An event whose payload in force holds a true playing flag and describes
/// a snapshot says that this media, or the one that key search finds with
/// its player, is playing, whatever rate it holds.
pub proof fn lemma_true_flag_with_snapshot_means_playing(doc: JsonSpec)
    requires
        type_lets_through(doc),
        or_else(
            line_of(doc).unwrap().effective_payload().playing,
            line_of(doc).unwrap().effective_payload().is_playing,
        ) == Some(true),
        line_of(doc).unwrap().effective_payload().media_data() is Some,
    ensures
        update_of(doc) matches Some(ParsedLineView::Playing(_)),
{
}

/// A document whose `type` member is a text that does not name playback
/// data gives no update, whatever else it holds.
pub proof fn lemma_other_type_gives_no_update(doc: JsonSpec)
    requires
        doc matches JsonSpec::Object(entries) && text_of(member(entries, "type"@)) matches Some(t)
            && !is_data_type(t),
    ensures
        update_of(doc) is None,
{
}

/// A document without a `type` member in that very letter case, whose own
/// type in another letter case does not name playback data, gives no update
/// either.
pub proof fn lemma_other_type_in_any_case_gives_no_update(doc: JsonSpec)
    requires
        doc matches JsonSpec::Object(entries) && text_of(member(entries, "type"@)) is None,
        own_type(doc) matches Some(t) && !is_data_type(t),
    ensures
        update_of(doc) is None,
{
}

/// An event that says that media is playing and holds no snapshot, neither
/// by the schema nor by key search, gives "no change", provided key search
/// does not read "not playing" from it.
pub proof fn lemma_playing_without_snapshot_is_no_change(doc: JsonSpec)
    requires
        update_of(doc) is Some,
        line_of(doc) matches Some(line) && line.effective_payload().playback_state() == Some(true)
            && line.effective_payload().media_data() is None,
        found_media_data(nested_payload(doc)) is None,
        found_media_data(doc) is None,
        or_else(found_playback_state(nested_payload(doc)), found_playback_state(doc)) != Some(
            false,
        ),
    ensures
        update_of(doc) == Some(ParsedLineView::NoChange),
{
}

/// Whether some member of `entries` has `key` for its key, letter case
/// aside.
pub open spec fn has_key_like(entries: Seq<(Seq<char>, JsonSpec)>, key: Seq<char>) -> bool {
    exists|i: int| 0 <= i < entries.len() && eq_ignoring_ascii_case(#[trigger] entries[i].0, key)
}

/// The event that holds `fields` under `payload` and nothing else.
pub open spec fn nested_event(fields: Seq<(Seq<char>, JsonSpec)>) -> JsonSpec {
    JsonSpec::Object(seq![("payload"@, JsonSpec::Object(fields))])
}

/// The event that holds `fields` itself.
pub open spec fn flat_event(fields: Seq<(Seq<char>, JsonSpec)>) -> JsonSpec {
    JsonSpec::Object(fields)
}

proof fn lemma_unlike_key_is_no_member(entries: Seq<(Seq<char>, JsonSpec)>, key: Seq<char>)
    requires
        !has_key_like(entries, key),
    ensures
        member(entries, key) is None,
    decreases entries.len(),
{
    if entries.len() > 0 {
        assert(entries[0].0 != key) by {
            if entries[0].0 == key {
                assert(eq_ignoring_ascii_case(entries[0].0, key));
            }
        }
        let rest = entries.drop_first();
        assert(!has_key_like(rest, key)) by {
            if has_key_like(rest, key) {
                let i = choose|i: int|
                    0 <= i < rest.len() && eq_ignoring_ascii_case(#[trigger] rest[i].0, key);
                assert(eq_ignoring_ascii_case(entries[i + 1].0, key));
            }
        }
        lemma_unlike_key_is_no_member(rest, key);
    }
}

proof fn lemma_payload_is_unlike_every_key()
    ensures
        forall|i: int| 0 <= i < field_keys().len() ==> #[trigger] field_keys()[i] != "payload"@,
        "type"@ != "payload"@,
        !key_is_among("payload"@, type_keys()),
        !key_is_among("payload"@, flag_keys()),
        !key_is_among("payload"@, rate_keys()),
        !key_is_among("payload"@, state_keys()),
        !key_is_among("payload"@, title_keys()),
        !key_is_among("payload"@, artist_keys()),
        !key_is_among("payload"@, album_keys()),
        !key_is_among("payload"@, uri_keys()),
        !key_is_among("payload"@, player_keys()),
{
    reveal_strlit("playing");
    reveal_strlit("isPlaying");
    reveal_strlit("playbackRate");
    reveal_strlit("rate");
    reveal_strlit("playbackState");
    reveal_strlit("state");
    reveal_strlit("status");
    reveal_strlit("title");
    reveal_strlit("name");
    reveal_strlit("artist");
    reveal_strlit("artists");
    reveal_strlit("albumArtist");
    reveal_strlit("albumArtists");
    reveal_strlit("album");
    reveal_strlit("albumTitle");
    reveal_strlit("uri");
    reveal_strlit("url");
    reveal_strlit("bundleIdentifier");
    reveal_strlit("bundle_identifier");
    reveal_strlit("player");
    reveal_strlit("sourceAppUserModelId");
    reveal_strlit("application");
    reveal_strlit("app");
    reveal_strlit("type");
    reveal_strlit("payload");
    assert(!eq_ignoring_ascii_case("payload"@, "playing"@)) by {
        assert(ascii_lowered("payload"@)[1] != ascii_lowered("playing"@)[1]);
    }
    assert(!eq_ignoring_ascii_case("payload"@, "isPlaying"@)) by {
        assert(ascii_lowered("payload"@).len() != ascii_lowered("isPlaying"@).len());
    }
    assert(!eq_ignoring_ascii_case("payload"@, "playbackRate"@)) by {
        assert(ascii_lowered("payload"@).len() != ascii_lowered("playbackRate"@).len());
    }
    assert(!eq_ignoring_ascii_case("payload"@, "rate"@)) by {
        assert(ascii_lowered("payload"@).len() != ascii_lowered("rate"@).len());
    }
    assert(!eq_ignoring_ascii_case("payload"@, "playbackState"@)) by {
        assert(ascii_lowered("payload"@).len() != ascii_lowered("playbackState"@).len());
    }
    assert(!eq_ignoring_ascii_case("payload"@, "state"@)) by {
        assert(ascii_lowered("payload"@).len() != ascii_lowered("state"@).len());
    }
    assert(!eq_ignoring_ascii_case("payload"@, "status"@)) by {
        assert(ascii_lowered("payload"@).len() != ascii_lowered("status"@).len());
    }
    assert(!eq_ignoring_ascii_case("payload"@, "title"@)) by {
        assert(ascii_lowered("payload"@).len() != ascii_lowered("title"@).len());
    }
    assert(!eq_ignoring_ascii_case("payload"@, "name"@)) by {
        assert(ascii_lowered("payload"@).len() != ascii_lowered("name"@).len());
    }
    assert(!eq_ignoring_ascii_case("payload"@, "artist"@)) by {
        assert(ascii_lowered("payload"@).len() != ascii_lowered("artist"@).len());
    }
    assert(!eq_ignoring_ascii_case("payload"@, "artists"@)) by {
        assert(ascii_lowered("payload"@)[0] != ascii_lowered("artists"@)[0]);
    }
    assert(!eq_ignoring_ascii_case("payload"@, "albumArtist"@)) by {
        assert(ascii_lowered("payload"@).len() != ascii_lowered("albumArtist"@).len());
    }
    assert(!eq_ignoring_ascii_case("payload"@, "albumArtists"@)) by {
        assert(ascii_lowered("payload"@).len() != ascii_lowered("albumArtists"@).len());
    }
    assert(!eq_ignoring_ascii_case("payload"@, "album"@)) by {
        assert(ascii_lowered("payload"@).len() != ascii_lowered("album"@).len());
    }
    assert(!eq_ignoring_ascii_case("payload"@, "albumTitle"@)) by {
        assert(ascii_lowered("payload"@).len() != ascii_lowered("albumTitle"@).len());
    }
    assert(!eq_ignoring_ascii_case("payload"@, "uri"@)) by {
        assert(ascii_lowered("payload"@).len() != ascii_lowered("uri"@).len());
    }
    assert(!eq_ignoring_ascii_case("payload"@, "url"@)) by {
        assert(ascii_lowered("payload"@).len() != ascii_lowered("url"@).len());
    }
    assert(!eq_ignoring_ascii_case("payload"@, "bundleIdentifier"@)) by {
        assert(ascii_lowered("payload"@).len() != ascii_lowered("bundleIdentifier"@).len());
    }
    assert(!eq_ignoring_ascii_case("payload"@, "bundle_identifier"@)) by {
        assert(ascii_lowered("payload"@).len() != ascii_lowered("bundle_identifier"@).len());
    }
    assert(!eq_ignoring_ascii_case("payload"@, "player"@)) by {
        assert(ascii_lowered("payload"@).len() != ascii_lowered("player"@).len());
    }
    assert(!eq_ignoring_ascii_case("payload"@, "sourceAppUserModelId"@)) by {
        assert(ascii_lowered("payload"@).len() != ascii_lowered("sourceAppUserModelId"@).len());
    }
    assert(!eq_ignoring_ascii_case("payload"@, "application"@)) by {
        assert(ascii_lowered("payload"@).len() != ascii_lowered("application"@).len());
    }
    assert(!eq_ignoring_ascii_case("payload"@, "app"@)) by {
        assert(ascii_lowered("payload"@).len() != ascii_lowered("app"@).len());
    }
    assert(!eq_ignoring_ascii_case("payload"@, "type"@)) by {
        assert(ascii_lowered("payload"@).len() != ascii_lowered("type"@).len());
    }
}

proof fn lemma_search_looks_through_payload(fields: Seq<(Seq<char>, JsonSpec)>, keys: Seq<Seq<char>>)
    requires
        !key_is_among("payload"@, keys),
    ensures
        find_key(nested_event(fields), keys) == find_key(flat_event(fields), keys),
{
    let entries = seq![("payload"@, JsonSpec::Object(fields))];
    reveal_with_fuel(first_keyed, 2);
    reveal_with_fuel(find_in_members, 2);
    assert(first_keyed(entries, keys, 0) is None);
    assert(find_in_members(entries, keys, 1) is None);
}

proof fn lemma_unlike_type_is_no_own_type(fields: Seq<(Seq<char>, JsonSpec)>)
    requires
        !has_key_like(fields, "type"@),
    ensures
        own_type(JsonSpec::Object(fields)) is None,
{
    assert forall|i: int| 0 <= i < fields.len() implies !key_is_among(
        (#[trigger] fields[i]).0,
        type_keys(),
    ) by {
        if key_is_among(fields[i].0, type_keys()) {
            let k = choose|k: int|
                0 <= k < type_keys().len() && eq_ignoring_ascii_case(
                    fields[i].0,
                    #[trigger] type_keys()[k],
                );
            assert(type_keys()[k] == "type"@);
            assert(eq_ignoring_ascii_case(fields[i].0, "type"@));
        }
    }
    lemma_first_keyed_none(fields, type_keys(), 0);
}

/// A `type` that stands in the payload states no type of the event: an
/// event that holds nothing but a payload has no type of its own, whatever
/// the payload holds.
pub proof fn lemma_type_in_payload_is_not_the_events(fields: Seq<(Seq<char>, JsonSpec)>)
    ensures
        own_type(nested_event(fields)) is None,
        line_of(nested_event(fields)) matches Some(line) && line.message_type is None,
        type_lets_through(nested_event(fields)),
{
    let entries = seq![("payload"@, JsonSpec::Object(fields))];
    lemma_payload_is_unlike_every_key();
    reveal_with_fuel(first_keyed, 2);
    reveal_with_fuel(member, 2);
    assert(!key_is_among(entries[0].0, type_keys()));
    assert(member(entries, "type"@) is None);
    assert(member(entries, "payload"@) == Some(JsonSpec::Object(fields)));
}

/// A payload nested under `payload` and the same payload spread over the
/// event itself give the same update, as long as no key of the payload is
/// `type` or `payload` in any letter case.
pub proof fn lemma_nested_and_flat_agree(fields: Seq<(Seq<char>, JsonSpec)>)
    requires
        !has_key_like(fields, "type"@),
        !has_key_like(fields, "payload"@),
    ensures
        update_of(nested_event(fields)) == update_of(flat_event(fields)),
{
    let nested = nested_event(fields);
    let flat = flat_event(fields);
    let entries = seq![("payload"@, JsonSpec::Object(fields))];
    lemma_payload_is_unlike_every_key();
    lemma_unlike_key_is_no_member(fields, "type"@);
    lemma_unlike_key_is_no_member(fields, "payload"@);
    reveal_with_fuel(member, 2);
    assert(member(entries, "payload"@) == Some(JsonSpec::Object(fields)));
    assert(member(entries, "type"@) is None);
    assert forall|i: int| 0 <= i < FIELD_COUNT implies #[trigger] member_slots(entries)[i]
        is None by {
        assert(field_keys()[i] != "payload"@);
    }
    let inner = payload_of_members(fields);
    assert(payload_of_members(entries).with_fallback(inner) == inner);
    assert(inner.with_fallback(payload_of_members(entries)) == inner);
    assert(line_of(nested).unwrap().effective_payload() == inner);
    assert(line_of(flat).unwrap().effective_payload() == inner);
    lemma_unlike_type_is_no_own_type(fields);
    assert(own_type(nested) is None) by {
        reveal_with_fuel(first_keyed, 2);
        assert(!key_is_among(entries[0].0, type_keys()));
    }
    lemma_search_looks_through_payload(fields, flag_keys());
    lemma_search_looks_through_payload(fields, rate_keys());
    lemma_search_looks_through_payload(fields, state_keys());
    lemma_search_looks_through_payload(fields, title_keys());
    lemma_search_looks_through_payload(fields, artist_keys());
    lemma_search_looks_through_payload(fields, album_keys());
    lemma_search_looks_through_payload(fields, uri_keys());
    lemma_search_looks_through_payload(fields, player_keys());
    assert(nested_payload(nested) == flat);
    assert(nested_payload(flat) == flat);
    assert(found_playback_state(nested) == found_playback_state(flat));
    assert(found_media_data(nested) == found_media_data(flat));
    assert(fallback_update(nested) == fallback_update(flat));
}

/// Whether two documents are the same but for the letter case of their
/// keys.
pub open spec fn same_but_key_case(a: JsonSpec, b: JsonSpec) -> bool
    decreases a,
{
    match (a, b) {
        (JsonSpec::Null, JsonSpec::Null) => true,
        (JsonSpec::Bool(x), JsonSpec::Bool(y)) => x == y,
        (JsonSpec::Number(x), JsonSpec::Number(y)) => x == y,
        (JsonSpec::Text(x), JsonSpec::Text(y)) => x == y,
        (JsonSpec::Array(x), JsonSpec::Array(y)) => x.len() == y.len() && forall|i: int|
            0 <= i < x.len() ==> same_but_key_case(#[trigger] x[i], y[i]),
        (JsonSpec::Object(x), JsonSpec::Object(y)) => x.len() == y.len() && forall|i: int|
            0 <= i < x.len() ==> eq_ignoring_ascii_case((#[trigger] x[i]).0, y[i].0)
                && same_but_key_case(x[i].1, y[i].1),
        _ => false,
    }
}

/// Whether two optional documents are both missing, or the same but for the
/// letter case of their keys.
pub open spec fn alike(a: Option<JsonSpec>, b: Option<JsonSpec>) -> bool {
    match (a, b) {
        (Some(x), Some(y)) => same_but_key_case(x, y),
        (None, None) => true,
        _ => false,
    }
}

proof fn lemma_like_keys_are_among_alike(k1: Seq<char>, k2: Seq<char>, keys: Seq<Seq<char>>)
    requires
        eq_ignoring_ascii_case(k1, k2),
    ensures
        key_is_among(k1, keys) == key_is_among(k2, keys),
{
    if key_is_among(k1, keys) {
        let i = choose|i: int|
            0 <= i < keys.len() && eq_ignoring_ascii_case(k1, #[trigger] keys[i]);
        assert(eq_ignoring_ascii_case(k2, keys[i]));
    }
    if key_is_among(k2, keys) {
        let i = choose|i: int|
            0 <= i < keys.len() && eq_ignoring_ascii_case(k2, #[trigger] keys[i]);
        assert(eq_ignoring_ascii_case(k1, keys[i]));
    }
}

proof fn lemma_first_keyed_alike(
    x: Seq<(Seq<char>, JsonSpec)>,
    y: Seq<(Seq<char>, JsonSpec)>,
    keys: Seq<Seq<char>>,
    from: int,
)
    requires
        same_but_key_case(JsonSpec::Object(x), JsonSpec::Object(y)),
        0 <= from,
    ensures
        alike(first_keyed(x, keys, from), first_keyed(y, keys, from)),
    decreases x.len() - from,
{
    if from < x.len() {
        assert(eq_ignoring_ascii_case(x[from].0, y[from].0) && same_but_key_case(
            x[from].1,
            y[from].1,
        ));
        lemma_like_keys_are_among_alike(x[from].0, y[from].0, keys);
        lemma_first_keyed_alike(x, y, keys, from + 1);
    }
}

/// Key search finds alike values in documents that are the same but for
/// the letter case of their keys.
pub proof fn lemma_search_is_blind_to_key_case(a: JsonSpec, b: JsonSpec, keys: Seq<Seq<char>>)
    requires
        same_but_key_case(a, b),
    ensures
        alike(find_key(a, keys), find_key(b, keys)),
    decreases a, 1int, 0int,
{
    match (a, b) {
        (JsonSpec::Object(x), JsonSpec::Object(y)) => {
            lemma_first_keyed_alike(x, y, keys, 0);
            lemma_members_alike(a, b, x, y, keys, 0);
        },
        (JsonSpec::Array(x), JsonSpec::Array(y)) => {
            lemma_items_alike(a, b, x, y, keys, 0);
        },
        _ => {},
    }
}

proof fn lemma_members_alike(
    a: JsonSpec,
    b: JsonSpec,
    x: Seq<(Seq<char>, JsonSpec)>,
    y: Seq<(Seq<char>, JsonSpec)>,
    keys: Seq<Seq<char>>,
    from: int,
)
    requires
        a == JsonSpec::Object(x),
        b == JsonSpec::Object(y),
        same_but_key_case(a, b),
        0 <= from,
    ensures
        alike(find_in_members(x, keys, from), find_in_members(y, keys, from)),
    decreases a, 0int, x.len() - from,
{
    if from < x.len() {
        assert(eq_ignoring_ascii_case(x[from].0, y[from].0) && same_but_key_case(
            x[from].1,
            y[from].1,
        ));
        lemma_search_is_blind_to_key_case(x[from].1, y[from].1, keys);
        lemma_members_alike(a, b, x, y, keys, from + 1);
    }
}

proof fn lemma_items_alike(
    a: JsonSpec,
    b: JsonSpec,
    x: Seq<JsonSpec>,
    y: Seq<JsonSpec>,
    keys: Seq<Seq<char>>,
    from: int,
)
    requires
        a == JsonSpec::Array(x),
        b == JsonSpec::Array(y),
        same_but_key_case(a, b),
        0 <= from,
    ensures
        alike(find_in_items(x, keys, from), find_in_items(y, keys, from)),
    decreases a, 0int, x.len() - from,
{
    if from < x.len() {
        assert(same_but_key_case(x[from], y[from]));
        lemma_search_is_blind_to_key_case(x[from], y[from], keys);
        lemma_items_alike(a, b, x, y, keys, from + 1);
    }
}

proof fn lemma_names_alike(x: Seq<JsonSpec>, y: Seq<JsonSpec>)
    requires
        same_but_key_case(JsonSpec::Array(x), JsonSpec::Array(y)),
    ensures
        names_among(x) == names_among(y),
    decreases x.len(),
{
    if x.len() > 0 {
        assert(same_but_key_case(x[x.len() - 1], y[y.len() - 1]));
        let xs = x.drop_last();
        let ys = y.drop_last();
        assert forall|i: int| 0 <= i < xs.len() implies same_but_key_case(
            #[trigger] xs[i],
            ys[i],
        ) by {
            assert(same_but_key_case(x[i], y[i]));
        }
        lemma_names_alike(xs, ys);
    }
}

proof fn lemma_readings_alike(a: Option<JsonSpec>, b: Option<JsonSpec>)
    requires
        alike(a, b),
    ensures
        text_of(a) == text_of(b),
        a matches Some(JsonSpec::Bool(_)) ==> a == b,
        b matches Some(JsonSpec::Bool(_)) ==> a == b,
        a matches Some(JsonSpec::Number(_)) ==> a == b,
        b matches Some(JsonSpec::Number(_)) ==> a == b,
        (match (a, b) {
            (Some(x), Some(y)) => lenient_artists_reading(x) == lenient_artists_reading(y),
            _ => true,
        }),
{
    match (a, b) {
        (Some(JsonSpec::Array(x)), Some(JsonSpec::Array(y))) => {
            lemma_names_alike(x, y);
        },
        (Some(JsonSpec::Text(x)), Some(JsonSpec::Text(y))) => {},
        _ => {},
    }
}

/// Key search reads the same snapshot and the same playback state from
/// documents that are the same but for the letter case of their keys.
pub proof fn lemma_search_reads_alike(a: JsonSpec, b: JsonSpec)
    requires
        same_but_key_case(a, b),
    ensures
        found_media_data(a) == found_media_data(b),
        found_playback_state(a) == found_playback_state(b),
{
    lemma_search_is_blind_to_key_case(a, b, title_keys());
    lemma_readings_alike(find_key(a, title_keys()), find_key(b, title_keys()));
    lemma_search_is_blind_to_key_case(a, b, artist_keys());
    lemma_readings_alike(find_key(a, artist_keys()), find_key(b, artist_keys()));
    lemma_search_is_blind_to_key_case(a, b, album_keys());
    lemma_readings_alike(find_key(a, album_keys()), find_key(b, album_keys()));
    lemma_search_is_blind_to_key_case(a, b, uri_keys());
    lemma_readings_alike(find_key(a, uri_keys()), find_key(b, uri_keys()));
    lemma_search_is_blind_to_key_case(a, b, player_keys());
    lemma_readings_alike(find_key(a, player_keys()), find_key(b, player_keys()));
    lemma_search_is_blind_to_key_case(a, b, flag_keys());
    lemma_readings_alike(find_key(a, flag_keys()), find_key(b, flag_keys()));
    lemma_search_is_blind_to_key_case(a, b, rate_keys());
    lemma_readings_alike(find_key(a, rate_keys()), find_key(b, rate_keys()));
    lemma_search_is_blind_to_key_case(a, b, state_keys());
    lemma_readings_alike(find_key(a, state_keys()), find_key(b, state_keys()));
}

/// Whether a document holds a member whose key is `payload` in some letter
/// case.
pub open spec fn has_payload_member(doc: JsonSpec) -> bool {
    doc matches JsonSpec::Object(entries) && has_key_like(entries, "payload"@)
}

/// Key search reads the same update from two documents that are the same
/// but for the letter case of their keys, as long as neither holds a member
/// under `payload` in any letter case.
pub proof fn lemma_key_case_does_not_change_the_search(a: JsonSpec, b: JsonSpec)
    requires
        same_but_key_case(a, b),
        !has_payload_member(a),
    ensures
        fallback_update(a) == fallback_update(b),
{
    lemma_search_reads_alike(a, b);
    match (a, b) {
        (JsonSpec::Object(x), JsonSpec::Object(y)) => {
            lemma_first_keyed_alike(x, y, type_keys(), 0);
            lemma_readings_alike(first_keyed(x, type_keys(), 0), first_keyed(y, type_keys(), 0));
            assert(!has_key_like(y, "payload"@)) by {
                if has_key_like(y, "payload"@) {
                    let i = choose|i: int|
                        0 <= i < y.len() && eq_ignoring_ascii_case(
                            #[trigger] y[i].0,
                            "payload"@,
                        );
                    assert(eq_ignoring_ascii_case(x[i].0, y[i].0) && same_but_key_case(
                        x[i].1,
                        y[i].1,
                    ));
                    assert(eq_ignoring_ascii_case(x[i].0, "payload"@));
                }
            }
            lemma_unlike_key_is_no_member(x, "payload"@);
            lemma_unlike_key_is_no_member(y, "payload"@);
        },
        _ => {},
    }
    assert(nested_payload(a) == a);
    assert(nested_payload(b) == b);
}

/// Whether a value holds no member of its own: anything but an object or
/// an array with something other than strings in it.
pub open spec fn is_plain_value(value: JsonSpec) -> bool {
    match value {
        JsonSpec::Object(_) => false,
        JsonSpec::Array(items) => all_text(items),
        _ => true,
    }
}

/// Whether at most one member of `fields` has a key of `group`, letter case
/// aside, and that one in the very letter case of `group`.
pub open spec fn holds_group_once(fields: Seq<(Seq<char>, JsonSpec)>, group: Seq<Seq<char>>)
    -> bool {
    &&& forall|i: int, j: int|
        0 <= i < fields.len() && 0 <= j < fields.len() && key_is_among(
            (#[trigger] fields[i]).0,
            group,
        ) && key_is_among((#[trigger] fields[j]).0, group) ==> i == j
    &&& forall|i: int|
        0 <= i < fields.len() && key_is_among((#[trigger] fields[i]).0, group) ==> group.contains(
            fields[i].0,
        )
}

/// Whether `fields` is a payload that the schema and key search must read
/// alike: every value is plain, every concept stands under at most one key
/// and in the schema's letter case, a flag is no text and no number, a rate
/// is no text, and no key is `payload` in any letter case.
pub open spec fn is_plain_payload(fields: Seq<(Seq<char>, JsonSpec)>) -> bool {
    &&& forall|i: int| 0 <= i < fields.len() ==> is_plain_value((#[trigger] fields[i]).1)
    &&& holds_group_once(fields, title_keys())
    &&& holds_group_once(fields, artist_keys())
    &&& holds_group_once(fields, album_keys())
    &&& holds_group_once(fields, uri_keys())
    &&& holds_group_once(fields, player_keys())
    &&& holds_group_once(fields, flag_keys())
    &&& holds_group_once(fields, rate_keys())
    &&& holds_group_once(fields, state_keys())
    &&& holds_group_once(fields, type_keys())
    &&& forall|i: int|
        0 <= i < fields.len() && key_is_among((#[trigger] fields[i]).0, flag_keys()) ==> !(
        fields[i].1 is Text) && !(fields[i].1 is Number)
    &&& forall|i: int|
        0 <= i < fields.len() && key_is_among((#[trigger] fields[i]).0, rate_keys()) ==> !(
        fields[i].1 is Text)
    &&& !has_key_like(fields, "payload"@)
}

proof fn lemma_plain_items_hold_no_key(items: Seq<JsonSpec>, keys: Seq<Seq<char>>, from: int)
    requires
        all_text(items),
        0 <= from,
    ensures
        find_in_items(items, keys, from) is None,
    decreases items.len() - from,
{
    if from < items.len() {
        assert(items[from] is Text);
        assert(find_key(items[from], keys) is None);
        lemma_plain_items_hold_no_key(items, keys, from + 1);
    }
}

proof fn lemma_plain_value_holds_no_key(value: JsonSpec, keys: Seq<Seq<char>>)
    requires
        is_plain_value(value),
    ensures
        find_key(value, keys) is None,
{
    match value {
        JsonSpec::Array(items) => {
            lemma_plain_items_hold_no_key(items, keys, 0);
        },
        _ => {},
    }
}

proof fn lemma_plain_members_hold_no_key(
    fields: Seq<(Seq<char>, JsonSpec)>,
    keys: Seq<Seq<char>>,
    from: int,
)
    requires
        forall|i: int| 0 <= i < fields.len() ==> is_plain_value((#[trigger] fields[i]).1),
        0 <= from,
    ensures
        find_in_members(fields, keys, from) is None,
    decreases fields.len() - from,
{
    if from < fields.len() {
        assert(is_plain_value(fields[from].1));
        lemma_plain_value_holds_no_key(fields[from].1, keys);
        lemma_plain_members_hold_no_key(fields, keys, from + 1);
    }
}

proof fn lemma_member_at(fields: Seq<(Seq<char>, JsonSpec)>, key: Seq<char>, at: int, from: int)
    requires
        0 <= from <= at < fields.len(),
        fields[at].0 == key,
        forall|i: int| from <= i < at ==> (#[trigger] fields[i]).0 != key,
    ensures
        member(fields.skip(from), key) == Some(fields[at].1),
    decreases at - from,
{
    let rest = fields.skip(from);
    assert(rest[0] == fields[from]);
    if from < at {
        lemma_member_at(fields, key, at, from + 1);
        assert(rest.drop_first() =~= fields.skip(from + 1));
    }
}

proof fn lemma_no_member(fields: Seq<(Seq<char>, JsonSpec)>, key: Seq<char>, from: int)
    requires
        0 <= from <= fields.len(),
        forall|i: int| from <= i < fields.len() ==> (#[trigger] fields[i]).0 != key,
    ensures
        member(fields.skip(from), key) is None,
    decreases fields.len() - from,
{
    let rest = fields.skip(from);
    if from < fields.len() {
        assert(rest[0] == fields[from]);
        lemma_no_member(fields, key, from + 1);
        assert(rest.drop_first() =~= fields.skip(from + 1));
    }
}

proof fn lemma_first_keyed_at(
    fields: Seq<(Seq<char>, JsonSpec)>,
    group: Seq<Seq<char>>,
    at: int,
    from: int,
)
    requires
        0 <= from <= at < fields.len(),
        key_is_among(fields[at].0, group),
        forall|i: int| from <= i < at ==> !key_is_among((#[trigger] fields[i]).0, group),
    ensures
        first_keyed(fields, group, from) == Some(fields[at].1),
    decreases at - from,
{
    if from < at {
        assert(!key_is_among(fields[from].0, group));
        lemma_first_keyed_at(fields, group, at, from + 1);
    }
}

proof fn lemma_first_keyed_none(fields: Seq<(Seq<char>, JsonSpec)>, group: Seq<Seq<char>>, from: int)
    requires
        0 <= from,
        forall|i: int| from <= i < fields.len() ==> !key_is_among((#[trigger] fields[i]).0, group),
    ensures
        first_keyed(fields, group, from) is None,
    decreases fields.len() - from,
{
    if from < fields.len() {
        assert(!key_is_among(fields[from].0, group));
        lemma_first_keyed_none(fields, group, from + 1);
    }
}

/// What a group of keys finds in a plain payload: key search finds the value
/// of the one member under a key of the group, and the schema finds that
/// value under that key and nothing under the other keys of the group.
proof fn lemma_group_in_plain_payload(fields: Seq<(Seq<char>, JsonSpec)>, group: Seq<Seq<char>>)
    requires
        forall|i: int| 0 <= i < fields.len() ==> is_plain_value((#[trigger] fields[i]).1),
        holds_group_once(fields, group),
    ensures
        find_key(JsonSpec::Object(fields), group) == first_keyed(fields, group, 0),
        first_keyed(fields, group, 0) is None ==> forall|k: int|
            0 <= k < group.len() ==> member(fields, #[trigger] group[k]) is None,
        first_keyed(fields, group, 0) matches Some(value) ==> is_plain_value(value) && (exists|
            k: int,
        |
            0 <= k < group.len() && member(fields, #[trigger] group[k]) == Some(value)) && (forall|
            k: int,
        |
            0 <= k < group.len() ==> member(fields, #[trigger] group[k]) == Some(value) || member(
                fields,
                group[k],
            ) is None),
        first_keyed(fields, group, 0) matches Some(value) ==> exists|i: int|
            0 <= i < fields.len() && key_is_among((#[trigger] fields[i]).0, group) && fields[i].1
                == value,
{
    lemma_plain_members_hold_no_key(fields, group, 0);
    assert(fields.skip(0) =~= fields);
    if exists|i: int| 0 <= i < fields.len() && key_is_among((#[trigger] fields[i]).0, group) {
        let at = choose|i: int|
            0 <= i < fields.len() && key_is_among((#[trigger] fields[i]).0, group);
        let value = fields[at].1;
        lemma_first_keyed_at(fields, group, at, 0);
        assert(group.contains(fields[at].0));
        let k0 = choose|k: int| 0 <= k < group.len() && group[k] == fields[at].0;
        assert forall|k: int| 0 <= k < group.len() implies member(fields, #[trigger] group[k])
            == Some(value) || member(fields, group[k]) is None by {
            if group[k] == fields[at].0 {
                assert forall|i: int| 0 <= i < at implies (#[trigger] fields[i]).0 != group[k] by {
                    if fields[i].0 == group[k] {
                        assert(key_is_among(fields[i].0, group));
                    }
                }
                lemma_member_at(fields, group[k], at, 0);
            } else {
                assert forall|i: int| 0 <= i < fields.len() implies (#[trigger] fields[i]).0
                    != group[k] by {
                    if fields[i].0 == group[k] {
                        assert(eq_ignoring_ascii_case(fields[i].0, group[k]));
                        assert(key_is_among(fields[i].0, group));
                    }
                }
                lemma_no_member(fields, group[k], 0);
            }
        }
        assert(member(fields, group[k0]) == Some(value)) by {
            assert forall|i: int| 0 <= i < at implies (#[trigger] fields[i]).0 != group[k0] by {
                if fields[i].0 == group[k0] {
                    assert(key_is_among(fields[i].0, group));
                }
            }
            lemma_member_at(fields, group[k0], at, 0);
        }
        assert(is_plain_value(fields[at].1));
    } else {
        lemma_first_keyed_none(fields, group, 0);
        assert forall|k: int| 0 <= k < group.len() implies member(fields, #[trigger] group[k])
            is None by {
            assert forall|i: int| 0 <= i < fields.len() implies (#[trigger] fields[i]).0
                != group[k] by {
                if fields[i].0 == group[k] {
                    assert(eq_ignoring_ascii_case(fields[i].0, group[k]));
                    assert(key_is_among(fields[i].0, group));
                }
            }
            lemma_no_member(fields, group[k], 0);
        }
    }
}

proof fn lemma_first_present_of_one<T>(values: Seq<Option<T>>, value: Option<T>)
    requires
        forall|i: int| 0 <= i < values.len() ==> #[trigger] values[i] == value || values[i] is None,
        value is Some ==> exists|i: int| 0 <= i < values.len() && #[trigger] values[i] == value,
    ensures
        first_present(values) == value,
    decreases values.len(),
{
    if values.len() > 0 {
        if values[0] is Some {
        } else {
            let rest = values.drop_first();
            assert forall|i: int| 0 <= i < rest.len() implies #[trigger] rest[i] == value
                || rest[i] is None by {
                assert(rest[i] == values[i + 1]);
            }
            if value is Some {
                let i = choose|i: int| 0 <= i < values.len() && #[trigger] values[i] == value;
                assert(rest[i - 1] == values[i]);
            }
            lemma_first_present_of_one(rest, value);
        }
    }
}

proof fn lemma_schema_reads_the_found_value<T>(
    fields: Seq<(Seq<char>, JsonSpec)>,
    group: Seq<Seq<char>>,
    readings: Seq<Option<T>>,
    reading: spec_fn(Option<JsonSpec>) -> Option<T>,
)
    requires
        forall|i: int| 0 <= i < fields.len() ==> is_plain_value((#[trigger] fields[i]).1),
        holds_group_once(fields, group),
        readings.len() == group.len(),
        forall|k: int|
            0 <= k < group.len() ==> #[trigger] readings[k] == reading(member(fields, group[k])),
        reading(None) is None,
    ensures
        first_present(readings) == reading(find_key(JsonSpec::Object(fields), group)),
{
    lemma_group_in_plain_payload(fields, group);
    let found = first_keyed(fields, group, 0);
    let value = reading(found);
    assert forall|k: int| 0 <= k < readings.len() implies #[trigger] readings[k] == value
        || readings[k] is None by {
        assert(member(fields, group[k]) == found || member(fields, group[k]) is None);
    }
    if value is Some {
        let k = choose|k: int| 0 <= k < group.len() && member(fields, #[trigger] group[k]) == found;
        assert(readings[k] == value);
    }
    lemma_first_present_of_one(readings, value);
}

/// The schema and key search read the same update from an event that holds
/// a plain payload.
pub proof fn lemma_schema_and_search_agree_on_plain_payload(fields: Seq<(Seq<char>, JsonSpec)>)
    requires
        is_plain_payload(fields),
    ensures
        update_of(flat_event(fields)) == fallback_update(flat_event(fields)),
{
    let doc = flat_event(fields);
    let payload = payload_of_members(fields);
    let slots = member_slots(fields);
    lemma_unlike_key_is_no_member(fields, "payload"@);
    assert(line_of(doc).unwrap().effective_payload() == payload);
    assert(nested_payload(doc) == doc);

    lemma_schema_reads_the_found_value(
        fields,
        title_keys(),
        seq![payload.title, payload.name],
        |slot: Option<JsonSpec>| text_of(slot),
    );
    lemma_schema_reads_the_found_value(
        fields,
        album_keys(),
        seq![payload.album, payload.album_title],
        |slot: Option<JsonSpec>| text_of(slot),
    );
    lemma_schema_reads_the_found_value(
        fields,
        uri_keys(),
        seq![payload.uri, payload.url],
        |slot: Option<JsonSpec>| text_of(slot),
    );
    lemma_schema_reads_the_found_value(
        fields,
        player_keys(),
        seq![
            payload.bundle_identifier,
            payload.bundle_identifier_snake,
            payload.player,
            payload.source_app_user_model_id,
            payload.application,
            payload.app,
        ],
        |slot: Option<JsonSpec>| text_of(slot),
    );
    lemma_schema_reads_the_found_value(
        fields,
        state_keys(),
        seq![payload.playback_state_text, payload.state, payload.status],
        |slot: Option<JsonSpec>| text_of(slot),
    );
    lemma_schema_reads_the_found_value(
        fields,
        type_keys(),
        seq![line_of(doc).unwrap().message_type],
        |slot: Option<JsonSpec>| text_of(slot),
    );
    lemma_schema_reads_the_found_value(
        fields,
        artist_keys(),
        seq![payload.artist, payload.artists, payload.album_artist, payload.album_artists],
        |slot: Option<JsonSpec>| artists_of(slot),
    );
    lemma_schema_reads_the_found_value(
        fields,
        flag_keys(),
        seq![payload.playing, payload.is_playing],
        |slot: Option<JsonSpec>| flag_of(slot),
    );
    lemma_schema_reads_the_found_value(
        fields,
        rate_keys(),
        seq![payload.playback_rate, payload.rate],
        |slot: Option<JsonSpec>| rate_of(slot),
    );

    lemma_group_in_plain_payload(fields, type_keys());
    assert(own_type(doc) == text_of(find_key(doc, type_keys())));
    lemma_group_in_plain_payload(fields, artist_keys());
    lemma_group_in_plain_payload(fields, flag_keys());
    lemma_group_in_plain_payload(fields, rate_keys());
    assert(artists_of(find_key(doc, artist_keys())) == found_artists(doc, artist_keys()));
    assert(flag_of(find_key(doc, flag_keys())) == found_flag(doc, flag_keys()));
    assert(rate_of(find_key(doc, rate_keys())) == found_rate(doc, rate_keys()));

    assert(or_else(payload.playing, payload.is_playing) == first_present(
        seq![payload.playing, payload.is_playing],
    )) by {
        reveal_with_fuel(first_present, 3);
    }
    assert(or_else(payload.playback_rate, payload.rate) == first_present(
        seq![payload.playback_rate, payload.rate],
    )) by {
        reveal_with_fuel(first_present, 3);
    }
    assert(line_of(doc).unwrap().message_type == first_present(
        seq![line_of(doc).unwrap().message_type],
    )) by {
        reveal_with_fuel(first_present, 2);
    }
    assert(payload.playback_state() == found_playback_state(doc));
    assert(payload.media_data() == found_media_data(doc));
}

/// Whether the schema reads nothing from an event: no type, no playback
/// state and no snapshot.
pub open spec fn is_unread_by_schema(doc: JsonSpec) -> bool {
    line_of(doc) matches Some(line) && line.message_type is None
        && line.effective_payload().playback_state() is None
        && line.effective_payload().media_data() is None
}

/// An event from which the schema reads nothing gives the update that key
/// search reads from it.
pub proof fn lemma_unread_event_is_searched(doc: JsonSpec)
    requires
        is_unread_by_schema(doc),
    ensures
        update_of(doc) == fallback_update(doc),
{
}

/// Nested, spread over the event, or with keys in another letter case: a
/// plain payload without a `type` of its own gives the same update in each
/// shape. The shape with other letter case is read by key search, which
/// gives the event's update where the schema reads nothing from it.
pub proof fn lemma_schema_shapes_agree(
    fields: Seq<(Seq<char>, JsonSpec)>,
    varied: Seq<(Seq<char>, JsonSpec)>,
)
    requires
        is_plain_payload(fields),
        !has_key_like(fields, "type"@),
        same_but_key_case(flat_event(fields), flat_event(varied)),
    ensures
        update_of(nested_event(fields)) == update_of(flat_event(fields)),
        update_of(flat_event(fields)) == fallback_update(flat_event(varied)),
        is_unread_by_schema(flat_event(varied)) ==> update_of(flat_event(varied)) == update_of(
            flat_event(fields),
        ),
{
    if is_unread_by_schema(flat_event(varied)) {
        lemma_unread_event_is_searched(flat_event(varied));
    }
    lemma_nested_and_flat_agree(fields);
    lemma_schema_and_search_agree_on_plain_payload(fields);
    lemma_key_case_does_not_change_the_search(flat_event(fields), flat_event(varied));
}

} // verus!
