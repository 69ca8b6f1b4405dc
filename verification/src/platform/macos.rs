//! Normalizing the event stream of the media-control helper.
//!
//! The helper writes one JSON document per line. Each line is read twice: by
//! the schema of [`schema`], which knows the exact keys, and where that finds
//! no player or nothing at all, by the key search of [`search`], which takes
//! keys in any letter case and at any depth.

use vstd::prelude::*;
use vstd::string::*;

use crate::json::{find_member, json_document, lemma_object_view, member, Json, JsonSpec};
use crate::platform::macos::schema::{
    is_data_message_type, is_data_type, line_of, or_else, StreamLine,
};
use crate::platform::macos::search::{
    find_own_type, found_media_data, found_playback_state, own_type, parse_media_data_value,
    parse_playback_state_value,
};
use crate::platform::{MediaData, MediaDataView, UNKNOWN_PLAYER};
use crate::text::str_equal;

pub mod laws;
pub mod schema;
pub mod search;
pub mod supervisor;

verus! {

/// What one line of the stream says.
#[derive(Debug)]
pub enum ParsedLine {
    /// This media is playing.
    Playing(MediaData),
    /// Nothing is playing.
    NotPlaying,
    /// Something is playing, and the line does not say what.
    NoChange,
}

/// The mathematical content of a [`ParsedLine`].
pub enum ParsedLineView {
    Playing(MediaDataView),
    NotPlaying,
    NoChange,
}

impl View for ParsedLine {
    type V = ParsedLineView;

    open spec fn view(&self) -> ParsedLineView {
        match self {
            ParsedLine::Playing(data) => ParsedLineView::Playing(data@),
            ParsedLine::NotPlaying => ParsedLineView::NotPlaying,
            ParsedLine::NoChange => ParsedLineView::NoChange,
        }
    }
}

impl ParsedLine {
    /// Tells whether `self` and `other` say the same.
    pub fn same_as(&self, other: &ParsedLine) -> (same: bool)
        ensures
            same == (self@ == other@),
    {
        match (self, other) {
            (ParsedLine::Playing(a), ParsedLine::Playing(b)) => a.same_as(b),
            (ParsedLine::NotPlaying, ParsedLine::NotPlaying) => true,
            (ParsedLine::NoChange, ParsedLine::NoChange) => true,
            _ => false,
        }
    }
}

impl PartialEq for ParsedLine {
    fn eq(&self, other: &ParsedLine) -> (same: bool) {
        self.same_as(other)
    }
}

impl vstd::std_specs::cmp::PartialEqSpecImpl for ParsedLine {
    open spec fn obeys_eq_spec() -> bool {
        true
    }

    open spec fn eq_spec(&self, other: &ParsedLine) -> bool {
        self@ == other@
    }
}

impl Eq for ParsedLine {

}

/// The view of an update that may be missing.
pub open spec fn update_view(update: Option<ParsedLine>) -> Option<ParsedLineView> {
    match update {
        Some(u) => Some(u@),
        None => None,
    }
}

/// The view of a snapshot that may be missing.
pub open spec fn cell_view(cell: Option<MediaData>) -> Option<MediaDataView> {
    match cell {
        Some(data) => Some(data@),
        None => None,
    }
}

/// The update for a playback state and a snapshot: a definite "not playing"
/// wins over any snapshot; a snapshot means playing; a definite "playing"
/// without a snapshot changes nothing; without either there is no update.
pub open spec fn update_for(state: Option<bool>, media: Option<MediaDataView>) -> Option<
    ParsedLineView,
> {
    if state == Some(false) {
        Some(ParsedLineView::NotPlaying)
    } else {
        match media {
            Some(data) => Some(ParsedLineView::Playing(data)),
            None => if state == Some(true) {
                Some(ParsedLineView::NoChange)
            } else {
                None
            },
        }
    }
}

/// What a document holds under `payload`, else the document itself.
pub open spec fn nested_payload(doc: JsonSpec) -> JsonSpec {
    match doc {
        JsonSpec::Object(entries) => match member(entries, "payload"@) {
            Some(payload) => payload,
            None => doc,
        },
        _ => doc,
    }
}

/// The update that key search reads from a document. A document that
/// states a type of itself other than one of playback data gives none.
/// State and snapshot are each looked for in the nested payload first, then
/// in the whole document.
pub open spec fn fallback_update(doc: JsonSpec) -> Option<ParsedLineView> {
    if own_type(doc) matches Some(message_type) && !is_data_type(message_type) {
        None
    } else {
        let payload = nested_payload(doc);
        update_for(
            or_else(found_playback_state(payload), found_playback_state(doc)),
            or_else(found_media_data(payload), found_media_data(doc)),
        )
    }
}

/// The update that a document gives.
///
/// A document that is no event by the schema gives none, nor does one whose
/// own type is not one of playback data; a `type` that stands deeper in the
/// document, in its payload for one, decides nothing.
/// Otherwise the payload in force decides: "not playing" wins; its snapshot
/// means playing, but where it names no player and key search finds a
/// snapshot with one, that one is taken; without a snapshot the update is
/// whatever key search reads, or else "no change" where the payload says
/// that media is playing.
pub open spec fn update_of(doc: JsonSpec) -> Option<ParsedLineView> {
    match line_of(doc) {
        None => None,
        Some(line) => {
            let message_type = or_else(line.message_type, own_type(doc));
            let payload = line.effective_payload();
            let state = payload.playback_state();
            if message_type matches Some(t) && !is_data_type(t) {
                None
            } else if state == Some(false) {
                Some(ParsedLineView::NotPlaying)
            } else {
                match payload.media_data() {
                    Some(data) => match fallback_update(doc) {
                        Some(ParsedLineView::Playing(found)) if data.player == UNKNOWN_PLAYER@
                            && found.player != UNKNOWN_PLAYER@ => Some(
                            ParsedLineView::Playing(found),
                        ),
                        _ => Some(ParsedLineView::Playing(data)),
                    },
                    None => match fallback_update(doc) {
                        Some(update) => Some(update),
                        None => update_for(state, None),
                    },
                }
            }
        },
    }
}

/// The update that a line gives: none for a line that is no JSON document.
pub open spec fn update_of_line(line: Seq<char>) -> Option<ParsedLineView> {
    match json_document(line) {
        Some(doc) => update_of(doc),
        None => None,
    }
}

fn make_update(state: Option<bool>, media: Option<MediaData>) -> (out: Option<ParsedLine>)
    ensures
        update_view(out) == update_for(state, cell_view(media)),
{
    match state {
        Some(false) => { return Some(ParsedLine::NotPlaying); },
        _ => {},
    }
    match media {
        Some(data) => Some(ParsedLine::Playing(data)),
        None => match state {
            Some(true) => Some(ParsedLine::NoChange),
            _ => None,
        },
    }
}

/// Reads an update from a document by key search.
pub fn parse_stream_line_fallback_from_value(raw: &Json) -> (out: Option<ParsedLine>)
    ensures
        update_view(out) == fallback_update(raw@),
{
    match find_own_type(raw) {
        Some(message_type) => {
            if !is_data_message_type(message_type.as_str()) {
                return None;
            }
        },
        None => {},
    }
    let payload: &Json = match raw {
        Json::Object(entries) => {
            proof {
                lemma_object_view(*entries);
            }
            match find_member(entries, "payload") {
                Some(payload) => payload,
                None => raw,
            }
        },
        _ => raw,
    };
    let state = match parse_playback_state_value(payload) {
        Some(state) => Some(state),
        None => parse_playback_state_value(raw),
    };
    let media = match parse_media_data_value(payload) {
        Some(media) => Some(media),
        None => parse_media_data_value(raw),
    };
    make_update(state, media)
}

/// Reads the update that a document gives.
pub fn normalize(doc: &Json) -> (out: Option<ParsedLine>)
    ensures
        update_view(out) == update_of(doc@),
{
    let line = match StreamLine::decode(doc) {
        Some(line) => line,
        None => { return None; },
    };
    if line.message_type.is_none() {
        match find_own_type(doc) {
            Some(message_type) => {
                if !is_data_message_type(message_type.as_str()) {
                    return None;
                }
            },
            None => {},
        }
    }
    if !line.is_data_message() {
        return None;
    }
    let payload = line.effective_payload();
    let state = payload.playback_state();
    match state {
        Some(false) => { return Some(ParsedLine::NotPlaying); },
        _ => {},
    }
    match payload.media_data() {
        Some(data) => {
            if str_equal(data.player.as_str(), UNKNOWN_PLAYER) {
                match parse_stream_line_fallback_from_value(doc) {
                    Some(ParsedLine::Playing(found)) => {
                        if !str_equal(found.player.as_str(), UNKNOWN_PLAYER) {
                            return Some(ParsedLine::Playing(found));
                        }
                    },
                    _ => {},
                }
            }
            Some(ParsedLine::Playing(data))
        },
        None => match parse_stream_line_fallback_from_value(doc) {
            Some(update) => Some(update),
            None => make_update(state, None),
        },
    }
}

/// Reads the update that one line of the stream gives.
pub fn parse_stream_line(line: &str) -> (out: Option<ParsedLine>)
    ensures
        update_view(out) == update_of_line(line@),
{
    match Json::parse(line) {
        Some(doc) => normalize(&doc),
        None => None,
    }
}

/// The snapshot on record after an update: a playing update records its
/// snapshot, "not playing" clears the record, "no change" keeps it.
pub open spec fn applied(cell: Option<MediaDataView>, update: ParsedLineView) -> Option<
    MediaDataView,
> {
    match update {
        ParsedLineView::Playing(data) => Some(data),
        ParsedLineView::NotPlaying => None,
        ParsedLineView::NoChange => cell,
    }
}

/// Applies an update to the snapshot on record and tells whether the record
/// changed.
pub fn apply_update(latest: &mut Option<MediaData>, update: ParsedLine) -> (changed: bool)
    ensures
        cell_view(*final(latest)) == applied(cell_view(*old(latest)), update@),
        changed == (cell_view(*final(latest)) != cell_view(*old(latest))),
        update@ is NoChange ==> cell_view(*final(latest)) == cell_view(*old(latest)),
{
    match update {
        ParsedLine::Playing(data) => {
            let same = match latest {
                Some(current) => current.same_as(&data),
                None => false,
            };
            if !same {
                *latest = Some(data);
            }
            !same
        },
        ParsedLine::NotPlaying => {
            let had = latest.is_some();
            if had {
                *latest = None;
            }
            had
        },
        ParsedLine::NoChange => false,
    }
}

/// Applying the same playing update twice is one transition: the second
/// application leaves the record as the first made it.
pub proof fn lemma_repeated_update_is_one_transition(
    cell: Option<MediaDataView>,
    data: MediaDataView,
)
    ensures
        applied(applied(cell, ParsedLineView::Playing(data)), ParsedLineView::Playing(data))
            == applied(cell, ParsedLineView::Playing(data)),
{
}

/// Whatever the record holds, "no change" leaves it as it is.
pub proof fn lemma_no_change_keeps_record(cell: Option<MediaDataView>)
    ensures
        applied(cell, ParsedLineView::NoChange) == cell,
{
}

} // verus!
