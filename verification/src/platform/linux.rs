//! The snapshot of a media player that speaks MPRIS.

use vstd::prelude::*;
use vstd::string::*;

use crate::platform::{MediaData, MediaDataView};
use crate::text::{copy_string, copy_strings};

verus! {

/// What a player says of its playback.
#[derive(Debug, Clone, Copy, PartialEq, Eq, Structural)]
pub enum PlaybackStatus {
    Playing,
    Paused,
    Stopped,
}

/// The metadata of the track that a player holds.
#[derive(Debug)]
pub struct Metadata {
    pub title: Option<String>,
    pub album_name: Option<String>,
    pub url: Option<String>,
    pub artists: Option<Vec<String>>,
    pub album_artists: Option<Vec<String>>,
}

/// What was read from the active player: its identity, its playback status
/// if that could be read, and its metadata if that could be read.
#[derive(Debug)]
pub struct PlayerReading {
    pub identity: String,
    pub status: Option<PlaybackStatus>,
    pub metadata: Option<Metadata>,
}

/// A text, or nothing where it is absent or empty.
pub open spec fn present_text(text: Option<Seq<char>>) -> Option<Seq<char>> {
    match text {
        Some(t) if t.len() > 0 => Some(t),
        _ => None,
    }
}

/// The artists of a track: those of the track where it names any, else
/// those of its album.
pub open spec fn track_artists(
    artists: Option<Seq<Seq<char>>>,
    album_artists: Option<Seq<Seq<char>>>,
) -> Option<Seq<Seq<char>>> {
    if artists is Some {
        artists
    } else {
        album_artists
    }
}

/// The snapshot that a reading gives: none without a player, for a player
/// that is not playing, or without metadata.
pub open spec fn snapshot_of(reading: Option<PlayerReading>) -> Option<MediaDataView> {
    match reading {
        Some(player) => match (player.status, player.metadata) {
            (Some(PlaybackStatus::Playing), Some(metadata)) => Some(
                MediaDataView {
                    artists: track_artists(
                        metadata.artists.deep_view(),
                        metadata.album_artists.deep_view(),
                    ),
                    album: present_text(metadata.album_name.deep_view()),
                    title: present_text(metadata.title.deep_view()),
                    uri: present_text(metadata.url.deep_view()),
                    player: player.identity@,
                },
            ),
            _ => None,
        },
        None => None,
    }
}

fn text_if_present(text: &Option<String>) -> (out: Option<String>)
    ensures
        out.deep_view() == present_text(text.deep_view()),
{
    match text {
        Some(t) => {
            if t.as_str().is_empty() {
                None
            } else {
                Some(copy_string(t))
            }
        },
        None => None,
    }
}

/// Tells whether a reading is that of a playing player.
pub fn is_playing(reading: &PlayerReading) -> (playing: bool)
    ensures
        playing == (reading.status == Some(PlaybackStatus::Playing)),
{
    match reading.status {
        Some(PlaybackStatus::Playing) => true,
        _ => false,
    }
}

/// Tells whether a reading deserves a warning: that of a playing player
/// without metadata does.
pub fn lacks_metadata(reading: &PlayerReading) -> (lacking: bool)
    ensures
        lacking == (reading.status == Some(PlaybackStatus::Playing) && reading.metadata is None),
{
    is_playing(reading) && reading.metadata.is_none()
}

/// The snapshot of what the active player plays, if it plays.
pub fn mediadata(reading: &Option<PlayerReading>) -> (out: Option<MediaData>)
    ensures
        match out {
            Some(data) => snapshot_of(*reading) == Some(data@),
            None => snapshot_of(*reading) is None,
        },
{
    let player = match reading {
        Some(player) => player,
        None => { return None; },
    };
    if !is_playing(player) {
        return None;
    }
    let metadata = match &player.metadata {
        Some(metadata) => metadata,
        None => { return None; },
    };
    let artists = match &metadata.artists {
        Some(list) => Some(copy_strings(list)),
        None => match &metadata.album_artists {
            Some(list) => Some(copy_strings(list)),
            None => None,
        },
    };
    Some(
        MediaData {
            artists,
            album: text_if_present(&metadata.album_name),
            title: text_if_present(&metadata.title),
            uri: text_if_present(&metadata.url),
            player: copy_string(&player.identity),
        },
    )
}

} // verus!
