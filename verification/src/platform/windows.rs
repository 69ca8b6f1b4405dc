//! The snapshot of the current media session of Windows.

use vstd::prelude::*;
use vstd::string::*;

use crate::platform::{MediaData, MediaDataView};
use crate::text::{copy_optional_string, copy_string};

verus! {

/// What a session says of its playback.
#[derive(Debug, Clone, Copy, PartialEq, Eq, Structural)]
pub enum SessionStatus {
    Closed,
    Opened,
    Changing,
    Stopped,
    Playing,
    Paused,
}

/// The media properties of a session, each as far as it could be read.
#[derive(Debug)]
pub struct MediaProperties {
    pub title: Option<String>,
    pub artist: Option<String>,
    pub album_title: Option<String>,
}

/// What was read from the current session: its playback status, its media
/// properties and the model identifier of its application, each if it could
/// be read.
#[derive(Debug)]
pub struct SessionReading {
    pub status: Option<SessionStatus>,
    pub properties: Option<MediaProperties>,
    pub source_app_user_model_id: Option<String>,
}

/// One artist as a list, or nothing.
pub open spec fn single_artist(artist: Option<Seq<char>>) -> Option<Seq<Seq<char>>> {
    match artist {
        Some(name) => Some(seq![name]),
        None => None,
    }
}

/// The snapshot that a reading gives: none without a session, for a session
/// that is not playing, or where the properties or the application could
/// not be read. A property that could not be read is absent.
pub open spec fn snapshot_of(reading: Option<SessionReading>) -> Option<MediaDataView> {
    match reading {
        Some(session) => match (
            session.status,
            session.properties,
            session.source_app_user_model_id,
        ) {
            (Some(SessionStatus::Playing), Some(properties), Some(player)) => Some(
                MediaDataView {
                    artists: single_artist(properties.artist.deep_view()),
                    album: properties.album_title.deep_view(),
                    title: properties.title.deep_view(),
                    uri: None,
                    player: player@,
                },
            ),
            _ => None,
        },
        None => None,
    }
}

/// The snapshot of what the current session plays, if it plays.
pub fn mediadata(reading: &Option<SessionReading>) -> (out: Option<MediaData>)
    ensures
        match out {
            Some(data) => snapshot_of(*reading) == Some(data@),
            None => snapshot_of(*reading) is None,
        },
{
    let session = match reading {
        Some(session) => session,
        None => { return None; },
    };
    match session.status {
        Some(SessionStatus::Playing) => {},
        _ => { return None; },
    }
    let properties = match &session.properties {
        Some(properties) => properties,
        None => { return None; },
    };
    let player = match &session.source_app_user_model_id {
        Some(player) => copy_string(player),
        None => { return None; },
    };
    let artists = match &properties.artist {
        Some(name) => {
            let mut list: Vec<String> = Vec::new();
            list.push(copy_string(name));
            proof {
                assert(list.deep_view() =~= seq![name@]);
            }
            Some(list)
        },
        None => None,
    };
    Some(
        MediaData {
            artists,
            album: copy_optional_string(&properties.album_title),
            title: copy_optional_string(&properties.title),
            uri: None,
            player,
        },
    )
}

} // verus!
