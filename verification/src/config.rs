//! The records that describe a camera, its streams and what can go wrong
//! with a session.
use vstd::prelude::*;
use crate::text::str_eq;

verus! {

/// How the video of a stream is encoded.
#[derive(Clone, Copy, Debug, PartialEq, Eq, Structural)]
pub enum VidFormat {
    /// Not known yet.
    Unknown,
    H264,
    H265,
}

/// How the audio of a stream is encoded.
#[derive(Clone, Copy, Debug, PartialEq, Eq, Structural)]
pub enum AudFormat {
    /// The stream carries no audio.
    Absent,
    Aac,
    /// ADPCM with the given block size.
    Adpcm(u32),
}

/// Encoding hints for one stream.
#[derive(Clone, Copy, Debug, PartialEq, Eq, Structural)]
pub struct StreamConfig {
    pub vid_format: VidFormat,
    pub aud_format: AudFormat,
    pub bitrate: u32,
}

/// Where the messages about one camera are published.
#[derive(Debug)]
pub struct MqttConfig {
    pub server: String,
    pub port: u16,
}

/// How to reach and treat one camera. A configuration is replaced whole,
/// never edited in place.
#[derive(Debug)]
pub struct CameraConfig {
    pub name: String,
    pub address: String,
    pub username: String,
    pub password: Option<String>,
    /// Report lag to a slow subscriber instead of skipping frames silently.
    pub strict: bool,
    /// Failed handshakes after which the creation of a session gives up.
    pub max_attempts: u32,
    pub stream: StreamConfig,
    /// Present if the camera is bridged to a message broker.
    pub mqtt: Option<MqttConfig>,
}

/// Failures that a consumer of a session can meet.
#[derive(Clone, Copy, Debug, PartialEq, Eq, Structural)]
pub enum SessionError {
    /// The first handshake did not succeed within the attempt budget.
    ConnectError,
    /// The session has been shut down.
    SessionClosed,
    /// No connection is published at the moment.
    NotConnected,
    /// The track cannot be had from the session.
    SubscriptionUnavailable,
}

/// A media stream component of the camera.
#[derive(Clone, Copy, Debug, PartialEq, Eq, Structural)]
pub enum Track {
    PrimaryVideo,
    SecondaryVideo,
    Audio,
}

/// Number of tracks.
pub const TRACKS: usize = 3;

impl Track {
    /// Position of the track among all tracks.
    pub open spec fn spec_index(self) -> int {
        match self {
            Track::PrimaryVideo => 0,
            Track::SecondaryVideo => 1,
            Track::Audio => 2,
        }
    }

    /// The track's name as plain characters.
    pub open spec fn spec_name(self) -> Seq<char> {
        match self {
            Track::PrimaryVideo => "primary-video"@,
            Track::SecondaryVideo => "secondary-video"@,
            Track::Audio => "audio"@,
        }
    }

    /// The track that a name stands for, if any.
    pub open spec fn spec_from_name(name: Seq<char>) -> Option<Track> {
        if name == "primary-video"@ {
            Some(Track::PrimaryVideo)
        } else if name == "secondary-video"@ {
            Some(Track::SecondaryVideo)
        } else if name == "audio"@ {
            Some(Track::Audio)
        } else {
            None
        }
    }

    /// Position of the track among all tracks, below [`TRACKS`].
    pub fn index(self) -> (i: usize)
        ensures
            i == self.spec_index(),
            i < TRACKS,
    {
        match self {
            Track::PrimaryVideo => 0,
            Track::SecondaryVideo => 1,
            Track::Audio => 2,
        }
    }

    /// The track at a position, if the position is below [`TRACKS`].
    pub fn from_index(i: usize) -> (track: Option<Track>)
        ensures
            i < TRACKS ==> track.is_some() && track.unwrap().spec_index() == i,
            i >= TRACKS ==> track.is_none(),
    {
        if i == 0 {
            Some(Track::PrimaryVideo)
        } else if i == 1 {
            Some(Track::SecondaryVideo)
        } else if i == 2 {
            Some(Track::Audio)
        } else {
            None
        }
    }

    /// The name under which consumers ask for the track.
    pub fn name(self) -> (name: &'static str)
        ensures
            name@ == self.spec_name(),
    {
        match self {
            Track::PrimaryVideo => "primary-video",
            Track::SecondaryVideo => "secondary-video",
            Track::Audio => "audio",
        }
    }

    /// Finds the track that a name stands for.
    pub fn from_name(name: &str) -> (track: Option<Track>)
        ensures
            track == Track::spec_from_name(name@),
    {
        if str_eq(name, "primary-video") {
            Some(Track::PrimaryVideo)
        } else if str_eq(name, "secondary-video") {
            Some(Track::SecondaryVideo)
        } else if str_eq(name, "audio") {
            Some(Track::Audio)
        } else {
            None
        }
    }
}

/// Every track is found again under its own name.
pub proof fn lemma_track_name_round_trip(track: Track)
    ensures
        Track::spec_from_name(track.spec_name()) == Some(track),
{
    reveal_strlit("primary-video");
    reveal_strlit("secondary-video");
    reveal_strlit("audio");
    assert("primary-video"@.len() == 13);
    assert("secondary-video"@.len() == 15);
    assert("audio"@.len() == 5);
}

} // verus!
