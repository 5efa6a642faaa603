//! Names of the tags and metadata that the audio tools can look up.

use vstd::prelude::*;

use crate::text::text_eq;

verus! {

#[derive(Clone, Copy, Debug, PartialEq, Eq, Structural)]
pub enum AudioTag {
    // Tags
    Artist,
    Album,
    Bpm,
    Date,
    Genre,
    Lyrics,
    TrackNumber,
    TrackName,
    // Metadata
    Duration,
    FrameRate,
    ChannelsNumber,
    /// Total frames count
    TotalFrames,
    Unknown,
}

/// The tag that a name designates; any other name is `Unknown`.
pub open spec fn audio_tag_of(name: Seq<char>) -> AudioTag {
    if name == "artist"@ {
        AudioTag::Artist
    } else if name == "album"@ {
        AudioTag::Album
    } else if name == "bpm"@ {
        AudioTag::Bpm
    } else if name == "date"@ {
        AudioTag::Date
    } else if name == "genre"@ {
        AudioTag::Genre
    } else if name == "lyrics"@ {
        AudioTag::Lyrics
    } else if name == "trackNumber"@ {
        AudioTag::TrackNumber
    } else if name == "trackName"@ {
        AudioTag::TrackName
    } else if name == "duration"@ {
        AudioTag::Duration
    } else if name == "frameRate"@ {
        AudioTag::FrameRate
    } else if name == "channelsNumber"@ {
        AudioTag::ChannelsNumber
    } else if name == "totalFrames"@ {
        AudioTag::TotalFrames
    } else {
        AudioTag::Unknown
    }
}

pub fn from_str_to_audio_tag(value: &str) -> (r: AudioTag)
    ensures
        r == audio_tag_of(value@),
{
    if text_eq(value, "artist") {
        AudioTag::Artist
    } else if text_eq(value, "album") {
        AudioTag::Album
    } else if text_eq(value, "bpm") {
        AudioTag::Bpm
    } else if text_eq(value, "date") {
        AudioTag::Date
    } else if text_eq(value, "genre") {
        AudioTag::Genre
    } else if text_eq(value, "lyrics") {
        AudioTag::Lyrics
    } else if text_eq(value, "trackNumber") {
        AudioTag::TrackNumber
    } else if text_eq(value, "trackName") {
        AudioTag::TrackName
    } else if text_eq(value, "duration") {
        AudioTag::Duration
    } else if text_eq(value, "frameRate") {
        AudioTag::FrameRate
    } else if text_eq(value, "channelsNumber") {
        AudioTag::ChannelsNumber
    } else if text_eq(value, "totalFrames") {
        AudioTag::TotalFrames
    } else {
        AudioTag::Unknown
    }
}

impl<'a> From<&'a str> for AudioTag {
    fn from(value: &'a str) -> (r: AudioTag)
        ensures
            r == audio_tag_of(value@),
    {
        from_str_to_audio_tag(value)
    }
}

impl<'a> vstd::std_specs::convert::FromSpecImpl<&'a str> for AudioTag {
    open spec fn obeys_from_spec() -> bool {
        true
    }

    open spec fn from_spec(v: &'a str) -> AudioTag {
        audio_tag_of(v@)
    }
}

impl<'a> From<&'a String> for AudioTag {
    fn from(value: &'a String) -> (r: AudioTag)
        ensures
            r == audio_tag_of(value@),
    {
        from_str_to_audio_tag(value.as_str())
    }
}

impl<'a> vstd::std_specs::convert::FromSpecImpl<&'a String> for AudioTag {
    open spec fn obeys_from_spec() -> bool {
        true
    }

    open spec fn from_spec(v: &'a String) -> AudioTag {
        audio_tag_of(v@)
    }
}

} // verus!
