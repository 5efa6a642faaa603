//! Which files the library tools treat as audio.

use vstd::prelude::*;

use crate::text::text_eq;

verus! {

/// Audio formats recognised by file extension.
#[derive(Clone, Copy, Debug, PartialEq, Eq, Structural)]
pub enum AudioFormat {
    Mp3,
    Flac,
}

/// The format that a file extension designates.
pub open spec fn format_of(extension: Seq<char>) -> Option<AudioFormat> {
    if extension == "mp3"@ {
        Some(AudioFormat::Mp3)
    } else if extension == "flac"@ {
        Some(AudioFormat::Flac)
    } else {
        None
    }
}

pub fn match_audio_type(extension: &str) -> (r: Option<AudioFormat>)
    ensures
        r == format_of(extension@),
{
    if text_eq(extension, "mp3") {
        Some(AudioFormat::Mp3)
    } else if text_eq(extension, "flac") {
        Some(AudioFormat::Flac)
    } else {
        None
    }
}

/// Whether a file with this extension (none, or not valid text, when
/// `None`) is an audio file.
pub fn check_audio_format(extension: Option<&str>) -> (r: bool)
    ensures
        r == (extension matches Some(e) && format_of(e@) is Some),
{
    match extension {
        Some(ext) => match_audio_type(ext).is_some(),
        None => false,
    }
}

} // verus!
