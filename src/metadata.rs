//! Looking up tags and track metadata in what the decoder's probe of a file
//! found.

use vstd::prelude::*;
use vstd::string::StringExecFns;

use crate::clock::{elapsed_at, elapsed_of, Elapsed, TimeBase};
use crate::tags::AudioTag;
use crate::text::{decimal, decimal_padded, padded_decimal, u64_to_string};

verus! {

/// Codec parameters of a track, as far as the tools read them.
#[derive(Clone, Copy, Debug)]
pub struct CodecParams {
    /// The track's codec is a known one, not the null codec.
    pub codec_known: bool,
    pub sample_rate: Option<u32>,
    /// Number of frames in the track, when known.
    pub n_frames: Option<u64>,
    /// Timestamp of the first frame.
    pub start_ts: u64,
    pub time_base: Option<TimeBase>,
    /// Channel layout as a bit mask, one bit per channel.
    pub channels: Option<u32>,
}

#[derive(Clone, Copy, Debug)]
pub struct Track {
    pub id: u32,
    pub codec_params: CodecParams,
}

/// Standard tag keys that the tools look up; `Other` stands for every other
/// standard key.
#[derive(Clone, Copy, Debug, PartialEq, Eq, Structural)]
pub enum TagKey {
    Artist,
    Album,
    Bpm,
    Date,
    Genre,
    Lyrics,
    TrackNumber,
    TrackTitle,
    Other,
}

/// One tag of a file: its standard key when it has one, its key as written
/// in the file, and its value as text.
#[derive(Clone, Debug)]
pub struct Tag {
    pub std_key: Option<TagKey>,
    pub key: String,
    pub value: String,
}

/// What a probe of a file found: its tracks, the tags of the container's
/// current metadata revision, and the tags found while probing.
#[derive(Clone, Debug)]
pub struct MediaInfo {
    pub tracks: Vec<Track>,
    pub container_tags: Option<Vec<Tag>>,
    pub probe_tags: Option<Vec<Tag>>,
}

/// The text of an optional string.
pub open spec fn opt_text(o: Option<String>) -> Option<Seq<char>> {
    match o {
        Some(s) => Some(s@),
        None => None,
    }
}

/// Number of set bits of `x`.
pub open spec fn ones(x: nat) -> nat
    decreases x,
{
    if x == 0 {
        0
    } else {
        (x % 2) + ones(x / 2)
    }
}

proof fn lemma_ones_bounded(x: nat)
    ensures
        ones(x) <= x,
        x % 2 <= ones(x),
    decreases x,
{
    if x > 0 {
        lemma_ones_bounded(x / 2);
    }
}

/// Number of channels in a channel mask.
pub fn channel_count(mask: u32) -> (r: u32)
    ensures
        r == ones(mask as nat),
{
    let mut m: u32 = mask;
    let mut c: u32 = 0;
    proof {
        lemma_ones_bounded(mask as nat);
    }
    while m > 0
        invariant
            c + ones(m as nat) == ones(mask as nat),
            ones(mask as nat) <= mask,
        decreases m,
    {
        proof {
            lemma_ones_bounded(m as nat);
        }
        c = c + m % 2;
        m = m / 2;
    }
    c
}

/// The time base is usable for conversions.
pub open spec fn time_base_ok(p: CodecParams) -> bool {
    p.time_base matches Some(tb) ==> tb.wf()
}

impl MediaInfo {
    /// Every track's time base, where there is one, is usable.
    pub open spec fn wf(&self) -> bool {
        forall|i: int| 0 <= i < self.tracks@.len() ==> time_base_ok(#[trigger] self.tracks@[i].codec_params)
    }
}

/// Milliseconds into the current minute, the fraction rounded half up.
pub open spec fn millis_of(e: Elapsed) -> nat {
    (e.seconds * 1000 + (e.frac_num * 2000 + e.frac_den) / (2 * e.frac_den as int)) as nat
}

/// `h:mm:ss.sss` for timestamp `ts`.
pub open spec fn time_text(ts: u64, tb: TimeBase) -> Seq<char> {
    let e = elapsed_of(ts, tb);
    let ms = millis_of(e);
    decimal(e.hours as nat) + ":"@ + decimal_padded(e.minutes as nat, 2) + ":"@ + decimal_padded(
        ms / 1000,
        2,
    ) + "."@ + decimal_padded(ms % 1000, 3)
}

/// Formats timestamp `ts` as hours, minutes and seconds to the millisecond.
pub fn fmt_time(ts: u64, tb: TimeBase) -> (r: String)
    requires
        tb.wf(),
    ensures
        r@ == time_text(ts, tb),
{
    let e = elapsed_at(ts, tb);
    let num = e.frac_num as u64;
    let den = e.frac_den as u64;
    assert(num * 2000 + den <= 0xffff_ffff * 2000 + 0xffff_ffff) by (nonlinear_arith)
        requires num < den, den <= 0xffff_ffff;
    let ms: u64 = e.seconds * 1000 + (num * 2000 + den) / (2 * den);
    assert((num * 2000 + den) / (2 * den) <= 1000) by (nonlinear_arith)
        requires num < den, den > 0;
    let mut out = u64_to_string(e.hours);
    out.append(":");
    out.append(padded_decimal(e.minutes, 2).as_str());
    out.append(":");
    out.append(padded_decimal(ms / 1000, 2).as_str());
    out.append(".");
    out.append(padded_decimal(ms % 1000, 3).as_str());
    out
}

/// The track's duration: as a time when the track has a time base, else as
/// a number of frames.
pub open spec fn duration_text(p: CodecParams) -> Option<Seq<char>> {
    match p.n_frames {
        Some(n) => match p.time_base {
            Some(tb) => Some(time_text(n, tb)),
            None => Some(decimal(n as nat)),
        },
        None => None,
    }
}

pub fn get_duration(params: &CodecParams) -> (r: Option<String>)
    requires
        time_base_ok(*params),
    ensures
        opt_text(r) == duration_text(*params),
{
    match params.n_frames {
        Some(n) => match params.time_base {
            Some(tb) => Some(fmt_time(n, tb)),
            None => Some(u64_to_string(n)),
        },
        None => None,
    }
}

pub fn get_sample_rate(params: &CodecParams) -> (r: Option<String>)
    ensures
        opt_text(r) == (match params.sample_rate {
            Some(rate) => Some(decimal(rate as nat)),
            None => None,
        }),
{
    match params.sample_rate {
        Some(rate) => Some(u64_to_string(rate as u64)),
        None => None,
    }
}

pub fn get_channels(params: &CodecParams) -> (r: Option<String>)
    ensures
        opt_text(r) == (match params.channels {
            Some(mask) => Some(decimal(ones(mask as nat))),
            None => None,
        }),
{
    match params.channels {
        Some(mask) => Some(u64_to_string(channel_count(mask) as u64)),
        None => None,
    }
}

pub fn get_frame_number(params: &CodecParams) -> (r: Option<String>)
    ensures
        opt_text(r) == (match params.n_frames {
            Some(n) => Some(decimal(n as nat)),
            None => None,
        }),
{
    match params.n_frames {
        Some(n) => Some(u64_to_string(n)),
        None => None,
    }
}

/// What the first track's parameters say of `target`, if they say anything.
pub open spec fn track_text(tracks: Seq<Track>, target: AudioTag) -> Option<Seq<char>> {
    if tracks.len() == 0 {
        None
    } else {
        let p = tracks[0].codec_params;
        match target {
            AudioTag::Duration => duration_text(p),
            AudioTag::FrameRate => match p.sample_rate {
                Some(rate) => Some(decimal(rate as nat)),
                None => None,
            },
            AudioTag::ChannelsNumber => match p.channels {
                Some(mask) => Some(decimal(ones(mask as nat))),
                None => None,
            },
            AudioTag::TotalFrames => match p.n_frames {
                Some(n) => Some(decimal(n as nat)),
                None => None,
            },
            _ => None,
        }
    }
}

pub fn get_tracks_string(tracks: &Vec<Track>, target: &AudioTag) -> (r: Option<String>)
    requires
        tracks@.len() > 0 ==> time_base_ok(tracks@[0].codec_params),
    ensures
        opt_text(r) == track_text(tracks@, *target),
{
    if tracks.len() == 0 {
        return None;
    }
    let params = &tracks[0].codec_params;
    match target {
        AudioTag::Duration => get_duration(params),
        AudioTag::FrameRate => get_sample_rate(params),
        AudioTag::ChannelsNumber => get_channels(params),
        AudioTag::TotalFrames => get_frame_number(params),
        _ => None,
    }
}

/// The standard key under which a tag is stored; `None` for the targets that
/// are track metadata.
pub open spec fn std_key_of(target: AudioTag) -> Option<TagKey> {
    match target {
        AudioTag::Artist => Some(TagKey::Artist),
        AudioTag::Album => Some(TagKey::Album),
        AudioTag::Bpm => Some(TagKey::Bpm),
        AudioTag::Date => Some(TagKey::Date),
        AudioTag::Genre => Some(TagKey::Genre),
        AudioTag::Lyrics => Some(TagKey::Lyrics),
        AudioTag::TrackNumber => Some(TagKey::TrackNumber),
        AudioTag::TrackName => Some(TagKey::TrackTitle),
        _ => None,
    }
}

pub fn get_stantard_tag_key(target: &AudioTag) -> (r: Option<TagKey>)
    ensures
        r == std_key_of(*target),
{
    match target {
        AudioTag::Artist => Some(TagKey::Artist),
        AudioTag::Album => Some(TagKey::Album),
        AudioTag::Bpm => Some(TagKey::Bpm),
        AudioTag::Date => Some(TagKey::Date),
        AudioTag::Genre => Some(TagKey::Genre),
        AudioTag::Lyrics => Some(TagKey::Lyrics),
        AudioTag::TrackNumber => Some(TagKey::TrackNumber),
        AudioTag::TrackName => Some(TagKey::TrackTitle),
        _ => None,
    }
}

/// A tag answers `target` when both have a standard key and the keys agree.
pub open spec fn tag_matches(tag: Tag, target: AudioTag) -> bool {
    tag.std_key is Some && std_key_of(target) == tag.std_key
}

pub fn get_matching_tag<'a>(tag: &'a Tag, target: &AudioTag) -> (r: Option<&'a String>)
    ensures
        r is Some <==> tag_matches(*tag, *target),
        r matches Some(v) ==> v@ == tag.value@,
{
    if let Some(std_key) = tag.std_key {
        if let Some(target_key) = get_stantard_tag_key(target) {
            if std_key == target_key {
                return Some(&tag.value);
            }
        }
    }
    None
}

/// The value of the first tag from index `i` on that answers `target`.
pub open spec fn tag_text_from(tags: Seq<Tag>, target: AudioTag, i: int) -> Option<Seq<char>>
    decreases tags.len() - i,
{
    if i < 0 || i >= tags.len() {
        None
    } else if tag_matches(tags[i], target) {
        Some(tags[i].value@)
    } else {
        tag_text_from(tags, target, i + 1)
    }
}

/// The value of the first tag that answers `target`.
pub open spec fn tag_text(tags: Seq<Tag>, target: AudioTag) -> Option<Seq<char>> {
    tag_text_from(tags, target, 0)
}

pub fn get_tag_string(tags: &Vec<Tag>, target: &AudioTag) -> (r: Option<String>)
    ensures
        opt_text(r) == tag_text(tags@, *target),
{
    let mut i: usize = 0;
    while i < tags.len()
        invariant
            i <= tags@.len(),
            tag_text(tags@, *target) == tag_text_from(tags@, *target, i as int),
        decreases tags@.len() - i,
    {
        if let Some(value) = get_matching_tag(&tags[i], target) {
            return Some(value.clone());
        }
        i = i + 1;
    }
    None
}

/// What the file says of `target`: the first track's parameters first, then
/// the tags of the container's current revision, else the tags found while
/// probing.
pub open spec fn metadata_text(info: MediaInfo, target: AudioTag) -> Option<Seq<char>> {
    match track_text(info.tracks@, target) {
        Some(t) => Some(t),
        None => match info.container_tags {
            Some(tags) => tag_text(tags@, target),
            None => match info.probe_tags {
                Some(tags) => tag_text(tags@, target),
                None => None,
            },
        },
    }
}

/// Looks up each of `target` in what a probe found, in the order given.
pub fn get_metadata_string(info: &MediaInfo, target: &Vec<AudioTag>) -> (r: Vec<Option<String>>)
    requires
        info.wf(),
    ensures
        r@.len() == target@.len(),
        forall|i: int| 0 <= i < target@.len() ==> opt_text(#[trigger] r@[i]) == metadata_text(*info, target@[i]),
{
    let mut content_list: Vec<Option<String>> = Vec::new();
    let mut i: usize = 0;
    while i < target.len()
        invariant
            info.wf(),
            i <= target@.len(),
            content_list@.len() == i,
            forall|k: int| 0 <= k < i ==> opt_text(#[trigger] content_list@[k]) == metadata_text(*info, target@[k]),
        decreases target@.len() - i,
    {
        let tag = &target[i];
        if info.tracks.len() > 0 {
            assert(time_base_ok(info.tracks@[0].codec_params));
        }
        let content = match get_tracks_string(&info.tracks, tag) {
            Some(item) => Some(item),
            None => match &info.container_tags {
                Some(tags) => get_tag_string(tags, tag),
                None => match &info.probe_tags {
                    Some(tags) => get_tag_string(tags, tag),
                    None => None,
                },
            },
        };
        content_list.push(content);
        i = i + 1;
    }
    content_list
}

/// The metadata reader backed by the decoding engine's probe.
#[derive(Clone, Copy, Debug)]
pub struct SymphoniaWrapper;

impl SymphoniaWrapper {
    /// Looks up each of `target` in what the probe of a file found.
    pub fn get_metadata_string(&self, info: &MediaInfo, target: &Vec<AudioTag>) -> (r: Vec<
        Option<String>,
    >)
        requires
            info.wf(),
        ensures
            r@.len() == target@.len(),
            forall|i: int|
                0 <= i < target@.len() ==> opt_text(#[trigger] r@[i]) == metadata_text(
                    *info,
                    target@[i],
                ),
    {
        get_metadata_string(info, target)
    }
}

} // verus!
