use audio_sync::beats::{beat_detection, BeatDetection};
use audio_sync::clock::TimeBase;
use audio_sync::formats::{check_audio_format, match_audio_type, AudioFormat};
use audio_sync::metadata::{
    channel_count, fmt_time, get_metadata_string, CodecParams, MediaInfo, SymphoniaWrapper, Tag,
    TagKey, Track,
};
use audio_sync::overlay::first_channel;
use audio_sync::progress::{progress_bar, progress_steps};
use audio_sync::report::print_tag_item;
use audio_sync::tags::{from_str_to_audio_tag, AudioTag};
use audio_sync::text::u64_to_string;

#[test]
fn tag_names_map_to_tags() {
    let names = [
        ("artist", AudioTag::Artist),
        ("album", AudioTag::Album),
        ("bpm", AudioTag::Bpm),
        ("date", AudioTag::Date),
        ("genre", AudioTag::Genre),
        ("lyrics", AudioTag::Lyrics),
        ("trackNumber", AudioTag::TrackNumber),
        ("trackName", AudioTag::TrackName),
        ("duration", AudioTag::Duration),
        ("frameRate", AudioTag::FrameRate),
        ("channelsNumber", AudioTag::ChannelsNumber),
        ("totalFrames", AudioTag::TotalFrames),
        ("Genre", AudioTag::Unknown),
        ("", AudioTag::Unknown),
    ];
    for (name, tag) in names {
        assert_eq!(from_str_to_audio_tag(name), tag);
        assert_eq!(AudioTag::from(name), tag);
        assert_eq!(AudioTag::from(&String::from(name)), tag);
    }
}

fn params() -> CodecParams {
    CodecParams {
        codec_known: true,
        sample_rate: Some(44100),
        n_frames: Some(2_893_824),
        start_ts: 0,
        time_base: Some(TimeBase { numer: 1, denom: 44100 }),
        channels: Some(0b11),
    }
}

fn tag(std_key: Option<TagKey>, key: &str, value: &str) -> Tag {
    Tag { std_key, key: String::from(key), value: String::from(value) }
}

#[test]
fn time_is_formatted_to_the_millisecond() {
    let tb = TimeBase { numer: 1, denom: 1000 };
    assert_eq!(fmt_time(65_250, tb), "0:01:05.250");
    assert_eq!(fmt_time(7_384_005, tb), "2:03:04.005");
    assert_eq!(fmt_time(0, tb), "0:00:00.000");
    let tb = TimeBase { numer: 1, denom: 44100 };
    assert_eq!(fmt_time(2_893_824, tb), "0:01:05.620");
    let tb = TimeBase { numer: 1, denom: 3 };
    assert_eq!(fmt_time(2, tb), "0:00:00.667");
    let tb = TimeBase { numer: 1, denom: 100_000 };
    assert_eq!(fmt_time(5_999_999, tb), "0:00:60.000");
}

#[test]
fn channel_mask_counts_channels() {
    assert_eq!(channel_count(0), 0);
    assert_eq!(channel_count(0b1), 1);
    assert_eq!(channel_count(0b1011), 3);
    assert_eq!(channel_count(u32::MAX), 32);
}

#[test]
fn metadata_comes_from_track_then_container_tags() {
    let info = MediaInfo {
        tracks: vec![Track { id: 0, codec_params: params() }],
        container_tags: Some(vec![
            tag(None, "GENRE_X", "Noise"),
            tag(Some(TagKey::Other), "COMMENT", "hello"),
            tag(Some(TagKey::Genre), "TCON", "Metal"),
            tag(Some(TagKey::Genre), "TCON", "Rock"),
            tag(Some(TagKey::TrackTitle), "TIT2", "Song"),
        ]),
        probe_tags: Some(vec![tag(Some(TagKey::Artist), "TPE1", "Probed")]),
    };
    let targets = vec![
        AudioTag::Genre,
        AudioTag::FrameRate,
        AudioTag::ChannelsNumber,
        AudioTag::TotalFrames,
        AudioTag::Duration,
        AudioTag::TrackName,
        AudioTag::Artist,
        AudioTag::Unknown,
    ];
    let expected = vec![
        Some(String::from("Metal")),
        Some(String::from("44100")),
        Some(String::from("2")),
        Some(String::from("2893824")),
        Some(String::from("0:01:05.620")),
        Some(String::from("Song")),
        None,
        None,
    ];
    assert_eq!(get_metadata_string(&info, &targets), expected);
    assert_eq!(SymphoniaWrapper.get_metadata_string(&info, &targets), expected);
}

#[test]
fn metadata_falls_back_to_probe_tags() {
    let mut p = params();
    p.time_base = None;
    p.sample_rate = None;
    let info = MediaInfo {
        tracks: vec![Track { id: 0, codec_params: p }],
        container_tags: None,
        probe_tags: Some(vec![tag(Some(TagKey::Artist), "TPE1", "Probed")]),
    };
    let targets = vec![AudioTag::Artist, AudioTag::Duration, AudioTag::FrameRate];
    assert_eq!(
        get_metadata_string(&info, &targets),
        vec![Some(String::from("Probed")), Some(String::from("2893824")), None]
    );
    let empty = MediaInfo { tracks: vec![], container_tags: None, probe_tags: None };
    assert_eq!(get_metadata_string(&empty, &targets), vec![None, None, None]);
}

#[test]
fn audio_extensions_are_recognised() {
    assert_eq!(match_audio_type("mp3"), Some(AudioFormat::Mp3));
    assert_eq!(match_audio_type("flac"), Some(AudioFormat::Flac));
    assert_eq!(match_audio_type("MP3"), None);
    assert!(check_audio_format(Some("flac")));
    assert!(!check_audio_format(Some("wav")));
    assert!(!check_audio_format(None));
}

#[test]
fn first_channel_keeps_every_nth_sample() {
    let samples = vec![1, 2, 3, 4, 5, 6, 7];
    assert_eq!(first_channel(&samples, 2), vec![1, 3, 5, 7]);
    assert_eq!(first_channel(&samples, 3), vec![1, 4, 7]);
    assert_eq!(first_channel(&samples, 1), samples);
    assert_eq!(first_channel(&samples, 0), Vec::<i32>::new());
    assert_eq!(first_channel(&Vec::<f32>::new(), 2), Vec::<f32>::new());
    assert_eq!(first_channel(&vec![0.5f32, -0.5, 0.25, -0.25], 2), vec![0.5f32, 0.25]);
}

#[test]
fn progress_bar_fills_with_position() {
    assert_eq!(progress_steps(0, 100), 0);
    assert_eq!(progress_steps(50, 100), 30);
    assert_eq!(progress_steps(100, 100), 60);
    assert_eq!(progress_steps(200, 100), 60);
    assert_eq!(progress_steps(5, 0), 0);
    assert_eq!(progress_steps(u64::MAX, u64::MAX), 1);
    let bar = progress_bar(50, 100);
    assert_eq!(bar, format!("[{}{}]", "\u{25a0}".repeat(30), " ".repeat(30)));
    assert_eq!(progress_bar(0, 0), format!("[{}]", " ".repeat(60)));
    assert_eq!(progress_bar(1, 1), format!("[{}]", "\u{25a0}".repeat(60)));
}

#[test]
fn beat_detection_names() {
    assert_eq!(beat_detection("Energy"), BeatDetection::Energy);
    assert_eq!(beat_detection("Hfc"), BeatDetection::Hfc);
    assert_eq!(beat_detection("Complex"), BeatDetection::Complex);
    assert_eq!(beat_detection("Phase"), BeatDetection::Phase);
    assert_eq!(beat_detection("WPhase"), BeatDetection::WPhase);
    assert_eq!(beat_detection("SpecDiff"), BeatDetection::SpecDiff);
    assert_eq!(beat_detection("Kl"), BeatDetection::Kl);
    assert_eq!(beat_detection("Mkl"), BeatDetection::Mkl);
    assert_eq!(beat_detection("SpecFlux"), BeatDetection::SpecFlux);
    assert_eq!(beat_detection("energy"), BeatDetection::SpecFlux);
}

/// The layout as the report's format strings give it.
fn expected_tag_item(idx: usize, key: &str, value: &str, indent: usize) -> String {
    let key_str = match key.len() {
        0..=28 => format!("| {:w$}[{:0>2}] {:<28} : ", "", idx, key, w = indent),
        _ => format!("| {:w$}[{:0>2}] {:.<28} : ", "", idx, key.split_at(26).0, w = indent),
    };
    let line_prefix = format!("\n| {:w$} : ", "", w = indent + 4 + 28 + 1);
    let line_wrap_prefix = format!("\n| {:w$}   ", "", w = indent + 4 + 28 + 1);
    let mut out = String::new();
    out.push_str(&key_str);
    for (wrapped, line) in value.lines().enumerate() {
        if wrapped > 0 {
            out.push_str(&line_prefix);
        }
        let mut chars = line.chars();
        let split = (0..)
            .map(|_| chars.by_ref().take(72).collect::<String>())
            .take_while(|s| !s.is_empty())
            .collect::<Vec<_>>();
        out.push_str(&split.join(&line_wrap_prefix));
    }
    out
}

#[test]
fn tag_item_layout() {
    let long_line = "x".repeat(150);
    let cases: Vec<(usize, &str, String, usize)> = vec![
        (1, "Artist", String::from("Someone"), 4),
        (12, "AVeryLongTagKeyThatGoesOnAndOn", String::from("v"), 4),
        (3, "ExactlyTwentyEightCharsKey!!", String::from(""), 21),
        (4, "Lyrics", String::from("first\r\nsecond\n\nfourth\n"), 4),
        (5, "Comment", long_line.clone(), 21),
        (6, "Comment", format!("{}\n{}", "y".repeat(72), "z".repeat(144)), 4),
        (7, "Cr", String::from("a\rb\r"), 0),
        (100, "", String::from("\n"), 4),
    ];
    for (idx, key, value, indent) in cases {
        assert_eq!(
            print_tag_item(idx, key, &value, indent),
            expected_tag_item(idx, key, &value, indent),
            "{:?} {:?}",
            key,
            value
        );
    }
    assert_eq!(print_tag_item(2, "Genre", "Metal", 4), "|     [02] Genre                        : Metal");
}

#[test]
fn numbers_are_written_in_decimal() {
    assert_eq!(u64_to_string(0), "0");
    assert_eq!(u64_to_string(7), "7");
    assert_eq!(u64_to_string(10), "10");
    assert_eq!(u64_to_string(44100), "44100");
    assert_eq!(u64_to_string(u64::MAX), "18446744073709551615");
}
