//! What is known of the streams of a medium: the snapshot that a discovery
//! yields, built from the plain facts that the discoverer reports.

use vstd::prelude::*;
use crate::clock::FrameRate;

verus! {

/// One video stream of a medium.
#[derive(Debug)]
pub struct VideoStream {
    pub name: Option<String>,
    pub fps: Option<FrameRate>,
    pub bitrate: Option<u32>,
    pub max_bitrate: Option<u32>,
    pub resolution: Option<(u32, u32)>,
    pub codec: Option<String>,
    pub index: Option<u32>,
}

/// One audio stream of a medium.
#[derive(Debug)]
pub struct AudioStream {
    pub name: Option<String>,
    pub codec: Option<String>,
    pub bitrate: Option<u32>,
    pub index: Option<u32>,
}

/// The streams found in a medium. Each entry carries the position that its
/// stream had among the streams of its kind.
#[derive(Debug)]
pub struct Probe {
    pub uri: String,
    pub captions: Vec<(Option<String>, usize)>,
    pub audio_streams: Vec<(AudioStream, usize)>,
    pub video_streams: Vec<(VideoStream, usize)>,
}

/// The tags of a stream, as far as the probe reads them.
#[derive(Debug)]
pub struct StreamTags {
    pub title: Option<String>,
    pub video_codec: Option<String>,
    pub audio_codec: Option<String>,
    pub bitrate: Option<u32>,
    /// The track number that the container gave, as the container wrote it.
    pub container_track_id: Option<String>,
}

/// A video stream as the discoverer reports it.
#[derive(Debug)]
pub struct DiscoveredVideo {
    pub framerate: FrameRate,
    pub bitrate: u32,
    pub max_bitrate: u32,
    pub width: u32,
    pub height: u32,
    pub tags: Option<StreamTags>,
}

/// The value of a decimal digit.
pub open spec fn digit_value(c: char) -> Option<nat> {
    if '0' <= c <= '9' {
        Some((c as nat - '0' as nat) as nat)
    } else {
        None
    }
}

/// Every character is a decimal digit.
pub open spec fn all_digits(s: Seq<char>) -> bool {
    forall|i: int| 0 <= i < s.len() ==> (#[trigger] digit_value(s[i])) is Some
}

/// The number that a sequence of decimal digits writes.
pub open spec fn digits_value(s: Seq<char>) -> nat
    decreases s.len(),
{
    if s.len() == 0 {
        0
    } else {
        digits_value(s.drop_last()) * 10 + digit_value(s.last()).unwrap_or(0)
    }
}

/// What follows an optional plus sign.
pub open spec fn without_plus(s: Seq<char>) -> Seq<char> {
    if s.len() > 0 && s[0] == '+' {
        s.skip(1)
    } else {
        s
    }
}

/// The track number that a container's track id writes: decimal digits,
/// at least one, with an optional plus sign before them and nothing else,
/// and no larger than 32 bits hold.
pub open spec fn track_number(s: Seq<char>) -> Option<u32> {
    let digits = without_plus(s);
    if digits.len() > 0 && all_digits(digits) && digits_value(digits) <= u32::MAX {
        Some(digits_value(digits) as u32)
    } else {
        None
    }
}

/// The number written by the first digits is never larger than the number
/// written by all of them.
pub proof fn lemma_digits_value_grows(s: Seq<char>, n: int)
    requires
        0 <= n <= s.len(),
    ensures
        digits_value(s.take(n)) <= digits_value(s),
    decreases s.len() - n,
{
    if n == s.len() {
        assert(s.take(n) =~= s);
    } else {
        lemma_digits_value_grows(s.drop_last(), n);
        assert(s.drop_last().take(n) =~= s.take(n));
    }
}

/// Reads a container's track id as a number.
pub fn parse_track_number(text: &str) -> (r: Option<u32>)
    ensures
        r == track_number(text@),
{
    let len = text.unicode_len();
    let first: usize = if len > 0 && text.get_char(0) == '+' { 1 } else { 0 };
    let ghost digits = without_plus(text@);
    assert(digits =~= text@.skip(first as int));
    if first == len {
        return None;
    }
    let mut value: u32 = 0;
    let mut i: usize = first;
    while i < len
        invariant
            first <= i <= len,
            len == text@.len(),
            digits == without_plus(text@),
            digits == text@.skip(first as int),
            digits.len() == len - first,
            all_digits(digits.take(i - first)),
            value == digits_value(digits.take(i - first)),
        decreases len - i,
    {
        let c = text.get_char(i);
        let ghost k = i - first;
        assert(digits[k] == c);
        assert(digits.take(k + 1).drop_last() =~= digits.take(k));
        assert(digits.take(k + 1).last() == c);
        if c < '0' || c > '9' {
            assert(digit_value(digits[k]) is None);
            return None;
        }
        let d: u32 = (c as u32) - ('0' as u32);
        assert(digit_value(c) == Some(d as nat));
        assert(digits_value(digits.take(k + 1)) == value * 10 + d);
        if value > (u32::MAX - d) / 10 {
            proof {
                lemma_digits_value_grows(digits, k + 1);
            }
            return None;
        }
        value = value * 10 + d;
        i = i + 1;
        assert forall|j: int| 0 <= j < digits.take(i - first).len() implies (
        #[trigger] digit_value(digits.take(i - first)[j])) is Some by {
            if j < k {
                assert(digits.take(k)[j] == digits.take(i - first)[j]);
            }
        }
    }
    assert(digits.take(len - first) =~= digits);
    Some(value)
}

/// The track number among a stream's tags, where the container wrote one
/// that reads as a number.
pub open spec fn track_of(tags: StreamTags) -> Option<u32> {
    match tags.container_track_id {
        Some(id) => track_number(id@),
        None => None,
    }
}

/// What the probe keeps of a discovered video stream. Rate, bit rates and
/// size are always known; name, codec and track number come from the tags.
pub open spec fn video_stream_of(found: DiscoveredVideo) -> VideoStream {
    VideoStream {
        name: match found.tags {
            Some(tags) => tags.title,
            None => None,
        },
        fps: Some(found.framerate),
        bitrate: Some(found.bitrate),
        max_bitrate: Some(found.max_bitrate),
        resolution: Some((found.width, found.height)),
        codec: match found.tags {
            Some(tags) => tags.video_codec,
            None => None,
        },
        index: match found.tags {
            Some(tags) => track_of(tags),
            None => None,
        },
    }
}

/// What the probe keeps of the tags of an audio stream.
pub open spec fn audio_stream_of(tags: StreamTags) -> AudioStream {
    AudioStream {
        name: tags.title,
        codec: tags.audio_codec,
        bitrate: tags.bitrate,
        index: track_of(tags),
    }
}

/// The probe's video entries: every stream, in order, with its position.
pub open spec fn video_entries(found: Seq<DiscoveredVideo>) -> Seq<(VideoStream, usize)> {
    Seq::new(found.len(), |i: int| (video_stream_of(found[i]), i as usize))
}

/// The probe's audio entries for the first `n` audio streams: those that
/// have tags, in order, each with its position among all audio streams.
pub open spec fn audio_entries(found: Seq<Option<StreamTags>>, n: nat) -> Seq<(AudioStream, usize)>
    decreases n,
{
    if n == 0 {
        Seq::empty()
    } else {
        let before = audio_entries(found, (n - 1) as nat);
        match found[n - 1] {
            Some(tags) => before.push((audio_stream_of(tags), (n - 1) as usize)),
            None => before,
        }
    }
}

/// The probe's caption entries for the first `n` subtitle streams: the
/// titles of those that have tags, in order, each with its position among all
/// subtitle streams.
pub open spec fn caption_entries(found: Seq<Option<StreamTags>>, n: nat) -> Seq<
    (Option<String>, usize),
>
    decreases n,
{
    if n == 0 {
        Seq::empty()
    } else {
        let before = caption_entries(found, (n - 1) as nat);
        match found[n - 1] {
            Some(tags) => before.push((tags.title, (n - 1) as usize)),
            None => before,
        }
    }
}

/// An entry of the probe never comes from nowhere: each audio entry stands
/// for a tagged stream at the position it names, and the positions rise.
pub proof fn lemma_audio_entries_positions(found: Seq<Option<StreamTags>>, n: nat)
    requires
        n <= found.len(),
        n <= usize::MAX,
    ensures
        audio_entries(found, n).len() <= n,
        forall|k: int|
            0 <= k < audio_entries(found, n).len() ==> {
                let at = (#[trigger] audio_entries(found, n)[k]).1;
                &&& k <= at < n
                &&& found[at as int] matches Some(tags)
                &&& audio_entries(found, n)[k].0 == audio_stream_of(tags)
            },
        forall|j: int, k: int|
            0 <= j < k < audio_entries(found, n).len() ==> (#[trigger] audio_entries(found, n)[j]).1
                < (#[trigger] audio_entries(found, n)[k]).1,
    decreases n,
{
    if n > 0 {
        lemma_audio_entries_positions(found, (n - 1) as nat);
    }
}

fn copy_text(text: &Option<String>) -> (copy: Option<String>)
    ensures
        copy == *text,
{
    match text {
        Some(text) => Some(text.clone()),
        None => None,
    }
}

fn track_index(tags: &StreamTags) -> (index: Option<u32>)
    ensures
        index == track_of(*tags),
{
    match &tags.container_track_id {
        Some(id) => parse_track_number(id.as_str()),
        None => None,
    }
}

impl Probe {
    /// Builds the snapshot of `uri` from what a discovery found there: the
    /// video streams, the tags of each subtitle stream and the tags of each
    /// audio stream, each kind in the discoverer's order. Subtitle and audio
    /// streams without tags are left out; the others keep their positions.
    pub fn from_streams(
        uri: &str,
        video: &Vec<DiscoveredVideo>,
        subtitles: &Vec<Option<StreamTags>>,
        audio: &Vec<Option<StreamTags>>,
    ) -> (probe: Probe)
        ensures
            probe.uri@ == uri@,
            probe.video_streams@ == video_entries(video@),
            probe.captions@ == caption_entries(subtitles@, subtitles@.len()),
            probe.audio_streams@ == audio_entries(audio@, audio@.len()),
    {
        let mut video_streams: Vec<(VideoStream, usize)> = Vec::new();
        let mut i: usize = 0;
        while i < video.len()
            invariant
                i <= video.len(),
                video_streams@ == video_entries(video@.take(i as int)),
            decreases video.len() - i,
        {
            let found = &video[i];
            let stream = match &found.tags {
                Some(tags) => VideoStream {
                    name: copy_text(&tags.title),
                    fps: Some(found.framerate),
                    bitrate: Some(found.bitrate),
                    max_bitrate: Some(found.max_bitrate),
                    resolution: Some((found.width, found.height)),
                    codec: copy_text(&tags.video_codec),
                    index: track_index(tags),
                },
                None => VideoStream {
                    name: None,
                    fps: Some(found.framerate),
                    bitrate: Some(found.bitrate),
                    max_bitrate: Some(found.max_bitrate),
                    resolution: Some((found.width, found.height)),
                    codec: None,
                    index: None,
                },
            };
            video_streams.push((stream, i));
            i = i + 1;
            assert(video_streams@ =~= video_entries(video@.take(i as int)));
        }
        assert(video@.take(i as int) =~= video@);

        let mut captions: Vec<(Option<String>, usize)> = Vec::new();
        let mut j: usize = 0;
        while j < subtitles.len()
            invariant
                j <= subtitles.len(),
                captions@ == caption_entries(subtitles@, j as nat),
            decreases subtitles.len() - j,
        {
            match &subtitles[j] {
                Some(tags) => {
                    captions.push((copy_text(&tags.title), j));
                },
                None => {},
            }
            j = j + 1;
        }

        let mut audio_streams: Vec<(AudioStream, usize)> = Vec::new();
        let mut k: usize = 0;
        while k < audio.len()
            invariant
                k <= audio.len(),
                audio_streams@ == audio_entries(audio@, k as nat),
            decreases audio.len() - k,
        {
            match &audio[k] {
                Some(tags) => {
                    let stream = AudioStream {
                        name: copy_text(&tags.title),
                        codec: copy_text(&tags.audio_codec),
                        bitrate: tags.bitrate,
                        index: track_index(tags),
                    };
                    audio_streams.push((stream, k));
                },
                None => {},
            }
            k = k + 1;
        }

        Probe { uri: uri.to_owned(), captions, audio_streams, video_streams }
    }
}

} // verus!
