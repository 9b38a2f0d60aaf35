//! The normalized report: one typed record for each section, and what each
//! record denotes.

use crate::json::{views, Json, JsonValue};
use vstd::prelude::*;

verus! {

/// What an optional string holds.
pub open spec fn text_view(text: Option<String>) -> Option<Seq<char>> {
    match text {
        Some(t) => Some(t@),
        None => None,
    }
}

/// How the width of a picture relates to its height.
#[derive(Clone, Copy, Debug, PartialEq, Eq)]
pub enum AspectRatio {
    /// The height is 0: there is no ratio to speak of.
    NotApplicable,
    /// The ratio of `width` to `height`, which is not 0.
    Quotient { width: u64, height: u64 },
}

/// The aspect ratio of a picture of `width` by `height` pixels.
pub open spec fn aspect_ratio_of(width: u64, height: u64) -> AspectRatio {
    if height > 0 {
        AspectRatio::Quotient { width, height }
    } else {
        AspectRatio::NotApplicable
    }
}

/// The aspect ratio as text: `quotient` where there is a ratio, and `N/A`
/// where there is none, whatever `quotient` holds.
pub open spec fn aspect_text(ratio: AspectRatio, quotient: Seq<char>) -> Seq<char> {
    match ratio {
        AspectRatio::NotApplicable => "N/A"@,
        AspectRatio::Quotient { .. } => quotient,
    }
}

impl AspectRatio {
    /// The aspect ratio of a picture of `width` by `height` pixels.
    pub fn of(width: u64, height: u64) -> (ratio: AspectRatio)
        ensures
            ratio == aspect_ratio_of(width, height),
    {
        if height > 0 {
            AspectRatio::Quotient { width, height }
        } else {
            AspectRatio::NotApplicable
        }
    }

    /// The ratio as text: `quotient` where there is a ratio, and `N/A` where
    /// there is none, whatever `quotient` holds. The caller forms `quotient`,
    /// the width divided by the height to two decimal places.
    pub fn text(&self, quotient: String) -> (text: String)
        ensures
            text@ == aspect_text(*self, quotient@),
    {
        match self {
            AspectRatio::NotApplicable => "N/A".to_owned(),
            AspectRatio::Quotient { .. } => quotient,
        }
    }
}

/// What is known of the number of frames of a picture stream.
#[derive(Clone, Debug, PartialEq, Eq)]
pub enum FrameCount {
    /// The probe reported the number.
    Reported(u64),
    /// The probe reported none, but the container's duration and a frame rate
    /// of one numerator and one denominator: the number of frames is the
    /// product of the duration and the rate, cut to a whole number, if the
    /// three texts are numbers.
    FromDuration { duration: String, numerator: String, denominator: String },
    /// Nothing to go by.
    Absent,
}

/// What a [`FrameCount`] denotes.
pub enum FrameCountView {
    Reported(u64),
    FromDuration { duration: Seq<char>, numerator: Seq<char>, denominator: Seq<char> },
    Absent,
}

impl View for FrameCount {
    type V = FrameCountView;

    open spec fn view(&self) -> FrameCountView {
        match self {
            FrameCount::Reported(n) => FrameCountView::Reported(*n),
            FrameCount::FromDuration { duration, numerator, denominator } => {
                FrameCountView::FromDuration {
                    duration: duration@,
                    numerator: numerator@,
                    denominator: denominator@,
                }
            },
            FrameCount::Absent => FrameCountView::Absent,
        }
    }
}

impl FrameCountView {
    /// The number of frames, given what the duration and the rate come to.
    pub open spec fn total(self, derived: Option<u64>) -> Option<u64> {
        match self {
            FrameCountView::Reported(n) => Some(n),
            FrameCountView::FromDuration { .. } => derived,
            FrameCountView::Absent => None,
        }
    }
}

impl FrameCount {
    /// The number of frames. `derived` is what the caller made of the duration
    /// and the rate of `FromDuration`; it counts in that case only: a reported
    /// number stands whatever `derived` holds, and where there is nothing to
    /// go by there is no number.
    pub fn total(&self, derived: Option<u64>) -> (total: Option<u64>)
        ensures
            total == self@.total(derived),
    {
        match self {
            FrameCount::Reported(n) => Some(*n),
            FrameCount::FromDuration { .. } => derived,
            FrameCount::Absent => None,
        }
    }
}

/// The container as a whole.
#[derive(Clone, Debug, PartialEq, Eq)]
pub struct FormatInfo {
    pub filename: Json,
    pub format_name: Json,
    pub format_long_name: Json,
    /// The duration as the probe wrote it, where it wrote a string.
    pub duration: Option<String>,
    /// The size in bytes; 0 where the probe gave no number.
    pub size: u64,
    /// The bit rate; 0 where the probe gave no number.
    pub bit_rate: u64,
    pub nb_streams: Json,
    pub nb_programs: Json,
    pub probe_score: Json,
    pub tags: Json,
}

/// What a [`FormatInfo`] denotes.
pub struct FormatView {
    pub filename: JsonValue,
    pub format_name: JsonValue,
    pub format_long_name: JsonValue,
    pub duration: Option<Seq<char>>,
    pub size: u64,
    pub bit_rate: u64,
    pub nb_streams: JsonValue,
    pub nb_programs: JsonValue,
    pub probe_score: JsonValue,
    pub tags: JsonValue,
}

impl View for FormatInfo {
    type V = FormatView;

    open spec fn view(&self) -> FormatView {
        FormatView {
            filename: self.filename@,
            format_name: self.format_name@,
            format_long_name: self.format_long_name@,
            duration: text_view(self.duration),
            size: self.size,
            bit_rate: self.bit_rate,
            nb_streams: self.nb_streams@,
            nb_programs: self.nb_programs@,
            probe_score: self.probe_score@,
            tags: self.tags@,
        }
    }
}

/// The picture stream of a container.
#[derive(Clone, Debug, PartialEq, Eq)]
pub struct VideoStream {
    pub index: Json,
    pub codec: Json,
    pub codec_long: Json,
    pub codec_tag: Json,
    pub profile: Json,
    pub level: Json,
    /// The width in pixels; 0 where the probe gave none.
    pub width: u64,
    /// The height in pixels; 0 where the probe gave none.
    pub height: u64,
    pub aspect_ratio: AspectRatio,
    pub display_aspect_ratio: Json,
    pub sample_aspect_ratio: Json,
    pub fps: Json,
    pub avg_fps: Json,
    pub time_base: Json,
    /// The bit rate; 0 where the probe gave no number.
    pub bit_rate: u64,
    pub max_bit_rate: Json,
    pub pix_fmt: Json,
    pub color_space: Json,
    pub color_transfer: Json,
    pub color_primaries: Json,
    pub color_range: Json,
    pub chroma_location: Json,
    pub field_order: Json,
    pub refs: Json,
    pub has_b_frames: Json,
    pub bits_per_raw_sample: Json,
    pub start_time: Json,
    pub duration: Json,
    /// How many frames the stream has in all.
    pub nb_frames: FrameCount,
    /// The `rotate` tag; the empty string where there is none.
    pub rotation: Json,
    pub tags: Json,
}

/// What a [`VideoStream`] denotes.
pub struct VideoView {
    pub index: JsonValue,
    pub codec: JsonValue,
    pub codec_long: JsonValue,
    pub codec_tag: JsonValue,
    pub profile: JsonValue,
    pub level: JsonValue,
    pub width: u64,
    pub height: u64,
    pub aspect_ratio: AspectRatio,
    pub display_aspect_ratio: JsonValue,
    pub sample_aspect_ratio: JsonValue,
    pub fps: JsonValue,
    pub avg_fps: JsonValue,
    pub time_base: JsonValue,
    pub bit_rate: u64,
    pub max_bit_rate: JsonValue,
    pub pix_fmt: JsonValue,
    pub color_space: JsonValue,
    pub color_transfer: JsonValue,
    pub color_primaries: JsonValue,
    pub color_range: JsonValue,
    pub chroma_location: JsonValue,
    pub field_order: JsonValue,
    pub refs: JsonValue,
    pub has_b_frames: JsonValue,
    pub bits_per_raw_sample: JsonValue,
    pub start_time: JsonValue,
    pub duration: JsonValue,
    pub nb_frames: FrameCountView,
    pub rotation: JsonValue,
    pub tags: JsonValue,
}

impl View for VideoStream {
    type V = VideoView;

    open spec fn view(&self) -> VideoView {
        VideoView {
            index: self.index@,
            codec: self.codec@,
            codec_long: self.codec_long@,
            codec_tag: self.codec_tag@,
            profile: self.profile@,
            level: self.level@,
            width: self.width,
            height: self.height,
            aspect_ratio: self.aspect_ratio,
            display_aspect_ratio: self.display_aspect_ratio@,
            sample_aspect_ratio: self.sample_aspect_ratio@,
            fps: self.fps@,
            avg_fps: self.avg_fps@,
            time_base: self.time_base@,
            bit_rate: self.bit_rate,
            max_bit_rate: self.max_bit_rate@,
            pix_fmt: self.pix_fmt@,
            color_space: self.color_space@,
            color_transfer: self.color_transfer@,
            color_primaries: self.color_primaries@,
            color_range: self.color_range@,
            chroma_location: self.chroma_location@,
            field_order: self.field_order@,
            refs: self.refs@,
            has_b_frames: self.has_b_frames@,
            bits_per_raw_sample: self.bits_per_raw_sample@,
            start_time: self.start_time@,
            duration: self.duration@,
            nb_frames: self.nb_frames@,
            rotation: self.rotation@,
            tags: self.tags@,
        }
    }
}

/// One sound stream of a container.
#[derive(Clone, Debug, PartialEq, Eq)]
pub struct AudioTrack {
    pub index: Json,
    /// The position among the sound streams, from 1.
    pub track_number: usize,
    pub codec: Json,
    pub codec_long: Json,
    pub codec_tag: Json,
    pub profile: Json,
    pub sample_rate: Json,
    pub channels: Json,
    pub channel_layout: Json,
    pub bits_per_sample: Json,
    /// The bit rate; 0 where the probe gave no number.
    pub bit_rate: u64,
    pub max_bit_rate: Json,
    pub sample_fmt: Json,
    pub time_base: Json,
    pub start_time: Json,
    pub duration: Json,
    pub nb_frames: Json,
    pub language: Json,
    pub title: Json,
    pub tags: Json,
}

/// What a [`AudioTrack`] denotes.
pub struct AudioView {
    pub index: JsonValue,
    pub track_number: nat,
    pub codec: JsonValue,
    pub codec_long: JsonValue,
    pub codec_tag: JsonValue,
    pub profile: JsonValue,
    pub sample_rate: JsonValue,
    pub channels: JsonValue,
    pub channel_layout: JsonValue,
    pub bits_per_sample: JsonValue,
    pub bit_rate: u64,
    pub max_bit_rate: JsonValue,
    pub sample_fmt: JsonValue,
    pub time_base: JsonValue,
    pub start_time: JsonValue,
    pub duration: JsonValue,
    pub nb_frames: JsonValue,
    pub language: JsonValue,
    pub title: JsonValue,
    pub tags: JsonValue,
}

impl View for AudioTrack {
    type V = AudioView;

    open spec fn view(&self) -> AudioView {
        AudioView {
            index: self.index@,
            track_number: self.track_number as nat,
            codec: self.codec@,
            codec_long: self.codec_long@,
            codec_tag: self.codec_tag@,
            profile: self.profile@,
            sample_rate: self.sample_rate@,
            channels: self.channels@,
            channel_layout: self.channel_layout@,
            bits_per_sample: self.bits_per_sample@,
            bit_rate: self.bit_rate,
            max_bit_rate: self.max_bit_rate@,
            sample_fmt: self.sample_fmt@,
            time_base: self.time_base@,
            start_time: self.start_time@,
            duration: self.duration@,
            nb_frames: self.nb_frames@,
            language: self.language@,
            title: self.title@,
            tags: self.tags@,
        }
    }
}

/// One subtitle stream of a container.
#[derive(Clone, Debug, PartialEq, Eq)]
pub struct SubtitleTrack {
    pub index: Json,
    /// The position among the subtitle streams, from 1.
    pub track_number: usize,
    pub codec: Json,
    pub codec_long: Json,
    pub codec_tag: Json,
    pub language: Json,
    pub title: Json,
    /// The `forced` flag of the stream's disposition.
    pub forced: Json,
    /// The `default` flag of the stream's disposition.
    pub default_track: Json,
    pub tags: Json,
}

/// What a [`SubtitleTrack`] denotes.
pub struct SubtitleView {
    pub index: JsonValue,
    pub track_number: nat,
    pub codec: JsonValue,
    pub codec_long: JsonValue,
    pub codec_tag: JsonValue,
    pub language: JsonValue,
    pub title: JsonValue,
    pub forced: JsonValue,
    pub default_track: JsonValue,
    pub tags: JsonValue,
}

impl View for SubtitleTrack {
    type V = SubtitleView;

    open spec fn view(&self) -> SubtitleView {
        SubtitleView {
            index: self.index@,
            track_number: self.track_number as nat,
            codec: self.codec@,
            codec_long: self.codec_long@,
            codec_tag: self.codec_tag@,
            language: self.language@,
            title: self.title@,
            forced: self.forced@,
            default_track: self.default_track@,
            tags: self.tags@,
        }
    }
}

/// One stream of opaque data in a container.
#[derive(Clone, Debug, PartialEq, Eq)]
pub struct DataStream {
    pub index: Json,
    pub codec: Json,
    pub codec_long: Json,
    pub tags: Json,
}

/// What a [`DataStream`] denotes.
pub struct DataView {
    pub index: JsonValue,
    pub codec: JsonValue,
    pub codec_long: JsonValue,
    pub tags: JsonValue,
}

impl View for DataStream {
    type V = DataView;

    open spec fn view(&self) -> DataView {
        DataView {
            index: self.index@,
            codec: self.codec@,
            codec_long: self.codec_long@,
            tags: self.tags@,
        }
    }
}

/// One chapter mark of a container.
#[derive(Clone, Debug, PartialEq, Eq)]
pub struct Chapter {
    pub id: Json,
    pub time_base: Json,
    pub start: Json,
    pub end: Json,
    pub start_time: Json,
    pub end_time: Json,
    pub tags: Json,
}

/// What a [`Chapter`] denotes.
pub struct ChapterView {
    pub id: JsonValue,
    pub time_base: JsonValue,
    pub start: JsonValue,
    pub end: JsonValue,
    pub start_time: JsonValue,
    pub end_time: JsonValue,
    pub tags: JsonValue,
}

impl View for Chapter {
    type V = ChapterView;

    open spec fn view(&self) -> ChapterView {
        ChapterView {
            id: self.id@,
            time_base: self.time_base@,
            start: self.start@,
            end: self.end@,
            start_time: self.start_time@,
            end_time: self.end_time@,
            tags: self.tags@,
        }
    }
}

/// The normalized summary of one probed container.
#[derive(Clone, Debug, PartialEq, Eq)]
pub struct Report {
    pub format: FormatInfo,
    /// The first picture stream, if the container has one.
    pub video: Option<VideoStream>,
    pub audio: Vec<AudioTrack>,
    pub subtitles: Vec<SubtitleTrack>,
    pub data_streams: Vec<DataStream>,
    pub chapters: Vec<Chapter>,
}

/// What a [`Report`] denotes.
pub struct ReportView {
    pub format: FormatView,
    pub video: Option<VideoView>,
    pub audio: Seq<AudioView>,
    pub subtitles: Seq<SubtitleView>,
    pub data_streams: Seq<DataView>,
    pub chapters: Seq<ChapterView>,
}

impl View for Report {
    type V = ReportView;

    open spec fn view(&self) -> ReportView {
        ReportView {
            format: self.format@,
            video: match self.video {
                Some(video) => Some(video@),
                None => None,
            },
            audio: views(self.audio@),
            subtitles: views(self.subtitles@),
            data_streams: views(self.data_streams@),
            chapters: views(self.chapters@),
        }
    }
}

} // verus!
