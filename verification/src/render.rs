//! The report as a JSON document.
//!
//! Three numbers of the document are formed in floating point, which is the
//! caller's work: the container's duration in seconds, the quotient of width
//! and height, and the number of frames that follows from duration and frame
//! rate. The caller hands them in as [`Evaluated`]; where they go, and whether
//! they count, is decided here.
//!
//! Every object has its members in the order of their names.

use crate::json::{members_of, views, Json, JsonValue};
use crate::report::{
    aspect_text, AudioTrack, AudioView, Chapter, ChapterView, DataStream, DataView, FormatInfo,
    FormatView, Report, ReportView, SubtitleTrack, SubtitleView, VideoStream, VideoView,
};
use vstd::prelude::*;

verus! {

/// The numbers of a report that are formed in floating point, as the caller
/// formed them.
#[derive(Debug, PartialEq, Eq)]
pub struct Evaluated {
    /// The container's duration in seconds, 0.0 where its text is no number.
    pub duration: Json,
    /// The width of the picture divided by its height, to two decimal places.
    pub quotient: String,
    /// The duration times the frame rate, cut to a whole number; `None` where
    /// one of the three texts is no number.
    pub frames: Option<u64>,
}

/// What an [`Evaluated`] denotes.
pub struct EvaluatedView {
    pub duration: JsonValue,
    pub quotient: Seq<char>,
    pub frames: Option<u64>,
}

impl View for Evaluated {
    type V = EvaluatedView;

    open spec fn view(&self) -> EvaluatedView {
        EvaluatedView { duration: self.duration@, quotient: self.quotient@, frames: self.frames }
    }
}

/// A number of frames as a JSON value: the number, or `Null` where there is
/// none.
pub open spec fn count_rendered(count: Option<u64>) -> JsonValue {
    match count {
        Some(n) => JsonValue::Integer(n as int),
        None => JsonValue::Null,
    }
}

/// A number of frames as a JSON value.
pub fn render_count(count: Option<u64>) -> (value: Json)
    ensures
        value@ == count_rendered(count),
{
    match count {
        Some(n) => Json::Unsigned(n),
        None => Json::Null,
    }
}

/// The container section as a JSON object. `duration` is the duration in
/// seconds as the caller formed it from the text that the section holds.
pub open spec fn format_rendered(format: FormatView, duration: JsonValue) -> JsonValue {
    JsonValue::Object(
        Seq::empty()
            .push(("bit_rate"@, JsonValue::Integer(format.bit_rate as int)))
            .push(("duration"@, duration))
            .push(("filename"@, format.filename))
            .push(("format_long_name"@, format.format_long_name))
            .push(("format_name"@, format.format_name))
            .push(("nb_programs"@, format.nb_programs))
            .push(("nb_streams"@, format.nb_streams))
            .push(("probe_score"@, format.probe_score))
            .push(("size"@, JsonValue::Integer(format.size as int)))
            .push(("tags"@, format.tags))
    )
}

/// The picture section as a JSON object. `quotient` is the width divided by
/// the height as the caller formed it, and `frames` what the caller made of
/// the duration and the frame rate.
pub open spec fn video_rendered(
    video: VideoView,
    quotient: Seq<char>,
    frames: Option<u64>,
) -> JsonValue {
    JsonValue::Object(
        Seq::empty()
            .push(("aspect_ratio"@, JsonValue::Text(aspect_text(video.aspect_ratio, quotient))))
            .push(("avg_fps"@, video.avg_fps))
            .push(("bit_rate"@, JsonValue::Integer(video.bit_rate as int)))
            .push(("bits_per_raw_sample"@, video.bits_per_raw_sample))
            .push(("chroma_location"@, video.chroma_location))
            .push(("codec"@, video.codec))
            .push(("codec_long"@, video.codec_long))
            .push(("codec_tag"@, video.codec_tag))
            .push(("color_primaries"@, video.color_primaries))
            .push(("color_range"@, video.color_range))
            .push(("color_space"@, video.color_space))
            .push(("color_transfer"@, video.color_transfer))
            .push(("display_aspect_ratio"@, video.display_aspect_ratio))
            .push(("duration"@, video.duration))
            .push(("field_order"@, video.field_order))
            .push(("fps"@, video.fps))
            .push(("has_b_frames"@, video.has_b_frames))
            .push(("height"@, JsonValue::Integer(video.height as int)))
            .push(("index"@, video.index))
            .push(("level"@, video.level))
            .push(("max_bit_rate"@, video.max_bit_rate))
            .push(("nb_frames"@, count_rendered(video.nb_frames.total(frames))))
            .push(("pix_fmt"@, video.pix_fmt))
            .push(("profile"@, video.profile))
            .push(("refs"@, video.refs))
            .push(("rotation"@, video.rotation))
            .push(("sample_aspect_ratio"@, video.sample_aspect_ratio))
            .push(("start_time"@, video.start_time))
            .push(("tags"@, video.tags))
            .push(("time_base"@, video.time_base))
            .push(("width"@, JsonValue::Integer(video.width as int)))
    )
}

/// The record of a sound stream as a JSON object.
pub open spec fn audio_rendered(track: AudioView) -> JsonValue {
    JsonValue::Object(
        Seq::empty()
            .push(("bit_rate"@, JsonValue::Integer(track.bit_rate as int)))
            .push(("bits_per_sample"@, track.bits_per_sample))
            .push(("channel_layout"@, track.channel_layout))
            .push(("channels"@, track.channels))
            .push(("codec"@, track.codec))
            .push(("codec_long"@, track.codec_long))
            .push(("codec_tag"@, track.codec_tag))
            .push(("duration"@, track.duration))
            .push(("index"@, track.index))
            .push(("language"@, track.language))
            .push(("max_bit_rate"@, track.max_bit_rate))
            .push(("nb_frames"@, track.nb_frames))
            .push(("profile"@, track.profile))
            .push(("sample_fmt"@, track.sample_fmt))
            .push(("sample_rate"@, track.sample_rate))
            .push(("start_time"@, track.start_time))
            .push(("tags"@, track.tags))
            .push(("time_base"@, track.time_base))
            .push(("title"@, track.title))
            .push(("track_number"@, JsonValue::Integer(track.track_number as int)))
    )
}

/// The record of a subtitle stream as a JSON object.
pub open spec fn subtitle_rendered(track: SubtitleView) -> JsonValue {
    JsonValue::Object(
        Seq::empty()
            .push(("codec"@, track.codec))
            .push(("codec_long"@, track.codec_long))
            .push(("codec_tag"@, track.codec_tag))
            .push(("default"@, track.default_track))
            .push(("forced"@, track.forced))
            .push(("index"@, track.index))
            .push(("language"@, track.language))
            .push(("tags"@, track.tags))
            .push(("title"@, track.title))
            .push(("track_number"@, JsonValue::Integer(track.track_number as int)))
    )
}

/// The record of a stream of opaque data as a JSON object.
pub open spec fn data_rendered(stream: DataView) -> JsonValue {
    JsonValue::Object(
        Seq::empty()
            .push(("codec"@, stream.codec))
            .push(("codec_long"@, stream.codec_long))
            .push(("index"@, stream.index))
            .push(("tags"@, stream.tags))
    )
}

/// The record of a chapter mark as a JSON object.
pub open spec fn chapter_rendered(chapter: ChapterView) -> JsonValue {
    JsonValue::Object(
        Seq::empty()
            .push(("end"@, chapter.end))
            .push(("end_time"@, chapter.end_time))
            .push(("id"@, chapter.id))
            .push(("start"@, chapter.start))
            .push(("start_time"@, chapter.start_time))
            .push(("tags"@, chapter.tags))
            .push(("time_base"@, chapter.time_base))
    )
}

/// The container section as a JSON object. `duration` is the duration in
/// seconds as the caller formed it from the text that the section holds.
pub fn render_format(format: &FormatInfo, duration: Json) -> (document: Json)
    ensures
        document@ == format_rendered(format@, duration@),
{
    let mut members: Vec<(String, Json)> = Vec::new();
    assert(members_of(members@) =~= Seq::empty());
    Json::put(&mut members, "bit_rate", Json::Unsigned(format.bit_rate));
    Json::put(&mut members, "duration", duration);
    Json::put(&mut members, "filename", format.filename.clone());
    Json::put(&mut members, "format_long_name", format.format_long_name.clone());
    Json::put(&mut members, "format_name", format.format_name.clone());
    Json::put(&mut members, "nb_programs", format.nb_programs.clone());
    Json::put(&mut members, "nb_streams", format.nb_streams.clone());
    Json::put(&mut members, "probe_score", format.probe_score.clone());
    Json::put(&mut members, "size", Json::Unsigned(format.size));
    Json::put(&mut members, "tags", format.tags.clone());
    Json::object(members)
}

/// The picture section as a JSON object. `quotient` is the width divided by
/// the height as the caller formed it, and `frames` what the caller made of
/// the duration and the frame rate.
pub fn render_video(video: &VideoStream, quotient: String, frames: Option<u64>) -> (document:
    Json)
    ensures
        document@ == video_rendered(video@, quotient@, frames),
{
    let mut members: Vec<(String, Json)> = Vec::new();
    assert(members_of(members@) =~= Seq::empty());
    Json::put(&mut members, "aspect_ratio", Json::Text(video.aspect_ratio.text(quotient)));
    Json::put(&mut members, "avg_fps", video.avg_fps.clone());
    Json::put(&mut members, "bit_rate", Json::Unsigned(video.bit_rate));
    Json::put(&mut members, "bits_per_raw_sample", video.bits_per_raw_sample.clone());
    Json::put(&mut members, "chroma_location", video.chroma_location.clone());
    Json::put(&mut members, "codec", video.codec.clone());
    Json::put(&mut members, "codec_long", video.codec_long.clone());
    Json::put(&mut members, "codec_tag", video.codec_tag.clone());
    Json::put(&mut members, "color_primaries", video.color_primaries.clone());
    Json::put(&mut members, "color_range", video.color_range.clone());
    Json::put(&mut members, "color_space", video.color_space.clone());
    Json::put(&mut members, "color_transfer", video.color_transfer.clone());
    Json::put(&mut members, "display_aspect_ratio", video.display_aspect_ratio.clone());
    Json::put(&mut members, "duration", video.duration.clone());
    Json::put(&mut members, "field_order", video.field_order.clone());
    Json::put(&mut members, "fps", video.fps.clone());
    Json::put(&mut members, "has_b_frames", video.has_b_frames.clone());
    Json::put(&mut members, "height", Json::Unsigned(video.height));
    Json::put(&mut members, "index", video.index.clone());
    Json::put(&mut members, "level", video.level.clone());
    Json::put(&mut members, "max_bit_rate", video.max_bit_rate.clone());
    Json::put(&mut members, "nb_frames", render_count(video.nb_frames.total(frames)));
    Json::put(&mut members, "pix_fmt", video.pix_fmt.clone());
    Json::put(&mut members, "profile", video.profile.clone());
    Json::put(&mut members, "refs", video.refs.clone());
    Json::put(&mut members, "rotation", video.rotation.clone());
    Json::put(&mut members, "sample_aspect_ratio", video.sample_aspect_ratio.clone());
    Json::put(&mut members, "start_time", video.start_time.clone());
    Json::put(&mut members, "tags", video.tags.clone());
    Json::put(&mut members, "time_base", video.time_base.clone());
    Json::put(&mut members, "width", Json::Unsigned(video.width));
    Json::object(members)
}

/// The record of a sound stream as a JSON object.
pub fn render_audio(track: &AudioTrack) -> (document: Json)
    ensures
        document@ == audio_rendered(track@),
{
    let mut members: Vec<(String, Json)> = Vec::new();
    assert(members_of(members@) =~= Seq::empty());
    Json::put(&mut members, "bit_rate", Json::Unsigned(track.bit_rate));
    Json::put(&mut members, "bits_per_sample", track.bits_per_sample.clone());
    Json::put(&mut members, "channel_layout", track.channel_layout.clone());
    Json::put(&mut members, "channels", track.channels.clone());
    Json::put(&mut members, "codec", track.codec.clone());
    Json::put(&mut members, "codec_long", track.codec_long.clone());
    Json::put(&mut members, "codec_tag", track.codec_tag.clone());
    Json::put(&mut members, "duration", track.duration.clone());
    Json::put(&mut members, "index", track.index.clone());
    Json::put(&mut members, "language", track.language.clone());
    Json::put(&mut members, "max_bit_rate", track.max_bit_rate.clone());
    Json::put(&mut members, "nb_frames", track.nb_frames.clone());
    Json::put(&mut members, "profile", track.profile.clone());
    Json::put(&mut members, "sample_fmt", track.sample_fmt.clone());
    Json::put(&mut members, "sample_rate", track.sample_rate.clone());
    Json::put(&mut members, "start_time", track.start_time.clone());
    Json::put(&mut members, "tags", track.tags.clone());
    Json::put(&mut members, "time_base", track.time_base.clone());
    Json::put(&mut members, "title", track.title.clone());
    Json::put(&mut members, "track_number", Json::Unsigned(track.track_number as u64));
    Json::object(members)
}

/// The record of a subtitle stream as a JSON object.
pub fn render_subtitle(track: &SubtitleTrack) -> (document: Json)
    ensures
        document@ == subtitle_rendered(track@),
{
    let mut members: Vec<(String, Json)> = Vec::new();
    assert(members_of(members@) =~= Seq::empty());
    Json::put(&mut members, "codec", track.codec.clone());
    Json::put(&mut members, "codec_long", track.codec_long.clone());
    Json::put(&mut members, "codec_tag", track.codec_tag.clone());
    Json::put(&mut members, "default", track.default_track.clone());
    Json::put(&mut members, "forced", track.forced.clone());
    Json::put(&mut members, "index", track.index.clone());
    Json::put(&mut members, "language", track.language.clone());
    Json::put(&mut members, "tags", track.tags.clone());
    Json::put(&mut members, "title", track.title.clone());
    Json::put(&mut members, "track_number", Json::Unsigned(track.track_number as u64));
    Json::object(members)
}

/// The record of a stream of opaque data as a JSON object.
pub fn render_data(stream: &DataStream) -> (document: Json)
    ensures
        document@ == data_rendered(stream@),
{
    let mut members: Vec<(String, Json)> = Vec::new();
    assert(members_of(members@) =~= Seq::empty());
    Json::put(&mut members, "codec", stream.codec.clone());
    Json::put(&mut members, "codec_long", stream.codec_long.clone());
    Json::put(&mut members, "index", stream.index.clone());
    Json::put(&mut members, "tags", stream.tags.clone());
    Json::object(members)
}

/// The record of a chapter mark as a JSON object.
pub fn render_chapter(chapter: &Chapter) -> (document: Json)
    ensures
        document@ == chapter_rendered(chapter@),
{
    let mut members: Vec<(String, Json)> = Vec::new();
    assert(members_of(members@) =~= Seq::empty());
    Json::put(&mut members, "end", chapter.end.clone());
    Json::put(&mut members, "end_time", chapter.end_time.clone());
    Json::put(&mut members, "id", chapter.id.clone());
    Json::put(&mut members, "start", chapter.start.clone());
    Json::put(&mut members, "start_time", chapter.start_time.clone());
    Json::put(&mut members, "tags", chapter.tags.clone());
    Json::put(&mut members, "time_base", chapter.time_base.clone());
    Json::object(members)
}

/// The records of the sound streams as a JSON array.
pub open spec fn audio_tracks_rendered(tracks: Seq<AudioView>) -> JsonValue {
    JsonValue::Array(Seq::new(tracks.len(), |i: int| audio_rendered(tracks[i])))
}

/// The records of the subtitle streams as a JSON array.
pub open spec fn subtitle_tracks_rendered(tracks: Seq<SubtitleView>) -> JsonValue {
    JsonValue::Array(Seq::new(tracks.len(), |i: int| subtitle_rendered(tracks[i])))
}

/// The records of the streams of opaque data as a JSON array.
pub open spec fn data_streams_rendered(streams: Seq<DataView>) -> JsonValue {
    JsonValue::Array(Seq::new(streams.len(), |i: int| data_rendered(streams[i])))
}

/// The records of the chapter marks as a JSON array.
pub open spec fn chapters_rendered(chapters: Seq<ChapterView>) -> JsonValue {
    JsonValue::Array(Seq::new(chapters.len(), |i: int| chapter_rendered(chapters[i])))
}

/// The report as a JSON document: an object of the six sections, with `Null`
/// for a picture section that is absent.
pub open spec fn rendered(report: ReportView, numbers: EvaluatedView) -> JsonValue {
    JsonValue::Object(
        Seq::empty()
            .push(("audio"@, audio_tracks_rendered(report.audio)))
            .push(("chapters"@, chapters_rendered(report.chapters)))
            .push(("data_streams"@, data_streams_rendered(report.data_streams)))
            .push(("format"@, format_rendered(report.format, numbers.duration)))
            .push(("subtitles"@, subtitle_tracks_rendered(report.subtitles)))
            .push(
                (
                    "video"@,
                    match report.video {
                        Some(video) => video_rendered(video, numbers.quotient, numbers.frames),
                        None => JsonValue::Null,
                    },
                ),
            )
    )
}

/// The records of the sound streams as a JSON array.
pub fn render_audio_tracks(tracks: &Vec<AudioTrack>) -> (document: Json)
    ensures
        document@ == audio_tracks_rendered(views(tracks@)),
{
    let mut items: Vec<Json> = Vec::new();
    let mut i: usize = 0;
    while i < tracks.len()
        invariant
            i <= tracks.len(),
            items.len() == i,
            forall|k: int| 0 <= k < i ==> items[k]@ == audio_rendered(tracks[k]@),
        decreases tracks.len() - i,
    {
        items.push(render_audio(&tracks[i]));
        i = i + 1;
    }
    assert(views(items@) =~= audio_tracks_rendered(views(tracks@))->Array_0);
    Json::array(items)
}

/// The records of the subtitle streams as a JSON array.
pub fn render_subtitle_tracks(tracks: &Vec<SubtitleTrack>) -> (document: Json)
    ensures
        document@ == subtitle_tracks_rendered(views(tracks@)),
{
    let mut items: Vec<Json> = Vec::new();
    let mut i: usize = 0;
    while i < tracks.len()
        invariant
            i <= tracks.len(),
            items.len() == i,
            forall|k: int| 0 <= k < i ==> items[k]@ == subtitle_rendered(tracks[k]@),
        decreases tracks.len() - i,
    {
        items.push(render_subtitle(&tracks[i]));
        i = i + 1;
    }
    assert(views(items@) =~= subtitle_tracks_rendered(views(tracks@))->Array_0);
    Json::array(items)
}

/// The records of the streams of opaque data as a JSON array.
pub fn render_data_streams(streams: &Vec<DataStream>) -> (document: Json)
    ensures
        document@ == data_streams_rendered(views(streams@)),
{
    let mut items: Vec<Json> = Vec::new();
    let mut i: usize = 0;
    while i < streams.len()
        invariant
            i <= streams.len(),
            items.len() == i,
            forall|k: int| 0 <= k < i ==> items[k]@ == data_rendered(streams[k]@),
        decreases streams.len() - i,
    {
        items.push(render_data(&streams[i]));
        i = i + 1;
    }
    assert(views(items@) =~= data_streams_rendered(views(streams@))->Array_0);
    Json::array(items)
}

/// The records of the chapter marks as a JSON array.
pub fn render_chapters(chapters: &Vec<Chapter>) -> (document: Json)
    ensures
        document@ == chapters_rendered(views(chapters@)),
{
    let mut items: Vec<Json> = Vec::new();
    let mut i: usize = 0;
    while i < chapters.len()
        invariant
            i <= chapters.len(),
            items.len() == i,
            forall|k: int| 0 <= k < i ==> items[k]@ == chapter_rendered(chapters[k]@),
        decreases chapters.len() - i,
    {
        items.push(render_chapter(&chapters[i]));
        i = i + 1;
    }
    assert(views(items@) =~= chapters_rendered(views(chapters@))->Array_0);
    Json::array(items)
}

/// The report as a JSON document. `numbers` holds what the caller formed in
/// floating point: its duration goes into the container section, its quotient
/// and its number of frames into the picture section, where they count.
pub fn render(report: &Report, numbers: Evaluated) -> (document: Json)
    ensures
        document@ == rendered(report@, numbers@),
{
    let video = match &report.video {
        Some(video) => render_video(video, numbers.quotient, numbers.frames),
        None => Json::Null,
    };
    let mut members: Vec<(String, Json)> = Vec::new();
    assert(members_of(members@) =~= Seq::empty());
    Json::put(&mut members, "audio", render_audio_tracks(&report.audio));
    Json::put(&mut members, "chapters", render_chapters(&report.chapters));
    Json::put(&mut members, "data_streams", render_data_streams(&report.data_streams));
    Json::put(&mut members, "format", render_format(&report.format, numbers.duration));
    Json::put(&mut members, "subtitles", render_subtitle_tracks(&report.subtitles));
    Json::put(&mut members, "video", video);
    Json::object(members)
}

} // verus!
