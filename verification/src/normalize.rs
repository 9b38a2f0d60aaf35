//! From the probe's document to the report.
//!
//! The spec functions of this module say what the report of a document is;
//! [`parse_video_data`] computes it. Nothing here can fail: whatever the
//! document leaves out gets its default.

use crate::json::{denoted, views, Json, JsonValue};
use crate::report::{
    aspect_ratio_of, text_view, AspectRatio, AudioTrack, AudioView, Chapter, ChapterView,
    DataStream, DataView, FormatInfo, FormatView, FrameCount, FrameCountView, Report,
    ReportView, SubtitleTrack, SubtitleView, VideoStream, VideoView,
};
use crate::text::{decimal_u64, parse_u64, rate_parts, split_rate};
use vstd::prelude::*;

verus! {

/// Whether `stream` is tagged with the codec type `kind`.
pub open spec fn has_kind(stream: JsonValue, kind: Seq<char>) -> bool {
    stream.at("codec_type"@).text() == Some(kind)
}

/// The streams of the codec type `kind`, in the order in which they stand.
pub open spec fn of_kind(streams: Seq<JsonValue>, kind: Seq<char>) -> Seq<JsonValue> {
    streams.filter(|stream: JsonValue| has_kind(stream, kind))
}

/// The first stream of the codec type `kind`.
pub open spec fn first_of_kind(streams: Seq<JsonValue>, kind: Seq<char>) -> Option<JsonValue>
    decreases streams.len(),
{
    if streams.len() == 0 {
        None
    } else if has_kind(streams[0], kind) {
        Some(streams[0])
    } else {
        first_of_kind(streams.drop_first(), kind)
    }
}

/// A number that the probe wrote as a string of decimal digits; 0 for
/// anything else.
pub open spec fn amount_of(value: JsonValue) -> u64 {
    match value.text() {
        Some(text) => match decimal_u64(text) {
            Some(number) => number,
            None => 0,
        },
        None => 0,
    }
}

/// A number of pixels that the probe wrote as a number; 0 for anything else.
pub open spec fn pixels_of(value: JsonValue) -> u64 {
    match value.unsigned() {
        Some(number) => number,
        None => 0,
    }
}

/// The number of frames that the probe reported for `stream`, if it wrote one.
pub open spec fn reported_frames(stream: JsonValue) -> Option<u64> {
    match stream.at("nb_frames"@).text() {
        Some(text) => decimal_u64(text),
        None => None,
    }
}

/// What is known of the number of frames of the picture stream `stream` in a
/// container described by `format`. A reported number stands. Failing that,
/// the container's duration and the stream's frame rate are handed on, where
/// both are strings and the rate has its two parts.
pub open spec fn frame_count_of(stream: JsonValue, format: JsonValue) -> FrameCountView {
    match reported_frames(stream) {
        Some(number) => FrameCountView::Reported(number),
        None => match (format.at("duration"@).text(), stream.at("r_frame_rate"@).text()) {
            (Some(duration), Some(rate)) => match rate_parts(rate) {
                Some((numerator, denominator)) => FrameCountView::FromDuration {
                    duration,
                    numerator,
                    denominator,
                },
                None => FrameCountView::Absent,
            },
            _ => FrameCountView::Absent,
        },
    }
}

/// The container section of a report, from the `format` object of the document.
pub open spec fn format_of(format: JsonValue) -> FormatView {
    FormatView {
        filename: format.at("filename"@),
        format_name: format.at("format_name"@),
        format_long_name: format.at("format_long_name"@),
        duration: format.at("duration"@).text(),
        size: amount_of(format.at("size"@)),
        bit_rate: amount_of(format.at("bit_rate"@)),
        nb_streams: format.at("nb_streams"@),
        nb_programs: format.at("nb_programs"@),
        probe_score: format.at("probe_score"@),
        tags: format.or_empty("tags"@),
    }
}

/// The picture section of a report, from a picture stream and the `format` object.
pub open spec fn video_of(stream: JsonValue, format: JsonValue) -> VideoView {
    VideoView {
        index: stream.at("index"@),
        codec: stream.at("codec_name"@),
        codec_long: stream.at("codec_long_name"@),
        codec_tag: stream.or_blank("codec_tag_string"@),
        profile: stream.or_blank("profile"@),
        level: stream.or_blank("level"@),
        width: pixels_of(stream.at("width"@)),
        height: pixels_of(stream.at("height"@)),
        aspect_ratio: aspect_ratio_of(
            pixels_of(stream.at("width"@)),
            pixels_of(stream.at("height"@)),
        ),
        display_aspect_ratio: stream.or_blank("display_aspect_ratio"@),
        sample_aspect_ratio: stream.or_blank("sample_aspect_ratio"@),
        fps: stream.at("r_frame_rate"@),
        avg_fps: stream.or_blank("avg_frame_rate"@),
        time_base: stream.or_blank("time_base"@),
        bit_rate: amount_of(stream.at("bit_rate"@)),
        max_bit_rate: stream.or_blank("max_bit_rate"@),
        pix_fmt: stream.at("pix_fmt"@),
        color_space: stream.or_blank("color_space"@),
        color_transfer: stream.or_blank("color_transfer"@),
        color_primaries: stream.or_blank("color_primaries"@),
        color_range: stream.or_blank("color_range"@),
        chroma_location: stream.or_blank("chroma_location"@),
        field_order: stream.or_blank("field_order"@),
        refs: stream.or_blank("refs"@),
        has_b_frames: stream.or_zero("has_b_frames"@),
        bits_per_raw_sample: stream.or_blank("bits_per_raw_sample"@),
        start_time: stream.or_blank("start_time"@),
        duration: stream.or_blank("duration"@),
        nb_frames: frame_count_of(stream, format),
        rotation: stream.nested_or_blank("tags"@, "rotate"@),
        tags: stream.or_empty("tags"@),
    }
}

/// The record of the sound stream that is the `number`-th of its kind.
pub open spec fn audio_of(stream: JsonValue, number: nat) -> AudioView {
    AudioView {
        index: stream.at("index"@),
        track_number: number,
        codec: stream.at("codec_name"@),
        codec_long: stream.at("codec_long_name"@),
        codec_tag: stream.or_blank("codec_tag_string"@),
        profile: stream.or_blank("profile"@),
        sample_rate: stream.at("sample_rate"@),
        channels: stream.at("channels"@),
        channel_layout: stream.or_blank("channel_layout"@),
        bits_per_sample: stream.or_blank("bits_per_sample"@),
        bit_rate: amount_of(stream.at("bit_rate"@)),
        max_bit_rate: stream.or_blank("max_bit_rate"@),
        sample_fmt: stream.or_blank("sample_fmt"@),
        time_base: stream.or_blank("time_base"@),
        start_time: stream.or_blank("start_time"@),
        duration: stream.or_blank("duration"@),
        nb_frames: stream.or_blank("nb_frames"@),
        language: stream.nested_or_blank("tags"@, "language"@),
        title: stream.nested_or_blank("tags"@, "title"@),
        tags: stream.or_empty("tags"@),
    }
}

/// The record of the subtitle stream that is the `number`-th of its kind.
pub open spec fn subtitle_of(stream: JsonValue, number: nat) -> SubtitleView {
    SubtitleView {
        index: stream.at("index"@),
        track_number: number,
        codec: stream.at("codec_name"@),
        codec_long: stream.or_blank("codec_long_name"@),
        codec_tag: stream.or_blank("codec_tag_string"@),
        language: stream.nested_or_blank("tags"@, "language"@),
        title: stream.nested_or_blank("tags"@, "title"@),
        forced: stream.nested_or_zero("disposition"@, "forced"@),
        default_track: stream.nested_or_zero("disposition"@, "default"@),
        tags: stream.or_empty("tags"@),
    }
}

/// The record of a stream of opaque data.
pub open spec fn data_of(stream: JsonValue) -> DataView {
    DataView {
        index: stream.at("index"@),
        codec: stream.or_blank("codec_name"@),
        codec_long: stream.or_blank("codec_long_name"@),
        tags: stream.or_empty("tags"@),
    }
}

/// The record of a chapter mark.
pub open spec fn chapter_of(chapter: JsonValue) -> ChapterView {
    ChapterView {
        id: chapter.or_zero("id"@),
        time_base: chapter.or_blank("time_base"@),
        start: chapter.or_zero("start"@),
        end: chapter.or_zero("end"@),
        start_time: chapter.or_blank("start_time"@),
        end_time: chapter.or_blank("end_time"@),
        tags: chapter.or_empty("tags"@),
    }
}

/// The records of the sound streams among `streams`, in the order in which
/// they stand and numbered from 1.
pub open spec fn audio_tracks_of(streams: Seq<JsonValue>) -> Seq<AudioView> {
    let chosen = of_kind(streams, "audio"@);
    Seq::new(chosen.len(), |i: int| audio_of(chosen[i], (i + 1) as nat))
}

/// The records of the subtitle streams among `streams`, in the order in which
/// they stand and numbered from 1.
pub open spec fn subtitle_tracks_of(streams: Seq<JsonValue>) -> Seq<SubtitleView> {
    let chosen = of_kind(streams, "subtitle"@);
    Seq::new(chosen.len(), |i: int| subtitle_of(chosen[i], (i + 1) as nat))
}

/// The records of the streams of opaque data among `streams`, in the order in
/// which they stand.
pub open spec fn data_streams_of(streams: Seq<JsonValue>) -> Seq<DataView> {
    let chosen = of_kind(streams, "data"@);
    Seq::new(chosen.len(), |i: int| data_of(chosen[i]))
}

/// The records of `chapters`, one for one.
pub open spec fn chapters_of(chapters: Seq<JsonValue>) -> Seq<ChapterView> {
    Seq::new(chapters.len(), |i: int| chapter_of(chapters[i]))
}

/// The streams of a document: the elements of its `streams` array, and none
/// where it has no such array.
pub open spec fn streams_in(data: JsonValue) -> Seq<JsonValue> {
    data.at("streams"@).items_or_empty()
}

/// The chapter marks of a document: the elements of its `chapters` array, and
/// none where it has no such array.
pub open spec fn chapters_in(data: JsonValue) -> Seq<JsonValue> {
    data.at("chapters"@).items_or_empty()
}

/// The report of the document `data`.
pub open spec fn normalized(data: JsonValue) -> ReportView {
    let format = data.at("format"@);
    ReportView {
        format: format_of(format),
        video: match first_of_kind(streams_in(data), "video"@) {
            Some(stream) => Some(video_of(stream, format)),
            None => None,
        },
        audio: audio_tracks_of(streams_in(data)),
        subtitles: subtitle_tracks_of(streams_in(data)),
        data_streams: data_streams_of(streams_in(data)),
        chapters: chapters_of(chapters_in(data)),
    }
}

/// Whether `stream` is tagged with the codec type `kind`.
pub fn is_kind(stream: &Json, kind: &str) -> (tagged: bool)
    ensures
        tagged == has_kind(stream@, kind@),
{
    match stream.get("codec_type") {
        Some(value) => value.is_text(kind),
        None => false,
    }
}

/// The member `name` of `object`, read as a number written in decimal digits.
pub fn amount(object: &Json, name: &str) -> (number: u64)
    ensures
        number == amount_of(object@.at(name@)),
{
    match object.get(name) {
        Some(value) => match value.as_str() {
            Some(text) => match parse_u64(text) {
                Some(number) => number,
                None => 0,
            },
            None => 0,
        },
        None => 0,
    }
}

/// The member `name` of `object`, read as a number of pixels.
pub fn pixels(object: &Json, name: &str) -> (number: u64)
    ensures
        number == pixels_of(object@.at(name@)),
{
    match object.get(name) {
        Some(value) => match value.as_u64() {
            Some(number) => number,
            None => 0,
        },
        None => 0,
    }
}

/// A copy of the member `name` of `object`, where it is a string.
pub fn owned_text(object: &Json, name: &str) -> (text: Option<String>)
    ensures
        text_view(text) == object@.at(name@).text(),
{
    match object.get(name) {
        Some(value) => match value.as_str() {
            Some(text) => Some(text.to_owned()),
            None => None,
        },
        None => None,
    }
}

/// What is known of the number of frames of the picture stream `stream` in a
/// container described by `format`.
pub fn frame_count(stream: &Json, format: &Json) -> (count: FrameCount)
    ensures
        count@ == frame_count_of(stream@, format@),
{
    let reported = match stream.get("nb_frames") {
        Some(value) => match value.as_str() {
            Some(text) => parse_u64(text),
            None => None,
        },
        None => None,
    };
    match reported {
        Some(number) => FrameCount::Reported(number),
        None => match (owned_text(format, "duration"), owned_text(stream, "r_frame_rate")) {
            (Some(duration), Some(rate)) => match split_rate(rate.as_str()) {
                Some((numerator, denominator)) => FrameCount::FromDuration {
                    duration,
                    numerator,
                    denominator,
                },
                None => FrameCount::Absent,
            },
            _ => FrameCount::Absent,
        },
    }
}

/// Fills the container section from the `format` object of the document.
pub fn format_info(format: &Json) -> (record: FormatInfo)
    ensures
        record@ == format_of(format@),
{
    FormatInfo {
        filename: format.at("filename"),
        format_name: format.at("format_name"),
        format_long_name: format.at("format_long_name"),
        duration: owned_text(format, "duration"),
        size: amount(format, "size"),
        bit_rate: amount(format, "bit_rate"),
        nb_streams: format.at("nb_streams"),
        nb_programs: format.at("nb_programs"),
        probe_score: format.at("probe_score"),
        tags: format.or_empty("tags"),
    }
}

/// Fills the picture section from a picture stream and the `format` object.
pub fn video_stream(stream: &Json, format: &Json) -> (record: VideoStream)
    ensures
        record@ == video_of(stream@, format@),
{
    let width = pixels(stream, "width");
    let height = pixels(stream, "height");
    VideoStream {
        index: stream.at("index"),
        codec: stream.at("codec_name"),
        codec_long: stream.at("codec_long_name"),
        codec_tag: stream.or_blank("codec_tag_string"),
        profile: stream.or_blank("profile"),
        level: stream.or_blank("level"),
        width,
        height,
        aspect_ratio: AspectRatio::of(width, height),
        display_aspect_ratio: stream.or_blank("display_aspect_ratio"),
        sample_aspect_ratio: stream.or_blank("sample_aspect_ratio"),
        fps: stream.at("r_frame_rate"),
        avg_fps: stream.or_blank("avg_frame_rate"),
        time_base: stream.or_blank("time_base"),
        bit_rate: amount(stream, "bit_rate"),
        max_bit_rate: stream.or_blank("max_bit_rate"),
        pix_fmt: stream.at("pix_fmt"),
        color_space: stream.or_blank("color_space"),
        color_transfer: stream.or_blank("color_transfer"),
        color_primaries: stream.or_blank("color_primaries"),
        color_range: stream.or_blank("color_range"),
        chroma_location: stream.or_blank("chroma_location"),
        field_order: stream.or_blank("field_order"),
        refs: stream.or_blank("refs"),
        has_b_frames: stream.or_zero("has_b_frames"),
        bits_per_raw_sample: stream.or_blank("bits_per_raw_sample"),
        start_time: stream.or_blank("start_time"),
        duration: stream.or_blank("duration"),
        nb_frames: frame_count(stream, format),
        rotation: stream.nested_or_blank("tags", "rotate"),
        tags: stream.or_empty("tags"),
    }
}

/// Fills the record of the sound stream that is the `number`-th of its kind.
pub fn audio_track(stream: &Json, number: usize) -> (record: AudioTrack)
    ensures
        record@ == audio_of(stream@, number as nat),
{
    AudioTrack {
        index: stream.at("index"),
        track_number: number,
        codec: stream.at("codec_name"),
        codec_long: stream.at("codec_long_name"),
        codec_tag: stream.or_blank("codec_tag_string"),
        profile: stream.or_blank("profile"),
        sample_rate: stream.at("sample_rate"),
        channels: stream.at("channels"),
        channel_layout: stream.or_blank("channel_layout"),
        bits_per_sample: stream.or_blank("bits_per_sample"),
        bit_rate: amount(stream, "bit_rate"),
        max_bit_rate: stream.or_blank("max_bit_rate"),
        sample_fmt: stream.or_blank("sample_fmt"),
        time_base: stream.or_blank("time_base"),
        start_time: stream.or_blank("start_time"),
        duration: stream.or_blank("duration"),
        nb_frames: stream.or_blank("nb_frames"),
        language: stream.nested_or_blank("tags", "language"),
        title: stream.nested_or_blank("tags", "title"),
        tags: stream.or_empty("tags"),
    }
}

/// Fills the record of the subtitle stream that is the `number`-th of its kind.
pub fn subtitle_track(stream: &Json, number: usize) -> (record: SubtitleTrack)
    ensures
        record@ == subtitle_of(stream@, number as nat),
{
    SubtitleTrack {
        index: stream.at("index"),
        track_number: number,
        codec: stream.at("codec_name"),
        codec_long: stream.or_blank("codec_long_name"),
        codec_tag: stream.or_blank("codec_tag_string"),
        language: stream.nested_or_blank("tags", "language"),
        title: stream.nested_or_blank("tags", "title"),
        forced: stream.nested_or_zero("disposition", "forced"),
        default_track: stream.nested_or_zero("disposition", "default"),
        tags: stream.or_empty("tags"),
    }
}

/// Fills the record of a stream of opaque data.
pub fn data_stream(stream: &Json) -> (record: DataStream)
    ensures
        record@ == data_of(stream@),
{
    DataStream {
        index: stream.at("index"),
        codec: stream.or_blank("codec_name"),
        codec_long: stream.or_blank("codec_long_name"),
        tags: stream.or_empty("tags"),
    }
}

/// Fills the record of a chapter mark.
pub fn chapter_mark(chapter: &Json) -> (record: Chapter)
    ensures
        record@ == chapter_of(chapter@),
{
    Chapter {
        id: chapter.or_zero("id"),
        time_base: chapter.or_blank("time_base"),
        start: chapter.or_zero("start"),
        end: chapter.or_zero("end"),
        start_time: chapter.or_blank("start_time"),
        end_time: chapter.or_blank("end_time"),
        tags: chapter.or_empty("tags"),
    }
}

/// The elements of the member `name` of `data`, where it is an array, and
/// `none` where it is not.
fn elements<'a>(data: &'a Json, name: &str, none: &'a Vec<Json>) -> (items: &'a Vec<Json>)
    requires
        none.len() == 0,
    ensures
        views(items@) == data@.at(name@).items_or_empty(),
{
    match data.get(name) {
        Some(value) => match value.as_array() {
            Some(items) => items,
            None => {
                assert(views(none@) =~= Seq::empty());
                none
            },
        },
        None => {
            assert(views(none@) =~= Seq::empty());
            none
        },
    }
}

/// The first stream of the codec type `kind`.
pub fn first_stream<'a>(streams: &'a Vec<Json>, kind: &str) -> (found: Option<&'a Json>)
    ensures
        denoted(found) == first_of_kind(views(streams@), kind@),
{
    let ghost all = views(streams@);
    let mut i: usize = 0;
    assert(all.skip(0) =~= all);
    while i < streams.len()
        invariant
            i <= streams.len(),
            all == views(streams@),
            first_of_kind(all, kind@) == first_of_kind(all.skip(i as int), kind@),
        decreases streams.len() - i,
    {
        assert(all.skip(i as int)[0] == streams[i as int]@);
        if is_kind(&streams[i], kind) {
            return Some(&streams[i]);
        }
        assert(all.skip(i as int).drop_first() =~= all.skip(i + 1));
        i = i + 1;
    }
    None
}

/// What `of_kind` makes of one more stream.
proof fn lemma_of_kind_step(streams: Seq<JsonValue>, kind: Seq<char>, i: int)
    requires
        0 <= i < streams.len(),
    ensures
        of_kind(streams.take(i + 1), kind) == if has_kind(streams[i], kind) {
            of_kind(streams.take(i), kind).push(streams[i])
        } else {
            of_kind(streams.take(i), kind)
        },
        of_kind(streams.take(i), kind).len() <= i,
{
    reveal(Seq::filter);
    assert(streams.take(i + 1).drop_last() =~= streams.take(i));
    streams.take(i).lemma_filter_len(|stream: JsonValue| has_kind(stream, kind));
}

/// The records of the sound streams among `streams`.
pub fn audio_tracks(streams: &Vec<Json>) -> (tracks: Vec<AudioTrack>)
    ensures
        views(tracks@) == audio_tracks_of(views(streams@)),
{
    let ghost all = views(streams@);
    let mut tracks: Vec<AudioTrack> = Vec::new();
    let mut i: usize = 0;
    proof {
        reveal(Seq::filter);
        assert(all.take(0) =~= Seq::empty());
        assert(views(tracks@) =~= audio_tracks_of(all.take(0)));
    }
    while i < streams.len()
        invariant
            i <= streams.len(),
            all == views(streams@),
            tracks.len() == of_kind(all.take(i as int), "audio"@).len(),
            views(tracks@) == audio_tracks_of(all.take(i as int)),
        decreases streams.len() - i,
    {
        proof {
            lemma_of_kind_step(all, "audio"@, i as int);
        }
        if is_kind(&streams[i], "audio") {
            let ghost before = views(tracks@);
            let track = audio_track(&streams[i], tracks.len() + 1);
            tracks.push(track);
            assert(views(tracks@) =~= before.push(track@));
            assert(views(tracks@) =~= audio_tracks_of(all.take(i + 1)));
        }
        i = i + 1;
    }
    assert(all.take(streams.len() as int) =~= all);
    tracks
}

/// The records of the subtitle streams among `streams`.
pub fn subtitle_tracks(streams: &Vec<Json>) -> (tracks: Vec<SubtitleTrack>)
    ensures
        views(tracks@) == subtitle_tracks_of(views(streams@)),
{
    let ghost all = views(streams@);
    let mut tracks: Vec<SubtitleTrack> = Vec::new();
    let mut i: usize = 0;
    proof {
        reveal(Seq::filter);
        assert(all.take(0) =~= Seq::empty());
        assert(views(tracks@) =~= subtitle_tracks_of(all.take(0)));
    }
    while i < streams.len()
        invariant
            i <= streams.len(),
            all == views(streams@),
            tracks.len() == of_kind(all.take(i as int), "subtitle"@).len(),
            views(tracks@) == subtitle_tracks_of(all.take(i as int)),
        decreases streams.len() - i,
    {
        proof {
            lemma_of_kind_step(all, "subtitle"@, i as int);
        }
        if is_kind(&streams[i], "subtitle") {
            let ghost before = views(tracks@);
            let track = subtitle_track(&streams[i], tracks.len() + 1);
            tracks.push(track);
            assert(views(tracks@) =~= before.push(track@));
            assert(views(tracks@) =~= subtitle_tracks_of(all.take(i + 1)));
        }
        i = i + 1;
    }
    assert(all.take(streams.len() as int) =~= all);
    tracks
}

/// The records of the streams of opaque data among `streams`.
pub fn data_streams(streams: &Vec<Json>) -> (records: Vec<DataStream>)
    ensures
        views(records@) == data_streams_of(views(streams@)),
{
    let ghost all = views(streams@);
    let mut records: Vec<DataStream> = Vec::new();
    let mut i: usize = 0;
    proof {
        reveal(Seq::filter);
        assert(all.take(0) =~= Seq::empty());
        assert(views(records@) =~= data_streams_of(all.take(0)));
    }
    while i < streams.len()
        invariant
            i <= streams.len(),
            all == views(streams@),
            records.len() == of_kind(all.take(i as int), "data"@).len(),
            views(records@) == data_streams_of(all.take(i as int)),
        decreases streams.len() - i,
    {
        proof {
            lemma_of_kind_step(all, "data"@, i as int);
        }
        if is_kind(&streams[i], "data") {
            let ghost before = views(records@);
            let record = data_stream(&streams[i]);
            records.push(record);
            assert(views(records@) =~= before.push(record@));
            assert(views(records@) =~= data_streams_of(all.take(i + 1)));
        }
        i = i + 1;
    }
    assert(all.take(streams.len() as int) =~= all);
    records
}

/// The records of `chapters`, one for one.
pub fn chapter_marks(chapters: &Vec<Json>) -> (records: Vec<Chapter>)
    ensures
        views(records@) == chapters_of(views(chapters@)),
{
    let mut records: Vec<Chapter> = Vec::new();
    let mut i: usize = 0;
    while i < chapters.len()
        invariant
            i <= chapters.len(),
            records.len() == i,
            forall|k: int| 0 <= k < i ==> records[k]@ == chapter_of(chapters[k]@),
        decreases chapters.len() - i,
    {
        records.push(chapter_mark(&chapters[i]));
        i = i + 1;
    }
    assert(views(records@) =~= chapters_of(views(chapters@)));
    records
}

/// Reshapes the probe's document `data` into the report.
///
/// `data` is read as an object with a `format` object, a `streams` array and a
/// `chapters` array; each of them may be missing, and so may every member of
/// every stream.
pub fn parse_video_data(data: Json) -> (report: Report)
    ensures
        report@ == normalized(data@),
{
    let none: Vec<Json> = Vec::new();
    let streams = elements(&data, "streams", &none);
    let chapters = elements(&data, "chapters", &none);
    let format = data.at("format");
    let video = match first_stream(streams, "video") {
        Some(stream) => Some(video_stream(stream, &format)),
        None => None,
    };
    Report {
        format: format_info(&format),
        video,
        audio: audio_tracks(streams),
        subtitles: subtitle_tracks(streams),
        data_streams: data_streams(streams),
        chapters: chapter_marks(chapters),
    }
}

} // verus!
