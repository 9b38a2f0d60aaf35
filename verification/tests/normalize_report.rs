use video_info::document::read_document;
use video_info::json::Json;
use video_info::normalize::{
    amount, audio_tracks, chapter_marks, data_streams, first_stream, format_info, frame_count,
    is_kind, owned_text, parse_video_data, pixels, subtitle_tracks, video_stream,
};
use video_info::report::{AspectRatio, FrameCount, Report};

fn text(s: &str) -> Json {
    Json::Text(s.to_string())
}

fn object(members: Vec<(&str, Json)>) -> Json {
    Json::Object(members.into_iter().map(|(name, value)| (name.to_string(), value)).collect())
}

fn stream(kind: &str, index: u64) -> Json {
    object(vec![("index", Json::Unsigned(index)), ("codec_type", text(kind))])
}

fn report_of(document: &str) -> Report {
    parse_video_data(read_document(document).unwrap())
}

fn from_duration(duration: &str, numerator: &str, denominator: &str) -> FrameCount {
    FrameCount::FromDuration {
        duration: duration.to_string(),
        numerator: numerator.to_string(),
        denominator: denominator.to_string(),
    }
}

// The floating-point step that the application adds to a `FromDuration`.
fn derive(count: &FrameCount) -> Option<u64> {
    match count {
        FrameCount::FromDuration { duration, numerator, denominator } => {
            let duration: f64 = duration.parse().ok()?;
            let numerator: f64 = numerator.parse().ok()?;
            let denominator: f64 = denominator.parse().ok()?;
            Some((duration * (numerator / denominator)) as u64)
        }
        _ => None,
    }
}

#[test]
fn a_document_without_streams_has_no_stream_records() {
    let report = report_of(r#"{"format": {"filename": "a.mp4"}, "chapters": []}"#);
    assert_eq!(report.video, None);
    assert!(report.audio.is_empty());
    assert!(report.subtitles.is_empty());
    assert!(report.data_streams.is_empty());
    assert_eq!(report.format.filename, text("a.mp4"));
}

#[test]
fn a_document_whose_streams_are_no_array_has_no_stream_records() {
    for streams in ["null", "{}", "\"video\"", "3", "true"] {
        let report = report_of(&format!(r#"{{"streams": {}}}"#, streams));
        assert_eq!(report.video, None);
        assert!(report.audio.is_empty());
        assert!(report.subtitles.is_empty());
        assert!(report.data_streams.is_empty());
    }
}

#[test]
fn a_document_without_chapters_has_no_chapter_records() {
    let report = report_of(r#"{"format": {}, "streams": [{"codec_type": "audio"}]}"#);
    assert!(report.chapters.is_empty());
    assert_eq!(report.audio.len(), 1);
}

#[test]
fn the_empty_object_gives_the_report_of_defaults() {
    let report = report_of("{}");
    assert_eq!(report.format.filename, Json::Null);
    assert_eq!(report.format.format_name, Json::Null);
    assert_eq!(report.format.format_long_name, Json::Null);
    assert_eq!(report.format.duration, None);
    assert_eq!(report.format.size, 0);
    assert_eq!(report.format.bit_rate, 0);
    assert_eq!(report.format.nb_streams, Json::Null);
    assert_eq!(report.format.nb_programs, Json::Null);
    assert_eq!(report.format.probe_score, Json::Null);
    assert_eq!(report.format.tags, Json::Object(vec![]));
    assert_eq!(report.video, None);
    assert!(report.audio.is_empty());
    assert!(report.subtitles.is_empty());
    assert!(report.data_streams.is_empty());
    assert!(report.chapters.is_empty());
}

#[test]
fn what_is_no_object_gives_the_report_of_defaults() {
    let of_empty = report_of("{}");
    for document in ["null", "[]", "7", "\"x\"", "[{\"streams\": []}]"] {
        assert_eq!(report_of(document), of_empty);
    }
}

#[test]
fn a_height_of_zero_has_no_aspect_ratio() {
    let report = report_of(r#"{"streams": [{"codec_type": "video", "width": 1920, "height": 0}]}"#);
    let video = report.video.unwrap();
    assert_eq!(video.width, 1920);
    assert_eq!(video.height, 0);
    assert_eq!(video.aspect_ratio, AspectRatio::NotApplicable);
    assert_eq!(video.aspect_ratio.text("inf".to_string()), "N/A");
}

#[test]
fn a_missing_height_has_no_aspect_ratio() {
    let report = report_of(r#"{"streams": [{"codec_type": "video", "width": 1920}]}"#);
    let video = report.video.unwrap();
    assert_eq!(video.height, 0);
    assert_eq!(video.aspect_ratio, AspectRatio::NotApplicable);
}

#[test]
fn a_height_above_zero_has_the_ratio_of_width_to_height() {
    let report = report_of(r#"{"streams": [{"codec_type": "video", "width": 1920, "height": 1080}]}"#);
    let video = report.video.unwrap();
    assert_eq!(video.aspect_ratio, AspectRatio::Quotient { width: 1920, height: 1080 });
    let quotient = format!("{:.2}", 1920 as f64 / 1080 as f64);
    assert_eq!(video.aspect_ratio.text(quotient), "1.78");
}

#[test]
fn a_width_of_zero_still_has_a_ratio() {
    let report = report_of(r#"{"streams": [{"codec_type": "video", "height": 1080}]}"#);
    let video = report.video.unwrap();
    assert_eq!(video.width, 0);
    assert_eq!(video.aspect_ratio, AspectRatio::Quotient { width: 0, height: 1080 });
}

#[test]
fn aspect_ratio_of_sizes() {
    assert_eq!(AspectRatio::of(4, 3), AspectRatio::Quotient { width: 4, height: 3 });
    assert_eq!(AspectRatio::of(0, 0), AspectRatio::NotApplicable);
    assert_eq!(AspectRatio::of(u64::MAX, 0), AspectRatio::NotApplicable);
    assert_eq!(AspectRatio::of(u64::MAX, 1), AspectRatio::Quotient { width: u64::MAX, height: 1 });
}

#[test]
fn pixels_that_are_no_unsigned_number_count_as_zero() {
    let report = report_of(
        r#"{"streams": [{"codec_type": "video", "width": "1920", "height": -1080}]}"#,
    );
    let video = report.video.unwrap();
    assert_eq!(video.width, 0);
    assert_eq!(video.height, 0);
    let report = report_of(
        r#"{"streams": [{"codec_type": "video", "width": 1920.0, "height": 1080.5}]}"#,
    );
    let video = report.video.unwrap();
    assert_eq!(video.width, 0);
    assert_eq!(video.height, 0);
    assert_eq!(video.aspect_ratio, AspectRatio::NotApplicable);
}

#[test]
fn a_reported_number_of_frames_stands() {
    let report = report_of(
        r#"{"format": {"duration": "10.0"},
            "streams": [{"codec_type": "video", "nb_frames": "250", "r_frame_rate": "30/1"}]}"#,
    );
    let video = report.video.unwrap();
    assert_eq!(video.nb_frames, FrameCount::Reported(250));
    assert_eq!(video.nb_frames.total(None), Some(250));
    assert_eq!(video.nb_frames.total(Some(300)), Some(250));
    assert_eq!(derive(&video.nb_frames), None);
}

#[test]
fn a_reported_number_of_frames_needs_no_duration_and_no_rate() {
    let report = report_of(r#"{"streams": [{"codec_type": "video", "nb_frames": "+12"}]}"#);
    let video = report.video.unwrap();
    assert_eq!(video.nb_frames, FrameCount::Reported(12));
}

#[test]
fn frames_follow_from_duration_and_rate_where_none_are_reported() {
    let report = report_of(
        r#"{"format": {"duration": "10.0"},
            "streams": [{"codec_type": "video", "r_frame_rate": "30/1"}]}"#,
    );
    let video = report.video.unwrap();
    assert_eq!(video.nb_frames, from_duration("10.0", "30", "1"));
    assert_eq!(derive(&video.nb_frames), Some(300));
    assert_eq!(video.nb_frames.total(derive(&video.nb_frames)), Some(300));
    assert_eq!(video.nb_frames.total(None), None);
    assert_eq!(report.format.duration, Some("10.0".to_string()));
}

#[test]
fn frames_that_are_reported_unreadably_follow_from_duration_and_rate() {
    for reported in ["\"N/A\"", "\"\"", "\"-5\"", "\"12.0\"", "250", "null", "\"18446744073709551616\""] {
        let report = report_of(&format!(
            r#"{{"format": {{"duration": "2.5"}},
                "streams": [{{"codec_type": "video", "nb_frames": {}, "r_frame_rate": "24000/1001"}}]}}"#,
            reported
        ));
        let video = report.video.unwrap();
        assert_eq!(video.nb_frames, from_duration("2.5", "24000", "1001"));
        assert_eq!(video.nb_frames.total(derive(&video.nb_frames)), Some(59));
    }
}

#[test]
fn a_rate_without_a_slash_gives_no_frames() {
    let report = report_of(
        r#"{"format": {"duration": "10.0"},
            "streams": [{"codec_type": "video", "r_frame_rate": "30"}]}"#,
    );
    let video = report.video.unwrap();
    assert_eq!(video.nb_frames, FrameCount::Absent);
    assert_eq!(video.nb_frames.total(Some(300)), None);
    assert_eq!(video.nb_frames.total(None), None);
    assert_eq!(video.fps, text("30"));
    assert_eq!(report.format.duration, Some("10.0".to_string()));
}

#[test]
fn a_rate_with_two_slashes_gives_no_frames() {
    let report = report_of(
        r#"{"format": {"duration": "10.0"},
            "streams": [{"codec_type": "video", "r_frame_rate": "30/1/1"}]}"#,
    );
    assert_eq!(report.video.unwrap().nb_frames, FrameCount::Absent);
}

#[test]
fn a_missing_duration_or_rate_gives_no_frames() {
    let report = report_of(r#"{"format": {}, "streams": [{"codec_type": "video", "r_frame_rate": "30/1"}]}"#);
    assert_eq!(report.video.unwrap().nb_frames, FrameCount::Absent);
    let report = report_of(r#"{"format": {"duration": "10.0"}, "streams": [{"codec_type": "video"}]}"#);
    assert_eq!(report.video.unwrap().nb_frames, FrameCount::Absent);
    let report = report_of(
        r#"{"format": {"duration": 10.0}, "streams": [{"codec_type": "video", "r_frame_rate": "30/1"}]}"#,
    );
    assert_eq!(report.video.unwrap().nb_frames, FrameCount::Absent);
    let report = report_of(
        r#"{"format": {"duration": "10.0"}, "streams": [{"codec_type": "video", "r_frame_rate": 30}]}"#,
    );
    assert_eq!(report.video.unwrap().nb_frames, FrameCount::Absent);
}

#[test]
fn parts_that_are_no_numbers_are_handed_on_as_they_are() {
    let report = report_of(
        r#"{"format": {"duration": "long"},
            "streams": [{"codec_type": "video", "r_frame_rate": "a/b"}]}"#,
    );
    let video = report.video.unwrap();
    assert_eq!(video.nb_frames, from_duration("long", "a", "b"));
    assert_eq!(video.nb_frames.total(derive(&video.nb_frames)), None);
}

#[test]
fn audio_tracks_are_numbered_among_themselves() {
    let report = report_of(
        r#"{"streams": [
            {"index": 0, "codec_type": "video"},
            {"index": 1, "codec_type": "audio", "codec_name": "aac"},
            {"index": 2, "codec_type": "subtitle"},
            {"index": 3, "codec_type": "audio", "codec_name": "ac3"},
            {"index": 4, "codec_type": "data"},
            {"index": 5, "codec_type": "audio", "codec_name": "opus"}
        ]}"#,
    );
    assert_eq!(report.audio.len(), 3);
    let numbers: Vec<usize> = report.audio.iter().map(|track| track.track_number).collect();
    assert_eq!(numbers, vec![1, 2, 3]);
    let indices: Vec<Json> = report.audio.iter().map(|track| track.index.clone()).collect();
    assert_eq!(indices, vec![Json::Unsigned(1), Json::Unsigned(3), Json::Unsigned(5)]);
    let codecs: Vec<Json> = report.audio.iter().map(|track| track.codec.clone()).collect();
    assert_eq!(codecs, vec![text("aac"), text("ac3"), text("opus")]);
}

#[test]
fn subtitle_tracks_are_numbered_among_themselves() {
    let streams = vec![
        stream("subtitle", 0),
        stream("audio", 1),
        stream("subtitle", 2),
        stream("video", 3),
        stream("subtitle", 4),
    ];
    let tracks = subtitle_tracks(&streams);
    assert_eq!(tracks.len(), 3);
    for (i, track) in tracks.iter().enumerate() {
        assert_eq!(track.track_number, i + 1);
        assert_eq!(track.index, Json::Unsigned(2 * i as u64));
    }
    let tracks = audio_tracks(&streams);
    assert_eq!(tracks.len(), 1);
    assert_eq!(tracks[0].track_number, 1);
    assert_eq!(tracks[0].index, Json::Unsigned(1));
}

#[test]
fn only_the_first_picture_stream_is_reported() {
    let report = report_of(
        r#"{"streams": [
            {"index": 0, "codec_type": "audio"},
            {"index": 1, "codec_type": "video", "codec_name": "h264"},
            {"index": 2, "codec_type": "video", "codec_name": "mjpeg"}
        ]}"#,
    );
    let video = report.video.unwrap();
    assert_eq!(video.index, Json::Unsigned(1));
    assert_eq!(video.codec, text("h264"));
    assert_eq!(report.audio.len(), 1);
}

#[test]
fn first_stream_finds_the_first_of_a_kind() {
    let streams = vec![stream("audio", 0), stream("data", 1), stream("audio", 2)];
    assert_eq!(first_stream(&streams, "audio"), Some(&streams[0]));
    assert_eq!(first_stream(&streams, "data"), Some(&streams[1]));
    assert_eq!(first_stream(&streams, "video"), None);
    assert_eq!(first_stream(&vec![], "video"), None);
}

#[test]
fn streams_of_an_unknown_kind_are_left_out() {
    let report = report_of(
        r#"{"streams": [
            {"codec_type": "attachment"},
            {"codec_type": "Video"},
            {"codec_type": 1},
            {"codec_name": "aac"},
            "audio",
            null
        ]}"#,
    );
    assert_eq!(report.video, None);
    assert!(report.audio.is_empty());
    assert!(report.subtitles.is_empty());
    assert!(report.data_streams.is_empty());
}

#[test]
fn is_kind_reads_the_codec_type() {
    assert!(is_kind(&stream("video", 0), "video"));
    assert!(!is_kind(&stream("video", 0), "audio"));
    assert!(!is_kind(&Json::Null, "video"));
    assert!(!is_kind(&object(vec![("codec_type", Json::Null)]), "video"));
}

#[test]
fn the_format_section_is_filled_from_the_format_object() {
    let report = report_of(
        r#"{"format": {
            "filename": "/tmp/a.mkv",
            "format_name": "matroska,webm",
            "format_long_name": "Matroska / WebM",
            "duration": "12.345000",
            "size": "1048576",
            "bit_rate": "679000",
            "nb_streams": 3,
            "nb_programs": 0,
            "probe_score": 100,
            "tags": {"title": "A", "encoder": "x"}
        }}"#,
    );
    let format = report.format;
    assert_eq!(format.filename, text("/tmp/a.mkv"));
    assert_eq!(format.format_name, text("matroska,webm"));
    assert_eq!(format.format_long_name, text("Matroska / WebM"));
    assert_eq!(format.duration, Some("12.345000".to_string()));
    assert_eq!(format.size, 1_048_576);
    assert_eq!(format.bit_rate, 679_000);
    assert_eq!(format.nb_streams, Json::Unsigned(3));
    assert_eq!(format.nb_programs, Json::Unsigned(0));
    assert_eq!(format.probe_score, Json::Unsigned(100));
    assert_eq!(format.tags.get("title"), Some(&text("A")));
    assert_eq!(format.tags.get("encoder"), Some(&text("x")));
}

#[test]
fn numbers_in_text_that_cannot_be_read_count_as_zero() {
    let format = format_info(&object(vec![
        ("size", text("big")),
        ("bit_rate", Json::Unsigned(679_000)),
        ("duration", Json::Unsigned(12)),
    ]));
    assert_eq!(format.size, 0);
    assert_eq!(format.bit_rate, 0);
    assert_eq!(format.duration, None);
    let format = format_info(&object(vec![("size", text("-1")), ("bit_rate", text("1.5"))]));
    assert_eq!(format.size, 0);
    assert_eq!(format.bit_rate, 0);
}

#[test]
fn amount_pixels_and_owned_text_read_one_member() {
    let source = object(vec![("a", text("42")), ("b", Json::Unsigned(42)), ("c", text("x"))]);
    assert_eq!(amount(&source, "a"), 42);
    assert_eq!(amount(&source, "b"), 0);
    assert_eq!(amount(&source, "c"), 0);
    assert_eq!(amount(&source, "d"), 0);
    assert_eq!(pixels(&source, "a"), 0);
    assert_eq!(pixels(&source, "b"), 42);
    assert_eq!(pixels(&source, "d"), 0);
    assert_eq!(owned_text(&source, "a"), Some("42".to_string()));
    assert_eq!(owned_text(&source, "b"), None);
    assert_eq!(owned_text(&source, "d"), None);
}

#[test]
fn the_picture_section_is_filled_from_the_stream() {
    let report = report_of(
        r#"{"format": {"duration": "60.000000"},
            "streams": [{
                "index": 0,
                "codec_type": "video",
                "codec_name": "h264",
                "codec_long_name": "H.264",
                "codec_tag_string": "avc1",
                "profile": "High",
                "level": 40,
                "width": 1280,
                "height": 720,
                "display_aspect_ratio": "16:9",
                "sample_aspect_ratio": "1:1",
                "r_frame_rate": "25/1",
                "avg_frame_rate": "25/1",
                "time_base": "1/12800",
                "bit_rate": "2500000",
                "max_bit_rate": "3000000",
                "pix_fmt": "yuv420p",
                "color_space": "bt709",
                "color_transfer": "bt709",
                "color_primaries": "bt709",
                "color_range": "tv",
                "chroma_location": "left",
                "field_order": "progressive",
                "refs": 1,
                "has_b_frames": 2,
                "bits_per_raw_sample": "8",
                "start_time": "0.000000",
                "duration": "60.000000",
                "nb_frames": "1500",
                "tags": {"rotate": "90", "language": "und"}
            }]}"#,
    );
    let video = report.video.unwrap();
    assert_eq!(video.index, Json::Unsigned(0));
    assert_eq!(video.codec, text("h264"));
    assert_eq!(video.codec_long, text("H.264"));
    assert_eq!(video.codec_tag, text("avc1"));
    assert_eq!(video.profile, text("High"));
    assert_eq!(video.level, Json::Unsigned(40));
    assert_eq!(video.width, 1280);
    assert_eq!(video.height, 720);
    assert_eq!(video.aspect_ratio, AspectRatio::Quotient { width: 1280, height: 720 });
    assert_eq!(video.display_aspect_ratio, text("16:9"));
    assert_eq!(video.sample_aspect_ratio, text("1:1"));
    assert_eq!(video.fps, text("25/1"));
    assert_eq!(video.avg_fps, text("25/1"));
    assert_eq!(video.time_base, text("1/12800"));
    assert_eq!(video.bit_rate, 2_500_000);
    assert_eq!(video.max_bit_rate, text("3000000"));
    assert_eq!(video.pix_fmt, text("yuv420p"));
    assert_eq!(video.color_space, text("bt709"));
    assert_eq!(video.color_transfer, text("bt709"));
    assert_eq!(video.color_primaries, text("bt709"));
    assert_eq!(video.color_range, text("tv"));
    assert_eq!(video.chroma_location, text("left"));
    assert_eq!(video.field_order, text("progressive"));
    assert_eq!(video.refs, Json::Unsigned(1));
    assert_eq!(video.has_b_frames, Json::Unsigned(2));
    assert_eq!(video.bits_per_raw_sample, text("8"));
    assert_eq!(video.start_time, text("0.000000"));
    assert_eq!(video.duration, text("60.000000"));
    assert_eq!(video.nb_frames, FrameCount::Reported(1500));
    assert_eq!(video.rotation, text("90"));
    assert_eq!(video.tags, object(vec![("language", text("und")), ("rotate", text("90"))]));
}

#[test]
fn the_picture_section_of_a_bare_stream_holds_the_defaults() {
    let video = video_stream(&stream("video", 7), &Json::Null);
    assert_eq!(video.index, Json::Unsigned(7));
    assert_eq!(video.codec, Json::Null);
    assert_eq!(video.codec_long, Json::Null);
    assert_eq!(video.codec_tag, text(""));
    assert_eq!(video.profile, text(""));
    assert_eq!(video.level, text(""));
    assert_eq!(video.width, 0);
    assert_eq!(video.height, 0);
    assert_eq!(video.aspect_ratio, AspectRatio::NotApplicable);
    assert_eq!(video.display_aspect_ratio, text(""));
    assert_eq!(video.sample_aspect_ratio, text(""));
    assert_eq!(video.fps, Json::Null);
    assert_eq!(video.avg_fps, text(""));
    assert_eq!(video.time_base, text(""));
    assert_eq!(video.bit_rate, 0);
    assert_eq!(video.max_bit_rate, text(""));
    assert_eq!(video.pix_fmt, Json::Null);
    assert_eq!(video.color_space, text(""));
    assert_eq!(video.color_transfer, text(""));
    assert_eq!(video.color_primaries, text(""));
    assert_eq!(video.color_range, text(""));
    assert_eq!(video.chroma_location, text(""));
    assert_eq!(video.field_order, text(""));
    assert_eq!(video.refs, text(""));
    assert_eq!(video.has_b_frames, Json::Unsigned(0));
    assert_eq!(video.bits_per_raw_sample, text(""));
    assert_eq!(video.start_time, text(""));
    assert_eq!(video.duration, text(""));
    assert_eq!(video.nb_frames, FrameCount::Absent);
    assert_eq!(video.rotation, text(""));
    assert_eq!(video.tags, Json::Object(vec![]));
}

#[test]
fn a_member_that_is_null_is_passed_on_as_null() {
    let report = report_of(
        r#"{"streams": [{"codec_type": "video", "profile": null, "tags": null, "has_b_frames": null}]}"#,
    );
    let video = report.video.unwrap();
    assert_eq!(video.profile, Json::Null);
    assert_eq!(video.tags, Json::Null);
    assert_eq!(video.has_b_frames, Json::Null);
    assert_eq!(video.rotation, text(""));
}

#[test]
fn the_record_of_a_sound_stream_is_filled_from_the_stream() {
    let report = report_of(
        r#"{"streams": [{
            "index": 1,
            "codec_type": "audio",
            "codec_name": "aac",
            "codec_long_name": "AAC (Advanced Audio Coding)",
            "codec_tag_string": "mp4a",
            "profile": "LC",
            "sample_rate": "48000",
            "channels": 2,
            "channel_layout": "stereo",
            "bits_per_sample": 0,
            "bit_rate": "128000",
            "max_bit_rate": "128000",
            "sample_fmt": "fltp",
            "time_base": "1/48000",
            "start_time": "0.000000",
            "duration": "60.000000",
            "nb_frames": "2813",
            "tags": {"language": "eng", "title": "Main"}
        }]}"#,
    );
    assert_eq!(report.audio.len(), 1);
    let track = &report.audio[0];
    assert_eq!(track.index, Json::Unsigned(1));
    assert_eq!(track.track_number, 1);
    assert_eq!(track.codec, text("aac"));
    assert_eq!(track.codec_long, text("AAC (Advanced Audio Coding)"));
    assert_eq!(track.codec_tag, text("mp4a"));
    assert_eq!(track.profile, text("LC"));
    assert_eq!(track.sample_rate, text("48000"));
    assert_eq!(track.channels, Json::Unsigned(2));
    assert_eq!(track.channel_layout, text("stereo"));
    assert_eq!(track.bits_per_sample, Json::Unsigned(0));
    assert_eq!(track.bit_rate, 128_000);
    assert_eq!(track.max_bit_rate, text("128000"));
    assert_eq!(track.sample_fmt, text("fltp"));
    assert_eq!(track.time_base, text("1/48000"));
    assert_eq!(track.start_time, text("0.000000"));
    assert_eq!(track.duration, text("60.000000"));
    assert_eq!(track.nb_frames, text("2813"));
    assert_eq!(track.language, text("eng"));
    assert_eq!(track.title, text("Main"));
    assert_eq!(track.tags, object(vec![("language", text("eng")), ("title", text("Main"))]));
}

#[test]
fn the_record_of_a_bare_sound_stream_holds_the_defaults() {
    let tracks = audio_tracks(&vec![object(vec![("codec_type", text("audio"))])]);
    let track = &tracks[0];
    assert_eq!(track.index, Json::Null);
    assert_eq!(track.track_number, 1);
    assert_eq!(track.codec, Json::Null);
    assert_eq!(track.codec_long, Json::Null);
    assert_eq!(track.codec_tag, text(""));
    assert_eq!(track.profile, text(""));
    assert_eq!(track.sample_rate, Json::Null);
    assert_eq!(track.channels, Json::Null);
    assert_eq!(track.channel_layout, text(""));
    assert_eq!(track.bits_per_sample, text(""));
    assert_eq!(track.bit_rate, 0);
    assert_eq!(track.max_bit_rate, text(""));
    assert_eq!(track.sample_fmt, text(""));
    assert_eq!(track.time_base, text(""));
    assert_eq!(track.start_time, text(""));
    assert_eq!(track.duration, text(""));
    assert_eq!(track.nb_frames, text(""));
    assert_eq!(track.language, text(""));
    assert_eq!(track.title, text(""));
    assert_eq!(track.tags, Json::Object(vec![]));
}

#[test]
fn the_record_of_a_subtitle_stream_is_filled_from_the_stream() {
    let report = report_of(
        r#"{"streams": [{
            "index": 2,
            "codec_type": "subtitle",
            "codec_name": "subrip",
            "codec_long_name": "SubRip subtitle",
            "codec_tag_string": "[0][0][0][0]",
            "disposition": {"default": 1, "forced": 0, "dub": 0},
            "tags": {"language": "fre", "title": "Forced"}
        }, {
            "codec_type": "subtitle"
        }]}"#,
    );
    assert_eq!(report.subtitles.len(), 2);
    let track = &report.subtitles[0];
    assert_eq!(track.index, Json::Unsigned(2));
    assert_eq!(track.track_number, 1);
    assert_eq!(track.codec, text("subrip"));
    assert_eq!(track.codec_long, text("SubRip subtitle"));
    assert_eq!(track.codec_tag, text("[0][0][0][0]"));
    assert_eq!(track.language, text("fre"));
    assert_eq!(track.title, text("Forced"));
    assert_eq!(track.forced, Json::Unsigned(0));
    assert_eq!(track.default_track, Json::Unsigned(1));
    assert_eq!(track.tags, object(vec![("language", text("fre")), ("title", text("Forced"))]));
    let bare = &report.subtitles[1];
    assert_eq!(bare.index, Json::Null);
    assert_eq!(bare.track_number, 2);
    assert_eq!(bare.codec, Json::Null);
    assert_eq!(bare.codec_long, text(""));
    assert_eq!(bare.codec_tag, text(""));
    assert_eq!(bare.language, text(""));
    assert_eq!(bare.title, text(""));
    assert_eq!(bare.forced, Json::Unsigned(0));
    assert_eq!(bare.default_track, Json::Unsigned(0));
    assert_eq!(bare.tags, Json::Object(vec![]));
}

#[test]
fn the_records_of_data_streams_keep_their_order() {
    let records = data_streams(&vec![
        object(vec![("index", Json::Unsigned(3)), ("codec_type", text("data")), ("codec_name", text("bin_data"))]),
        stream("audio", 4),
        object(vec![
            ("index", Json::Unsigned(5)),
            ("codec_type", text("data")),
            ("codec_long_name", text("binary data")),
            ("tags", object(vec![("handler_name", text("GoPro MET"))])),
        ]),
    ]);
    assert_eq!(records.len(), 2);
    assert_eq!(records[0].index, Json::Unsigned(3));
    assert_eq!(records[0].codec, text("bin_data"));
    assert_eq!(records[0].codec_long, text(""));
    assert_eq!(records[0].tags, Json::Object(vec![]));
    assert_eq!(records[1].index, Json::Unsigned(5));
    assert_eq!(records[1].codec, text(""));
    assert_eq!(records[1].codec_long, text("binary data"));
    assert_eq!(records[1].tags, object(vec![("handler_name", text("GoPro MET"))]));
}

#[test]
fn the_records_of_chapters_are_filled_one_for_one() {
    let report = report_of(
        r#"{"chapters": [
            {"id": 0, "time_base": "1/1000", "start": 0, "end": 5000,
             "start_time": "0.000000", "end_time": "5.000000", "tags": {"title": "Intro"}},
            {},
            {"id": -4, "start": 5000.5}
        ]}"#,
    );
    assert_eq!(report.chapters.len(), 3);
    let first = &report.chapters[0];
    assert_eq!(first.id, Json::Unsigned(0));
    assert_eq!(first.time_base, text("1/1000"));
    assert_eq!(first.start, Json::Unsigned(0));
    assert_eq!(first.end, Json::Unsigned(5000));
    assert_eq!(first.start_time, text("0.000000"));
    assert_eq!(first.end_time, text("5.000000"));
    assert_eq!(first.tags, object(vec![("title", text("Intro"))]));
    let bare = &report.chapters[1];
    assert_eq!(bare.id, Json::Unsigned(0));
    assert_eq!(bare.time_base, text(""));
    assert_eq!(bare.start, Json::Unsigned(0));
    assert_eq!(bare.end, Json::Unsigned(0));
    assert_eq!(bare.start_time, text(""));
    assert_eq!(bare.end_time, text(""));
    assert_eq!(bare.tags, Json::Object(vec![]));
    let third = &report.chapters[2];
    assert_eq!(third.id, Json::Signed(-4));
    assert_eq!(third.start, Json::Real("5000.5".to_string()));
}

#[test]
fn chapter_marks_of_no_chapters_are_none() {
    assert!(chapter_marks(&vec![]).is_empty());
    assert_eq!(chapter_marks(&vec![Json::Null, Json::Unsigned(1)]).len(), 2);
}

#[test]
fn frame_count_reads_the_stream_and_the_format() {
    let format = object(vec![("duration", text("1.5"))]);
    let reported = object(vec![("nb_frames", text("45")), ("r_frame_rate", text("30/1"))]);
    assert_eq!(frame_count(&reported, &format), FrameCount::Reported(45));
    let unreported = object(vec![("r_frame_rate", text("30/1"))]);
    assert_eq!(frame_count(&unreported, &format), from_duration("1.5", "30", "1"));
    assert_eq!(frame_count(&unreported, &Json::Null), FrameCount::Absent);
    assert_eq!(frame_count(&Json::Null, &format), FrameCount::Absent);
}

#[test]
fn frame_count_total_goes_by_the_case() {
    assert_eq!(FrameCount::Reported(7).total(None), Some(7));
    assert_eq!(FrameCount::Reported(7).total(Some(8)), Some(7));
    assert_eq!(from_duration("1", "2", "3").total(Some(8)), Some(8));
    assert_eq!(from_duration("1", "2", "3").total(None), None);
    assert_eq!(FrameCount::Absent.total(Some(8)), None);
    assert_eq!(FrameCount::Absent.total(None), None);
}

#[test]
fn aspect_ratio_text_is_the_quotient_or_the_sentinel() {
    let ratio = AspectRatio::Quotient { width: 4, height: 3 };
    assert_eq!(ratio.text("1.33".to_string()), "1.33");
    assert_eq!(AspectRatio::NotApplicable.text("1.33".to_string()), "N/A");
    assert_eq!(AspectRatio::NotApplicable.text(String::new()), "N/A");
}
