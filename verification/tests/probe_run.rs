use video_info::dialog::{path_failure, suggested_file_name, video_extensions};
use video_info::document::read_document;
use video_info::json::Json;
use video_info::probe::{
    check_and_install, describe, directory_failure, get_video_info, launch_failure,
    probe_arguments, probe_program, SetupEvent, SetupStep,
};

#[test]
fn a_tool_that_starts_is_ready() {
    assert_eq!(check_and_install(SetupEvent::Started), SetupStep::Finished("ready".to_string()));
}

#[test]
fn a_tool_that_does_not_start_is_downloaded() {
    assert_eq!(check_and_install(SetupEvent::NotStarted), SetupStep::Download);
}

#[test]
fn a_downloaded_tool_is_installed() {
    assert_eq!(
        check_and_install(SetupEvent::Downloaded),
        SetupStep::Finished("installed".to_string())
    );
}

#[test]
fn a_failed_download_fails_the_setup() {
    assert_eq!(
        check_and_install(SetupEvent::DownloadFailed("no route to host".to_string())),
        SetupStep::Failed("Failed to download FFmpeg: no route to host".to_string())
    );
    assert_eq!(
        check_and_install(SetupEvent::DownloadFailed(String::new())),
        SetupStep::Failed("Failed to download FFmpeg: ".to_string())
    );
}

#[test]
fn the_tool_is_named_by_the_platform() {
    assert_eq!(probe_program(true), "ffprobe.exe");
    assert_eq!(probe_program(false), "ffprobe");
}

#[test]
fn the_tool_is_asked_for_one_quiet_json_document() {
    assert_eq!(
        probe_arguments("/movies/a b.mkv"),
        vec![
            "-v",
            "quiet",
            "-print_format",
            "json",
            "-show_format",
            "-show_streams",
            "-show_chapters",
            "/movies/a b.mkv",
        ]
    );
    assert_eq!(probe_arguments("").len(), 8);
    assert_eq!(probe_arguments("")[7], "");
    assert_eq!(probe_arguments("-v")[7], "-v");
}

#[test]
fn failures_are_described_with_their_origin() {
    assert_eq!(describe("a: ", "b"), "a: b");
    assert_eq!(describe("", ""), "");
    assert_eq!(directory_failure("denied"), "Failed to get sidecar directory: denied");
    assert_eq!(launch_failure("not found"), "Failed to execute ffprobe: not found");
    assert_eq!(path_failure("not a file"), "Failed to get path: not a file");
}

#[test]
fn a_failed_run_gives_the_errors_of_the_tool() {
    let result = get_video_info(false, "{}", "a.mp4: No such file or directory\n");
    assert_eq!(result, Err("FFprobe error: a.mp4: No such file or directory\n".to_string()));
    let result = get_video_info(false, "not json", "");
    assert_eq!(result, Err("FFprobe error: ".to_string()));
}

#[test]
fn a_run_that_printed_no_document_gives_a_decoding_error() {
    let result = get_video_info(true, "", "ignored");
    assert_eq!(
        result,
        Err("Failed to parse JSON: EOF while parsing a value at line 1 column 0".to_string())
    );
    let result = get_video_info(true, "{\"streams\": [}", "");
    assert_eq!(
        result,
        Err("Failed to parse JSON: expected value at line 1 column 14".to_string())
    );
}

#[test]
fn a_run_that_printed_a_document_gives_its_report() {
    let output = r#"{
        "streams": [
            {"index": 0, "codec_type": "video", "width": 640, "height": 480},
            {"index": 1, "codec_type": "audio"}
        ],
        "chapters": [{"id": 1}],
        "format": {"filename": "a.mp4", "size": "2048"}
    }"#;
    let report = get_video_info(true, output, "warning on stderr").unwrap();
    assert_eq!(report.format.filename, Json::Text("a.mp4".to_string()));
    assert_eq!(report.format.size, 2048);
    assert_eq!(report.video.unwrap().width, 640);
    assert_eq!(report.audio.len(), 1);
    assert_eq!(report.audio[0].track_number, 1);
    assert_eq!(report.chapters.len(), 1);
}

#[test]
fn a_document_is_read_with_every_kind_of_value() {
    let json = read_document(
        r#"{"a": null, "b": true, "c": 7, "d": -7, "e": 1.5, "f": "x", "g": [1, "y"], "h": {"i": false}}"#,
    )
    .unwrap();
    assert_eq!(json.get("a"), Some(&Json::Null));
    assert_eq!(json.get("b"), Some(&Json::Bool(true)));
    assert_eq!(json.get("c"), Some(&Json::Unsigned(7)));
    assert_eq!(json.get("d"), Some(&Json::Signed(-7)));
    assert_eq!(json.get("e"), Some(&Json::Real("1.5".to_string())));
    assert_eq!(json.get("f"), Some(&Json::Text("x".to_string())));
    assert_eq!(
        json.get("g"),
        Some(&Json::Array(vec![Json::Unsigned(1), Json::Text("y".to_string())]))
    );
    assert_eq!(json.nested("h", "i"), Some(&Json::Bool(false)));
    assert_eq!(json.get("j"), None);
}

#[test]
fn numbers_are_read_by_their_kind() {
    let json = read_document(
        "[0, 18446744073709551615, 18446744073709551616, -1, -9223372036854775808, 1.0, 1e2, -0.5, 0.1]",
    )
    .unwrap();
    assert_eq!(
        json,
        Json::Array(vec![
            Json::Unsigned(0),
            Json::Unsigned(u64::MAX),
            Json::Real("1.8446744073709552e+19".to_string()),
            Json::Signed(-1),
            Json::Signed(i64::MIN),
            Json::Real("1.0".to_string()),
            Json::Real("100.0".to_string()),
            Json::Real("-0.5".to_string()),
            Json::Real("0.1".to_string()),
        ])
    );
}

#[test]
fn the_text_of_a_real_number_reads_back_as_the_same_number() {
    let json = read_document("[29.97, 1e-7, 123456789.125, 5e300]").unwrap();
    let expected = [29.97f64, 1e-7, 123456789.125, 5e300];
    match json {
        Json::Array(items) => {
            assert_eq!(items.len(), expected.len());
            for (item, number) in items.iter().zip(expected) {
                match item {
                    Json::Real(text) => assert_eq!(text.parse::<f64>().unwrap(), number),
                    other => panic!("{:?} is no real number", other),
                }
            }
        }
        other => panic!("{:?} is no array", other),
    }
}

#[test]
fn a_scalar_document_is_a_document() {
    assert_eq!(read_document("null"), Ok(Json::Null));
    assert_eq!(read_document(" \"a\\u00e9\\n\" "), Ok(Json::Text("a\u{e9}\n".to_string())));
    assert_eq!(read_document("[]"), Ok(Json::Array(vec![])));
    assert_eq!(read_document("{}"), Ok(Json::Object(vec![])));
}

#[test]
fn a_document_that_goes_wrong_is_described() {
    assert_eq!(
        read_document("{\"a\": "),
        Err("EOF while parsing a value at line 1 column 6".to_string())
    );
    assert_eq!(
        read_document("nul"),
        Err("EOF while parsing a value at line 1 column 3".to_string())
    );
    assert_eq!(read_document("{} x"), Err("trailing characters at line 1 column 4".to_string()));
    assert_eq!(
        read_document("{\"a\": 1,}"),
        Err("trailing comma at line 1 column 9".to_string())
    );
}

#[test]
fn members_of_one_name_are_read_once() {
    let json = read_document(r#"{"a": 1, "b": 2, "a": 3}"#).unwrap();
    match &json {
        Json::Object(members) => assert_eq!(members.len(), 2),
        other => panic!("{:?} is no object", other),
    }
    assert_eq!(json.get("a"), Some(&Json::Unsigned(3)));
    assert_eq!(json.get("b"), Some(&Json::Unsigned(2)));
}

#[test]
fn the_picker_offers_ten_kinds_of_container() {
    assert_eq!(
        video_extensions(),
        vec!["mp4", "avi", "mkv", "mov", "wmv", "flv", "webm", "m4v", "mpg", "mpeg"]
    );
}

#[test]
fn a_report_is_saved_under_a_suggested_name() {
    assert_eq!(suggested_file_name(), "video-analysis.json");
}
