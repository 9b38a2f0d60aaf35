//! The decisions around a run of the probe tool: what to do when the tool is
//! missing, how to call it, and what to make of what it printed.
//!
//! Starting, downloading and running the tool is the caller's work. The
//! functions here take what came of it and say what follows.

use crate::document::{document, read_document};
use crate::json::{views, JsonValue};
use crate::normalize::{normalized, parse_video_data};
use crate::report::{Report, ReportView};
use vstd::prelude::*;
use vstd::string::StringExecFns;

verus! {

/// What came of one step of setting the tool up.
#[derive(Clone, Debug, PartialEq, Eq)]
pub enum SetupEvent {
    /// The tool was started.
    Started,
    /// The tool could not be started.
    NotStarted,
    /// The tool was downloaded and installed.
    Downloaded,
    /// The download failed, with this description.
    DownloadFailed(String),
}

/// What the setup of the tool comes to after an event.
#[derive(Clone, Debug, PartialEq, Eq)]
pub enum SetupStep {
    /// The tool is to be downloaded and installed.
    Download,
    /// The setup is over: the tool can be used, and this is its status.
    Finished(String),
    /// The setup is over: the tool cannot be had, and this is the error.
    Failed(String),
}

/// `prefix` followed by `detail`.
pub fn describe(prefix: &str, detail: &str) -> (message: String)
    ensures
        message@ == prefix@ + detail@,
{
    let mut message = prefix.to_owned();
    message.append(detail);
    message
}

/// What follows an event of the setup. The caller begins by trying to start
/// the tool. A tool that starts is `ready`. One that does not is downloaded:
/// it is then `installed`, or the setup fails with the description of the
/// failed download.
pub fn check_and_install(event: SetupEvent) -> (step: SetupStep)
    ensures
        match event {
            SetupEvent::Started => step matches SetupStep::Finished(status) && status@
                == "ready"@,
            SetupEvent::NotStarted => step is Download,
            SetupEvent::Downloaded => step matches SetupStep::Finished(status) && status@
                == "installed"@,
            SetupEvent::DownloadFailed(detail) => step matches SetupStep::Failed(message)
                && message@ == "Failed to download FFmpeg: "@ + detail@,
        },
{
    match event {
        SetupEvent::Started => SetupStep::Finished("ready".to_owned()),
        SetupEvent::NotStarted => SetupStep::Download,
        SetupEvent::Downloaded => SetupStep::Finished("installed".to_owned()),
        SetupEvent::DownloadFailed(detail) => SetupStep::Failed(
            describe("Failed to download FFmpeg: ", detail.as_str()),
        ),
    }
}

/// The file name of the probe tool in its installation directory.
pub fn probe_program(windows: bool) -> (name: String)
    ensures
        name@ == if windows {
            "ffprobe.exe"@
        } else {
            "ffprobe"@
        },
{
    if windows {
        "ffprobe.exe".to_owned()
    } else {
        "ffprobe".to_owned()
    }
}

/// The arguments of a run of the probe tool on the file at `path`.
pub open spec fn probe_arguments_of(path: Seq<char>) -> Seq<Seq<char>> {
    seq![
        "-v"@,
        "quiet"@,
        "-print_format"@,
        "json"@,
        "-show_format"@,
        "-show_streams"@,
        "-show_chapters"@,
        path,
    ]
}

/// The arguments of a run of the probe tool on the file at `path`: quiet,
/// with the format, the streams and the chapters printed as one JSON
/// document.
pub fn probe_arguments(path: &str) -> (arguments: Vec<String>)
    ensures
        views(arguments@) == probe_arguments_of(path@),
{
    let mut arguments: Vec<String> = Vec::new();
    arguments.push("-v".to_owned());
    arguments.push("quiet".to_owned());
    arguments.push("-print_format".to_owned());
    arguments.push("json".to_owned());
    arguments.push("-show_format".to_owned());
    arguments.push("-show_streams".to_owned());
    arguments.push("-show_chapters".to_owned());
    arguments.push(path.to_owned());
    assert(views(arguments@) =~= probe_arguments_of(path@));
    arguments
}

/// The error of a run whose installation directory could not be found.
pub fn directory_failure(detail: &str) -> (message: String)
    ensures
        message@ == "Failed to get sidecar directory: "@ + detail@,
{
    describe("Failed to get sidecar directory: ", detail)
}

/// The error of a run that could not be started.
pub fn launch_failure(detail: &str) -> (message: String)
    ensures
        message@ == "Failed to execute ffprobe: "@ + detail@,
{
    describe("Failed to execute ffprobe: ", detail)
}

/// What a run of the probe tool comes to: the report of the document that the
/// tool printed, or the error.
pub open spec fn probe_result(success: bool, output: Seq<char>, errors: Seq<char>) -> Result<
    ReportView,
    Seq<char>,
> {
    if !success {
        Err("FFprobe error: "@ + errors)
    } else {
        match document(output) {
            Ok(data) => Ok(normalized(data)),
            Err(detail) => Err("Failed to parse JSON: "@ + detail),
        }
    }
}

/// What a result denotes.
pub open spec fn result_view(result: Result<Report, String>) -> Result<ReportView, Seq<char>> {
    match result {
        Ok(report) => Ok(report@),
        Err(message) => Err(message@),
    }
}

/// Makes the report from a finished run of the probe tool: `success` says
/// whether the tool exited with status 0, `output` is what it printed, and
/// `errors` what it printed as errors.
///
/// A run that failed gives the tool's own errors. A run that printed
/// something other than a JSON document gives the description of where the
/// document goes wrong. No other run fails.
pub fn get_video_info(success: bool, output: &str, errors: &str) -> (result: Result<
    Report,
    String,
>)
    ensures
        result_view(result) == probe_result(success, output@, errors@),
{
    if !success {
        return Err(describe("FFprobe error: ", errors));
    }
    match read_document(output) {
        Ok(data) => Ok(parse_video_data(data)),
        Err(detail) => Err(describe("Failed to parse JSON: ", detail.as_str())),
    }
}

} // verus!
