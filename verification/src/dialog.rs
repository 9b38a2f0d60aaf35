//! What the file dialogs are set up with.

use crate::json::views;
use crate::probe::describe;
use vstd::prelude::*;

verus! {

/// The file name extensions of the containers that the file picker offers.
pub open spec fn video_extensions_list() -> Seq<Seq<char>> {
    seq![
        "mp4"@,
        "avi"@,
        "mkv"@,
        "mov"@,
        "wmv"@,
        "flv"@,
        "webm"@,
        "m4v"@,
        "mpg"@,
        "mpeg"@,
    ]
}

/// The file name extensions of the containers that the file picker offers.
/// They filter what the picker shows; a file of any name can be analyzed.
pub fn video_extensions() -> (extensions: Vec<String>)
    ensures
        views(extensions@) == video_extensions_list(),
{
    let mut extensions: Vec<String> = Vec::new();
    extensions.push("mp4".to_owned());
    extensions.push("avi".to_owned());
    extensions.push("mkv".to_owned());
    extensions.push("mov".to_owned());
    extensions.push("wmv".to_owned());
    extensions.push("flv".to_owned());
    extensions.push("webm".to_owned());
    extensions.push("m4v".to_owned());
    extensions.push("mpg".to_owned());
    extensions.push("mpeg".to_owned());
    assert(views(extensions@) =~= video_extensions_list());
    extensions
}

/// The file name that the save dialog suggests for a report.
pub fn suggested_file_name() -> (name: String)
    ensures
        name@ == "video-analysis.json"@,
{
    "video-analysis.json".to_owned()
}

/// The error of a dialog whose choice is not a path of the file system.
pub fn path_failure(detail: &str) -> (message: String)
    ensures
        message@ == "Failed to get path: "@ + detail@,
{
    describe("Failed to get path: ", detail)
}

} // verus!
