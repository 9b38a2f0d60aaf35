//! What holds of every report, whatever the document.

use crate::json::{lookup, JsonValue};
use crate::normalize::{
    audio_of, chapters_in, first_of_kind, frame_count_of, has_kind, normalized, of_kind,
    reported_frames, streams_in, subtitle_of, video_of,
};
use crate::render::video_rendered;
use crate::report::{AspectRatio, FrameCountView};
use crate::text::{rate_parts, splits_at};
use vstd::prelude::*;

verus! {

/// A document without a `streams` member has no picture section, and no
/// record of a sound, subtitle or data stream.
pub proof fn lemma_no_streams(data: JsonValue)
    requires
        data.member("streams"@) is None,
    ensures
        normalized(data).video is None,
        normalized(data).audio.len() == 0,
        normalized(data).subtitles.len() == 0,
        normalized(data).data_streams.len() == 0,
{
    reveal(Seq::filter);
    assert(streams_in(data).len() == 0);
}

/// A document without a `chapters` member has no chapter records.
pub proof fn lemma_no_chapters(data: JsonValue)
    requires
        data.member("chapters"@) is None,
    ensures
        normalized(data).chapters.len() == 0,
{
    assert(chapters_in(data).len() == 0);
}

/// A picture stream has an aspect ratio exactly where its height is not 0;
/// where it has one, it is that of its width to its height.
pub proof fn lemma_aspect_ratio(data: JsonValue)
    requires
        normalized(data).video is Some,
    ensures
        ({
            let video = normalized(data).video->0;
            &&& video.height == 0 <==> video.aspect_ratio == AspectRatio::NotApplicable
            &&& video.height != 0 ==> video.aspect_ratio == (AspectRatio::Quotient {
                width: video.width,
                height: video.height,
            })
        }),
{
}

/// In the JSON form of a report, the aspect ratio of a picture stream of
/// height 0 reads `N/A`, whatever quotient and whatever number of frames the
/// caller hands in.
pub proof fn lemma_zero_height_reads_not_applicable(
    data: JsonValue,
    quotient: Seq<char>,
    frames: Option<u64>,
)
    requires
        normalized(data).video is Some,
        normalized(data).video->0.height == 0,
    ensures
        video_rendered(normalized(data).video->0, quotient, frames).at("aspect_ratio"@)
            == JsonValue::Text("N/A"@),
{
    let members = video_rendered(normalized(data).video->0, quotient, frames)->Object_0;
    assert(members[0].0 == "aspect_ratio"@);
    assert(lookup(members, "aspect_ratio"@) == Some(members[0].1));
}

/// A reported number of frames stands: neither the container's duration, nor
/// the frame rate, nor anything made of them has a say.
pub proof fn lemma_reported_frames_stand(
    stream: JsonValue,
    format: JsonValue,
    derived: Option<u64>,
)
    requires
        reported_frames(stream) is Some,
    ensures
        frame_count_of(stream, format) == FrameCountView::Reported(reported_frames(stream)->0),
        frame_count_of(stream, format).total(derived) == reported_frames(stream),
{
}

/// A frame rate without a `/` has no parts.
pub proof fn lemma_rate_without_slash(rate: Seq<char>)
    requires
        !rate.contains('/'),
    ensures
        rate_parts(rate) is None,
{
    assert forall|at: int| !splits_at(rate, at) by {
        if splits_at(rate, at) {
            assert(rate.contains(rate[at]));
        }
    }
}

/// Where no number of frames is reported and the frame rate has no parts,
/// the number of frames is absent, whatever the container's duration and
/// whatever is made of it.
pub proof fn lemma_frames_need_a_rate(stream: JsonValue, format: JsonValue, derived: Option<u64>)
    requires
        reported_frames(stream) is None,
        match stream.at("r_frame_rate"@).text() {
            Some(rate) => rate_parts(rate) is None,
            None => true,
        },
    ensures
        frame_count_of(stream, format) == FrameCountView::Absent,
        frame_count_of(stream, format).total(derived) is None,
{
}

/// Every stream among those of a kind is a stream of that kind, and stands
/// somewhere among all the streams.
pub proof fn lemma_of_kind_comes_from(streams: Seq<JsonValue>, kind: Seq<char>, i: int) -> (p: int)
    requires
        0 <= i < of_kind(streams, kind).len(),
    ensures
        0 <= p < streams.len(),
        streams[p] == of_kind(streams, kind)[i],
        has_kind(streams[p], kind),
    decreases streams.len(),
{
    reveal(Seq::filter);
    let rest = streams.drop_last();
    if has_kind(streams.last(), kind) && i == of_kind(rest, kind).len() {
        streams.len() - 1
    } else {
        lemma_of_kind_comes_from(rest, kind, i)
    }
}

/// The streams of a kind keep their order: of two of them, the one that comes
/// first among its kind also comes first among all the streams.
pub proof fn lemma_of_kind_keeps_order(
    streams: Seq<JsonValue>,
    kind: Seq<char>,
    i: int,
    j: int,
) -> (places: (int, int))
    requires
        0 <= i < j < of_kind(streams, kind).len(),
    ensures
        0 <= places.0 < places.1 < streams.len(),
        streams[places.0] == of_kind(streams, kind)[i],
        streams[places.1] == of_kind(streams, kind)[j],
    decreases streams.len(),
{
    reveal(Seq::filter);
    let rest = streams.drop_last();
    if has_kind(streams.last(), kind) && j == of_kind(rest, kind).len() {
        let p = lemma_of_kind_comes_from(rest, kind, i);
        (p, streams.len() - 1)
    } else {
        lemma_of_kind_keeps_order(rest, kind, i, j)
    }
}

/// What the first stream of a kind is once one more stream is added at the
/// end: the one that was first before, and the added one where there was none
/// and it is of that kind.
pub proof fn lemma_first_of_kind_with_one_more(
    streams: Seq<JsonValue>,
    kind: Seq<char>,
    last: JsonValue,
)
    ensures
        first_of_kind(streams.push(last), kind) == match first_of_kind(streams, kind) {
            Some(stream) => Some(stream),
            None => if has_kind(last, kind) {
                Some(last)
            } else {
                None
            },
        },
    decreases streams.len(),
{
    let longer = streams.push(last);
    if streams.len() == 0 {
        assert(longer.drop_first() =~= streams);
    } else {
        assert(longer[0] == streams[0]);
        assert(longer.drop_first() =~= streams.drop_first().push(last));
        lemma_first_of_kind_with_one_more(streams.drop_first(), kind, last);
    }
}

/// The first stream of a kind heads the streams of that kind, and there is
/// none exactly where there are no streams of that kind.
pub proof fn lemma_first_of_kind_heads(streams: Seq<JsonValue>, kind: Seq<char>)
    ensures
        first_of_kind(streams, kind) == if of_kind(streams, kind).len() > 0 {
            Some(of_kind(streams, kind)[0])
        } else {
            None
        },
    decreases streams.len(),
{
    reveal(Seq::filter);
    if streams.len() > 0 {
        let rest = streams.drop_last();
        lemma_first_of_kind_heads(rest, kind);
        lemma_first_of_kind_with_one_more(rest, kind, streams.last());
        assert(rest.push(streams.last()) =~= streams);
    }
}

/// The picture section of a report is that of the first picture stream of the
/// document; picture streams after the first leave no trace in it.
pub proof fn lemma_first_picture_stream_only(data: JsonValue)
    ensures
        normalized(data).video == if of_kind(streams_in(data), "video"@).len() > 0 {
            Some(video_of(of_kind(streams_in(data), "video"@)[0], data.at("format"@)))
        } else {
            None
        },
{
    lemma_first_of_kind_heads(streams_in(data), "video"@);
}

/// The sound records of a report are those of the document's sound streams,
/// one for one and in their order, and the `i`-th of them (from 0) has the
/// track number `i + 1`, wherever its stream stands among all the streams.
pub proof fn lemma_audio_tracks_are_numbered(data: JsonValue, i: int)
    requires
        0 <= i < normalized(data).audio.len(),
    ensures
        normalized(data).audio.len() == of_kind(streams_in(data), "audio"@).len(),
        normalized(data).audio[i] == audio_of(
            of_kind(streams_in(data), "audio"@)[i],
            (i + 1) as nat,
        ),
        normalized(data).audio[i].track_number == i + 1,
{
}

/// The subtitle records of a report are those of the document's subtitle
/// streams, one for one and in their order, and the `i`-th of them (from 0)
/// has the track number `i + 1`.
pub proof fn lemma_subtitle_tracks_are_numbered(data: JsonValue, i: int)
    requires
        0 <= i < normalized(data).subtitles.len(),
    ensures
        normalized(data).subtitles.len() == of_kind(streams_in(data), "subtitle"@).len(),
        normalized(data).subtitles[i] == subtitle_of(
            of_kind(streams_in(data), "subtitle"@)[i],
            (i + 1) as nat,
        ),
        normalized(data).subtitles[i].track_number == i + 1,
{
}

} // verus!
