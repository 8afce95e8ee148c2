//! What the encoder binary reports about an input file: its duration, its
//! streams and the picture size.

use crate::decimal::{decimal_number, parse_decimal_str};
use crate::error::AppError;
use crate::pattern::{
    all_matches, captures, captures_all, first_match, group, group_text, pattern_compiles, search,
};
use crate::progress::{elapsed_from_groups, elapsed_of, DURATION_PATTERN};
use crate::text::str_eq;
use vstd::prelude::*;

verus! {

/// A stream of the first input, as the banner lists it: its number, an
/// optional stream id in square brackets, an optional language in round
/// brackets, its kind, its codec.
pub const STREAM_PATTERN: &'static str =
    r"Stream #0:(\d+)(?:\[[^\]]+\])?(?:\(([^\)]+)\))?: (Video|Audio): ([^,\s]+)";

/// A picture size, width by height.
pub const RESOLUTION_PATTERN: &'static str = r"(\d+)x(\d+)";

/// One stream of an input file.
#[derive(Debug, Clone)]
pub struct StreamInfo {
    pub index: u32,
    pub codec: String,
    pub language: Option<String>,
    pub title: Option<String>,
}

/// A stream as contracts see it.
pub struct StreamView {
    pub index: u32,
    pub codec: Seq<char>,
    pub language: Option<Seq<char>>,
    pub title: Option<Seq<char>>,
}

impl View for StreamInfo {
    type V = StreamView;

    open spec fn view(&self) -> StreamView {
        StreamView {
            index: self.index,
            codec: self.codec@,
            language: match self.language {
                Some(l) => Some(l@),
                None => None,
            },
            title: match self.title {
                Some(t) => Some(t@),
                None => None,
            },
        }
    }
}

/// The views of a list of streams, in order.
pub open spec fn stream_views(v: Seq<StreamInfo>) -> Seq<StreamView> {
    Seq::new(v.len(), |i: int| v[i]@)
}

/// What is known of an input file.
#[derive(Debug, Clone)]
pub struct VideoInfo {
    /// The length of the input in microseconds.
    pub duration: Option<u64>,
    pub width: Option<u32>,
    pub height: Option<u32>,
    pub video_streams: Vec<StreamInfo>,
    pub audio_streams: Vec<StreamInfo>,
}

/// Input information as contracts see it.
pub struct VideoInfoView {
    pub duration: Option<u64>,
    pub width: Option<u32>,
    pub height: Option<u32>,
    pub video_streams: Seq<StreamView>,
    pub audio_streams: Seq<StreamView>,
}

impl View for VideoInfo {
    type V = VideoInfoView;

    open spec fn view(&self) -> VideoInfoView {
        VideoInfoView {
            duration: self.duration,
            width: self.width,
            height: self.height,
            video_streams: stream_views(self.video_streams@),
            audio_streams: stream_views(self.audio_streams@),
        }
    }
}

/// The number a group writes if it fits `u32`, else 0.
pub open spec fn small_number(g: Option<Seq<char>>) -> u32 {
    match g {
        Some(t) => match decimal_number(t) {
            Some(v) => if v <= u32::MAX {
                v as u32
            } else {
                0
            },
            None => 0,
        },
        None => 0,
    }
}

/// The text of a group, empty where there is none.
pub open spec fn group_or_empty(groups: Seq<Option<Seq<char>>>, i: int) -> Seq<char> {
    match group(groups, i) {
        Some(t) => t,
        None => Seq::empty(),
    }
}

/// The stream that the groups of a stream match stand for.
pub open spec fn stream_of(groups: Seq<Option<Seq<char>>>) -> StreamView {
    StreamView {
        index: small_number(group(groups, 1)),
        codec: group_or_empty(groups, 4),
        language: group(groups, 2),
        title: None,
    }
}

/// The match is of a video stream.
pub open spec fn is_video(groups: Seq<Option<Seq<char>>>) -> bool {
    group_or_empty(groups, 3) == "Video"@
}

/// The match is of an audio stream.
pub open spec fn is_audio(groups: Seq<Option<Seq<char>>>) -> bool {
    group_or_empty(groups, 3) == "Audio"@
}

/// The video streams among the matches, in order.
pub open spec fn video_streams_in(matches: Seq<Seq<Option<Seq<char>>>>) -> Seq<StreamView>
    decreases matches.len(),
{
    if matches.len() == 0 {
        Seq::empty()
    } else {
        let front = video_streams_in(matches.drop_last());
        if is_video(matches.last()) {
            front.push(stream_of(matches.last()))
        } else {
            front
        }
    }
}

/// The audio streams among the matches, in order.
pub open spec fn audio_streams_in(matches: Seq<Seq<Option<Seq<char>>>>) -> Seq<StreamView>
    decreases matches.len(),
{
    if matches.len() == 0 {
        Seq::empty()
    } else {
        let front = audio_streams_in(matches.drop_last());
        if is_audio(matches.last()) {
            front.push(stream_of(matches.last()))
        } else {
            front
        }
    }
}

/// Some match is of a video stream.
pub open spec fn has_video(matches: Seq<Seq<Option<Seq<char>>>>) -> bool {
    exists|i: int| 0 <= i < matches.len() && is_video(#[trigger] matches[i])
}

/// The picture size that the matched text of a video stream holds, if any.
pub open spec fn size_in(groups: Seq<Option<Seq<char>>>) -> Option<(u32, u32)> {
    match search(RESOLUTION_PATTERN@, group_or_empty(groups, 0)) {
        Some(found) => Some((small_number(group(found, 1)), small_number(group(found, 2)))),
        None => None,
    }
}

/// The picture size: that of the last video stream whose matched text holds
/// one.
pub open spec fn picture_size(matches: Seq<Seq<Option<Seq<char>>>>) -> Option<(u32, u32)>
    decreases matches.len(),
{
    if matches.len() == 0 {
        None
    } else if is_video(matches.last()) && size_in(matches.last()) is Some {
        size_in(matches.last())
    } else {
        picture_size(matches.drop_last())
    }
}

/// What stream matches say about an input beside its duration.
pub open spec fn info_from(duration: Option<u64>, matches: Seq<Seq<Option<Seq<char>>>>) -> VideoInfoView {
    VideoInfoView {
        duration,
        width: match picture_size(matches) {
            Some(size) => Some(size.0),
            None => None,
        },
        height: match picture_size(matches) {
            Some(size) => Some(size.1),
            None => None,
        },
        video_streams: video_streams_in(matches),
        audio_streams: audio_streams_in(matches),
    }
}

/// What the encoder binary's report says about an input. A field of the
/// duration that is no number counts as 0.
pub open spec fn parsed_info(report: Seq<char>) -> VideoInfoView {
    info_from(
        match first_match(DURATION_PATTERN@, report) {
            Some(groups) => Some(elapsed_of(groups)),
            None => None,
        },
        all_matches(STREAM_PATTERN@, report),
    )
}

/// The patterns that reading a report needs all compile: the size pattern is
/// only needed where the report lists a video stream.
pub open spec fn report_is_readable(report: Seq<char>) -> bool {
    &&& pattern_compiles(DURATION_PATTERN@)
    &&& pattern_compiles(STREAM_PATTERN@)
    &&& has_video(all_matches(STREAM_PATTERN@, report)) ==> pattern_compiles(RESOLUTION_PATTERN@)
}

/// Reads a group as a number that fits `u32`.
pub fn read_small_number(g: Option<&str>) -> (n: u32)
    ensures
        n == small_number(g.deep_view()),
{
    match g {
        Some(t) => match parse_decimal_str(t) {
            Some(v) => if v <= 0xffff_ffff {
                v as u32
            } else {
                0
            },
            None => 0,
        },
        None => 0,
    }
}

/// The stream that the groups of a stream match stand for.
pub fn stream_from_groups(groups: &Vec<Option<String>>) -> (s: StreamInfo)
    ensures
        s@ == stream_of(groups.deep_view()),
{
    let codec = match group_text(groups, 4) {
        Some(c) => c.to_owned(),
        None => String::new(),
    };
    let language = match group_text(groups, 2) {
        Some(l) => Some(l.to_owned()),
        None => None,
    };
    StreamInfo { index: read_small_number(group_text(groups, 1)), codec, language, title: None }
}

/// Whether group `i` of a match is the text `word`.
fn group_is(groups: &Vec<Option<String>>, i: usize, word: &str) -> (r: bool)
    ensures
        r == (group_or_empty(groups.deep_view(), i as int) == word@),
{
    match group_text(groups, i) {
        Some(t) => str_eq(t, word),
        None => {
            let empty = String::new();
            str_eq(empty.as_str(), word)
        },
    }
}

impl VideoInfo {
    /// Reads the encoder binary's report on an input file. The only error
    /// is a pattern that the regular-expression compiler refuses.
    pub fn parse(ffmpeg_output: &str) -> (r: Result<Self, AppError>)
        ensures
            r is Ok <==> report_is_readable(ffmpeg_output@),
            r matches Ok(info) ==> info@ == parsed_info(ffmpeg_output@),
            r matches Err(e) ==> e is Internal,
    {
        let duration = match captures(DURATION_PATTERN, ffmpeg_output) {
            Ok(Some(groups)) => Some(elapsed_from_groups(&groups)),
            Ok(None) => None,
            Err(e) => { return Err(AppError::Internal(e.to_string())); },
        };
        let matches = match captures_all(STREAM_PATTERN, ffmpeg_output) {
            Ok(m) => m,
            Err(e) => { return Err(AppError::Internal(e.to_string())); },
        };
        let ghost all = matches.deep_view();
        let mut size: Option<(u32, u32)> = None;
        let mut video_streams: Vec<StreamInfo> = Vec::new();
        let mut audio_streams: Vec<StreamInfo> = Vec::new();
        let mut i: usize = 0;
        assert(all.take(0) =~= Seq::<Seq<Option<Seq<char>>>>::empty());
        assert(stream_views(video_streams@) =~= Seq::<StreamView>::empty());
        assert(stream_views(audio_streams@) =~= Seq::<StreamView>::empty());
        while i < matches.len()
            invariant
                i <= matches.len(),
                all == matches.deep_view(),
                all == all_matches(STREAM_PATTERN@, ffmpeg_output@),
                pattern_compiles(DURATION_PATTERN@),
                pattern_compiles(STREAM_PATTERN@),
                has_video(all.take(i as int)) ==> pattern_compiles(RESOLUTION_PATTERN@),
                stream_views(video_streams@) == video_streams_in(all.take(i as int)),
                stream_views(audio_streams@) == audio_streams_in(all.take(i as int)),
                size == picture_size(all.take(i as int)),
            decreases matches.len() - i,
        {
            let groups = &matches[i];
            proof {
                let before = all.take(i as int);
                let after = all.take(i + 1);
                assert(after.drop_last() =~= before);
                assert(after.last() == groups.deep_view());
                assert(all[i as int] == groups.deep_view());
                if has_video(after) && !has_video(before) {
                    let j = choose|j: int| 0 <= j < after.len() && is_video(#[trigger] after[j]);
                    if j < i {
                        assert(before[j] == after[j]);
                    }
                }
            }
            if group_is(groups, 3, "Video") {
                let whole = match group_text(groups, 0) {
                    Some(t) => t.to_owned(),
                    None => String::new(),
                };
                match captures(RESOLUTION_PATTERN, whole.as_str()) {
                    Ok(Some(found)) => {
                        size = Some(
                            (
                                read_small_number(group_text(&found, 1)),
                                read_small_number(group_text(&found, 2)),
                            ),
                        );
                    },
                    Ok(None) => {},
                    Err(e) => {
                        proof {
                            assert(is_video(all[i as int]));
                            assert(has_video(all));
                        }
                        return Err(AppError::Internal(e.to_string()));
                    },
                }
                let stream = stream_from_groups(groups);
                let ghost seen = video_streams@;
                video_streams.push(stream);
                assert(stream_views(video_streams@) =~= stream_views(seen).push(stream@));
            } else if group_is(groups, 3, "Audio") {
                let stream = stream_from_groups(groups);
                let ghost seen = audio_streams@;
                audio_streams.push(stream);
                assert(stream_views(audio_streams@) =~= stream_views(seen).push(stream@));
            }
            proof {
                reveal_strlit("Video");
                reveal_strlit("Audio");
                assert("Video"@[0] != "Audio"@[0]);
            }
            i = i + 1;
        }
        proof {
            assert(all.take(matches.len() as int) =~= all);
            if has_video(all) {
                assert(pattern_compiles(RESOLUTION_PATTERN@));
            }
        }
        let (width, height) = match size {
            Some((w, h)) => (Some(w), Some(h)),
            None => (None, None),
        };
        Ok(VideoInfo { duration, width, height, video_streams, audio_streams })
    }
}

} // verus!
