//! The format policy: what container and codecs an output extension stands
//! for, and whether it carries video and audio.

use crate::text::{lowercase, push_text, str_eq, texts};
use vstd::prelude::*;

verus! {

/// What an output extension stands for.
#[derive(Debug, Clone)]
pub struct FormatInfo {
    pub container: &'static str,
    pub default_video_codec: &'static str,
    pub default_audio_codec: &'static str,
    pub supports_video: bool,
    pub supports_audio: bool,
}

/// A row of the format table as contracts see it.
pub struct FormatInfoView {
    pub container: Seq<char>,
    pub default_video_codec: Seq<char>,
    pub default_audio_codec: Seq<char>,
    pub supports_video: bool,
    pub supports_audio: bool,
}

impl View for FormatInfo {
    type V = FormatInfoView;

    open spec fn view(&self) -> FormatInfoView {
        FormatInfoView {
            container: self.container@,
            default_video_codec: self.default_video_codec@,
            default_audio_codec: self.default_audio_codec@,
            supports_video: self.supports_video,
            supports_audio: self.supports_audio,
        }
    }
}

/// The extensions of the file formats that can be written.
#[derive(Debug, Clone)]
pub struct SupportedFormats {
    pub video: Vec<String>,
    pub audio: Vec<String>,
}

/// A row for a container that carries video and audio.
pub open spec fn video_row(container: Seq<char>, video: Seq<char>, audio: Seq<char>) -> FormatInfoView {
    FormatInfoView {
        container,
        default_video_codec: video,
        default_audio_codec: audio,
        supports_video: true,
        supports_audio: true,
    }
}

/// A row for a container that carries audio only.
pub open spec fn audio_row(container: Seq<char>, audio: Seq<char>) -> FormatInfoView {
    FormatInfoView {
        container,
        default_video_codec: Seq::empty(),
        default_audio_codec: audio,
        supports_video: false,
        supports_audio: true,
    }
}

/// The extensions that stand for a video container.
pub open spec fn video_extensions() -> Seq<Seq<char>> {
    seq!["mp4"@, "mkv"@, "avi"@, "mov"@, "wmv"@, "flv"@, "webm"@, "ogv"@]
}

/// The extensions that stand for an audio-only format.
pub open spec fn audio_extensions() -> Seq<Seq<char>> {
    seq!["mp3"@, "wav"@, "aac"@, "flac"@, "m4a"@, "ogg"@]
}

/// The row of the format table for a lower-case extension. An extension
/// that the table does not hold gets the row of `mp4`.
pub open spec fn format_for(ext: Seq<char>) -> FormatInfoView {
    if ext == "mp4"@ {
        video_row("mp4"@, "libx264"@, "aac"@)
    } else if ext == "mkv"@ {
        video_row("matroska"@, "libx264"@, "aac"@)
    } else if ext == "avi"@ {
        video_row("avi"@, "libx264"@, "mp3"@)
    } else if ext == "mov"@ {
        video_row("mov"@, "libx264"@, "aac"@)
    } else if ext == "wmv"@ {
        video_row("asf"@, "wmv2"@, "wmav2"@)
    } else if ext == "flv"@ {
        video_row("flv"@, "libx264"@, "aac"@)
    } else if ext == "webm"@ {
        video_row("webm"@, "libvpx-vp9"@, "libopus"@)
    } else if ext == "ogv"@ {
        video_row("ogg"@, "libtheora"@, "libvorbis"@)
    } else if ext == "mp3"@ {
        audio_row("mp3"@, "libmp3lame"@)
    } else if ext == "wav"@ {
        audio_row("wav"@, "pcm_s16le"@)
    } else if ext == "aac"@ {
        audio_row("adts"@, "aac"@)
    } else if ext == "flac"@ {
        audio_row("flac"@, "flac"@)
    } else if ext == "m4a"@ {
        audio_row("ipod"@, "aac"@)
    } else if ext == "ogg"@ {
        audio_row("ogg"@, "libvorbis"@)
    } else {
        video_row("mp4"@, "libx264"@, "aac"@)
    }
}

/// What an extension resolves to, whatever the case of its letters.
pub open spec fn resolved_format(ext: Seq<char>) -> FormatInfoView {
    format_for(lowercase(ext))
}

fn video_format(
    container: &'static str,
    video: &'static str,
    audio: &'static str,
) -> (info: FormatInfo)
    ensures
        info@ == video_row(container@, video@, audio@),
{
    FormatInfo {
        container,
        default_video_codec: video,
        default_audio_codec: audio,
        supports_video: true,
        supports_audio: true,
    }
}

fn audio_format(container: &'static str, audio: &'static str) -> (info: FormatInfo)
    ensures
        info@ == audio_row(container@, audio@),
{
    proof {
        reveal_strlit("");
    }
    let info = FormatInfo {
        container,
        default_video_codec: "",
        default_audio_codec: audio,
        supports_video: false,
        supports_audio: true,
    };
    assert(info.default_video_codec@ =~= Seq::empty());
    info
}

/// Looks a lower-case extension up in the format table.
pub fn lookup_format(ext: &str) -> (info: FormatInfo)
    ensures
        info@ == format_for(ext@),
{
    if str_eq(ext, "mp4") {
        video_format("mp4", "libx264", "aac")
    } else if str_eq(ext, "mkv") {
        video_format("matroska", "libx264", "aac")
    } else if str_eq(ext, "avi") {
        video_format("avi", "libx264", "mp3")
    } else if str_eq(ext, "mov") {
        video_format("mov", "libx264", "aac")
    } else if str_eq(ext, "wmv") {
        video_format("asf", "wmv2", "wmav2")
    } else if str_eq(ext, "flv") {
        video_format("flv", "libx264", "aac")
    } else if str_eq(ext, "webm") {
        video_format("webm", "libvpx-vp9", "libopus")
    } else if str_eq(ext, "ogv") {
        video_format("ogg", "libtheora", "libvorbis")
    } else if str_eq(ext, "mp3") {
        audio_format("mp3", "libmp3lame")
    } else if str_eq(ext, "wav") {
        audio_format("wav", "pcm_s16le")
    } else if str_eq(ext, "aac") {
        audio_format("adts", "aac")
    } else if str_eq(ext, "flac") {
        audio_format("flac", "flac")
    } else if str_eq(ext, "m4a") {
        audio_format("ipod", "aac")
    } else if str_eq(ext, "ogg") {
        audio_format("ogg", "libvorbis")
    } else {
        video_format("mp4", "libx264", "aac")
    }
}

/// Resolves an output extension, in any case, to its row of the format
/// table. Every text resolves: one that the table does not hold is written
/// as `mp4`.
pub fn get_format_info(ext: &str) -> (info: FormatInfo)
    ensures
        info@ == resolved_format(ext@),
{
    let lower = ext.to_lowercase();
    lookup_format(lower.as_str())
}

fn owned_list(a: &str, b: &str, c: &str, d: &str, e: &str, f: &str) -> (v: Vec<String>)
    ensures
        texts(v@) == seq![a@, b@, c@, d@, e@, f@],
{
    let mut v: Vec<String> = Vec::new();
    v.push(a.to_owned());
    v.push(b.to_owned());
    v.push(c.to_owned());
    v.push(d.to_owned());
    v.push(e.to_owned());
    v.push(f.to_owned());
    assert(texts(v@) =~= seq![a@, b@, c@, d@, e@, f@]);
    v
}

/// The extensions that can be written, video containers first.
pub fn get_supported_formats() -> (r: SupportedFormats)
    ensures
        texts(r.video@) == video_extensions(),
        texts(r.audio@) == audio_extensions(),
{
    let mut video = owned_list("mp4", "mkv", "avi", "mov", "wmv", "flv");
    push_text(&mut video, "webm");
    push_text(&mut video, "ogv");
    assert(texts(video@) =~= video_extensions());
    let audio = owned_list("mp3", "wav", "aac", "flac", "m4a", "ogg");
    SupportedFormats { video, audio }
}

/// Resolution depends on an extension only through its lowercase form:
/// spellings that differ in case alone resolve to the same row.
pub proof fn lemma_resolution_ignores_case(a: Seq<char>, b: Seq<char>)
    requires
        lowercase(a) == lowercase(b),
    ensures
        resolved_format(a) == resolved_format(b),
{
}

/// Resolving an extension a second time gives the row that the first time
/// gave: whatever two calls of `get_format_info` on one extension return,
/// the two rows are equal.
pub proof fn lemma_resolution_repeats(ext: Seq<char>, first: FormatInfo, second: FormatInfo)
    requires
        first@ == resolved_format(ext),
        second@ == resolved_format(ext),
    ensures
        first@ == second@,
{
}

/// Every row of the table carries audio and names an audio codec; it names
/// a video codec exactly when it carries video.
pub proof fn lemma_every_format_is_complete(ext: Seq<char>)
    ensures
        format_for(ext).supports_audio,
        format_for(ext).container.len() > 0,
        format_for(ext).default_audio_codec.len() > 0,
        format_for(ext).supports_video <==> format_for(ext).default_video_codec.len() > 0,
{
    reveal_strlit("mp4");
    reveal_strlit("matroska");
    reveal_strlit("avi");
    reveal_strlit("mov");
    reveal_strlit("asf");
    reveal_strlit("flv");
    reveal_strlit("webm");
    reveal_strlit("ogg");
    reveal_strlit("mp3");
    reveal_strlit("wav");
    reveal_strlit("adts");
    reveal_strlit("flac");
    reveal_strlit("ipod");
    reveal_strlit("libx264");
    reveal_strlit("wmv2");
    reveal_strlit("libvpx-vp9");
    reveal_strlit("libtheora");
    reveal_strlit("aac");
    reveal_strlit("wmav2");
    reveal_strlit("libopus");
    reveal_strlit("libvorbis");
    reveal_strlit("libmp3lame");
    reveal_strlit("pcm_s16le");
}

/// The extensions listed as video resolve to rows that carry video, those
/// listed as audio to rows that do not.
pub proof fn lemma_listed_formats_resolve(i: int)
    ensures
        0 <= i < video_extensions().len() ==> format_for(video_extensions()[i]).supports_video,
        0 <= i < audio_extensions().len() ==> !format_for(audio_extensions()[i]).supports_video,
{
    reveal_strlit("mp4");
    reveal_strlit("mkv");
    reveal_strlit("avi");
    reveal_strlit("mov");
    reveal_strlit("wmv");
    reveal_strlit("flv");
    reveal_strlit("webm");
    reveal_strlit("ogv");
    reveal_strlit("mp3");
    reveal_strlit("wav");
    reveal_strlit("aac");
    reveal_strlit("flac");
    reveal_strlit("m4a");
    reveal_strlit("ogg");
    assert("mp4"@[0] == 'm' && "mp4"@[1] == 'p' && "mp4"@[2] == '4');
    assert("mkv"@[0] == 'm' && "mkv"@[1] == 'k' && "mkv"@[2] == 'v');
    assert("avi"@[0] == 'a' && "avi"@[1] == 'v' && "avi"@[2] == 'i');
    assert("mov"@[0] == 'm' && "mov"@[1] == 'o' && "mov"@[2] == 'v');
    assert("wmv"@[0] == 'w' && "wmv"@[1] == 'm' && "wmv"@[2] == 'v');
    assert("flv"@[0] == 'f' && "flv"@[1] == 'l' && "flv"@[2] == 'v');
    assert("webm"@[0] == 'w' && "webm"@[1] == 'e' && "webm"@[2] == 'b' && "webm"@[3] == 'm');
    assert("ogv"@[0] == 'o' && "ogv"@[1] == 'g' && "ogv"@[2] == 'v');
    assert("mp3"@[0] == 'm' && "mp3"@[1] == 'p' && "mp3"@[2] == '3');
    assert("wav"@[0] == 'w' && "wav"@[1] == 'a' && "wav"@[2] == 'v');
    assert("aac"@[0] == 'a' && "aac"@[1] == 'a' && "aac"@[2] == 'c');
    assert("flac"@[0] == 'f' && "flac"@[1] == 'l' && "flac"@[2] == 'a' && "flac"@[3] == 'c');
    assert("m4a"@[0] == 'm' && "m4a"@[1] == '4' && "m4a"@[2] == 'a');
    assert("ogg"@[0] == 'o' && "ogg"@[1] == 'g' && "ogg"@[2] == 'g');
}

} // verus!
