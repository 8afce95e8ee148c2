//! Encoders: what kind an encoder is by its name, which codec it writes,
//! and the list of encoders that the encoder binary reports.

use crate::gpu::GpuDetector;
use crate::pattern::{find, group, group_text, search};
use crate::text::{
    chars_contain_str, chars_of, append_text, contains, find_substring, first_occurrence, has_substring,
    lines_of, lowercase, split_lines, str_eq, string_of, texts,
};
use vstd::prelude::*;

verus! {

/// A line of the encoder listing: six flag characters, the encoder's name,
/// its description.
pub const ENCODER_PATTERN: &'static str = r"^\s*([VASFXD\.]{6})\s+(\S+)\s+(.+)$";

/// The codec that a description names in brackets.
pub const CODEC_PATTERN: &'static str = r"\(codec\s+(\w+)\)";

/// Where an encoder runs, or that it is a professional intermediate codec.
#[derive(Debug, Clone, Copy, PartialEq, Eq, Structural)]
pub enum EncoderType {
    Cpu,
    GpuNvidia,
    GpuAmd,
    GpuIntel,
    Adobe,
}

/// One encoder on offer.
#[derive(Debug)]
pub struct EncoderInfo {
    pub name: String,
    pub description: String,
    pub codec: String,
    pub encoder_type: EncoderType,
}

/// An encoder as contracts see it.
pub struct EncoderView {
    pub name: Seq<char>,
    pub description: Seq<char>,
    pub codec: Seq<char>,
    pub encoder_type: EncoderType,
}

impl View for EncoderInfo {
    type V = EncoderView;

    open spec fn view(&self) -> EncoderView {
        EncoderView {
            name: self.name@,
            description: self.description@,
            codec: self.codec@,
            encoder_type: self.encoder_type,
        }
    }
}

impl Clone for EncoderInfo {
    fn clone(&self) -> (r: Self)
        ensures
            r@ == self@,
    {
        EncoderInfo {
            name: self.name.clone(),
            description: self.description.clone(),
            codec: self.codec.clone(),
            encoder_type: self.encoder_type,
        }
    }
}

/// The views of a list of encoders, in order.
pub open spec fn encoder_views(v: Seq<EncoderInfo>) -> Seq<EncoderView> {
    Seq::new(v.len(), |i: int| v[i]@)
}

/// The lower-case name carries the mark of a software video encoder.
pub open spec fn has_cpu_mark(lower: Seq<char>) -> bool {
    ||| has_substring(lower, "libx264"@)
    ||| has_substring(lower, "libx265"@)
    ||| has_substring(lower, "libxvid"@)
    ||| has_substring(lower, "libvpx"@)
    ||| has_substring(lower, "libaom"@)
    ||| has_substring(lower, "libsvtav1"@)
    ||| has_substring(lower, "mpeg"@)
    ||| has_substring(lower, "wmv"@)
    ||| has_substring(lower, "flv"@)
    ||| has_substring(lower, "h263"@)
    ||| has_substring(lower, "huffyuv"@)
    ||| has_substring(lower, "ffv"@)
    ||| has_substring(lower, "rawvideo"@)
    ||| has_substring(lower, "libtheora"@)
}

/// The kind of the encoder with the given lower-case name; none for an
/// encoder that is of no use here. The hardware marks are looked for first.
pub open spec fn encoder_kind(lower: Seq<char>) -> Option<EncoderType> {
    if has_substring(lower, "nvenc"@) {
        Some(EncoderType::GpuNvidia)
    } else if has_substring(lower, "amf"@) || (has_substring(lower, "vaapi"@) && has_substring(
        lower,
        "h264"@,
    )) {
        Some(EncoderType::GpuAmd)
    } else if has_substring(lower, "qsv"@) || has_substring(lower, "mediacodec"@) {
        Some(EncoderType::GpuIntel)
    } else if has_substring(lower, "prores"@) || has_substring(lower, "dnxhd"@) || has_substring(
        lower,
        "cfhd"@,
    ) || has_substring(lower, "cineform"@) {
        Some(EncoderType::Adobe)
    } else if has_cpu_mark(lower) {
        Some(EncoderType::Cpu)
    } else {
        None
    }
}

/// The codec that the encoder with the given lower-case name writes, as far
/// as the name tells.
pub open spec fn codec_in(lower: Seq<char>) -> Seq<char> {
    if has_substring(lower, "264"@) || has_substring(lower, "h264"@) {
        "h264"@
    } else if has_substring(lower, "265"@) || has_substring(lower, "hevc"@) || has_substring(
        lower,
        "x265"@,
    ) {
        "hevc"@
    } else if has_substring(lower, "vp8"@) {
        "vp8"@
    } else if has_substring(lower, "vp9"@) {
        "vp9"@
    } else if has_substring(lower, "av1"@) {
        "av1"@
    } else if has_substring(lower, "mpeg4"@) || has_substring(lower, "xvid"@) {
        "mpeg4"@
    } else if has_substring(lower, "mpeg2"@) {
        "mpeg2video"@
    } else if has_substring(lower, "mpeg1"@) {
        "mpeg1video"@
    } else if has_substring(lower, "wmv"@) {
        "wmv2"@
    } else if has_substring(lower, "flv"@) {
        "flv1"@
    } else if has_substring(lower, "prores"@) {
        "prores"@
    } else if has_substring(lower, "dnxhd"@) || has_substring(lower, "dnxhr"@) {
        "dnxhd"@
    } else if has_substring(lower, "cineform"@) || has_substring(lower, "cfhd"@) {
        "cineform"@
    } else if has_substring(lower, "theora"@) {
        "theora"@
    } else {
        "unknown"@
    }
}

pub open spec fn encoder_row(
    name: Seq<char>,
    description: Seq<char>,
    codec: Seq<char>,
    encoder_type: EncoderType,
) -> EncoderView {
    EncoderView { name, description, codec, encoder_type }
}

/// The encoders assumed where the encoder binary reports none.
pub open spec fn default_encoders() -> Seq<EncoderView> {
    seq![
        encoder_row(
            "libx264"@,
            "H.264 / AVC / MPEG-4 AVC / MPEG-4 part 10"@,
            "h264"@,
            EncoderType::Cpu,
        ),
        encoder_row(
            "libx265"@,
            "H.265 / HEVC (High Efficiency Video Coding)"@,
            "hevc"@,
            EncoderType::Cpu,
        ),
        encoder_row("h264_nvenc"@, "NVIDIA NVENC H.264 encoder"@, "h264"@, EncoderType::GpuNvidia),
        encoder_row("hevc_nvenc"@, "NVIDIA NVENC HEVC encoder"@, "hevc"@, EncoderType::GpuNvidia),
        encoder_row("h264_amf"@, "AMD AMF H.264 Encoder"@, "h264"@, EncoderType::GpuAmd),
        encoder_row("hevc_amf"@, "AMD AMF HEVC encoder"@, "hevc"@, EncoderType::GpuAmd),
        encoder_row(
            "h264_qsv"@,
            "H.264 / AVC / MPEG-4 AVC / MPEG-4 part 10 (Intel Quick Sync Video acceleration)"@,
            "h264"@,
            EncoderType::GpuIntel,
        ),
        encoder_row(
            "hevc_qsv"@,
            "HEVC (Intel Quick Sync Video acceleration)"@,
            "hevc"@,
            EncoderType::GpuIntel,
        ),
    ]
}

/// What follows an encoder's name where it is shown to the user.
pub open spec fn kind_label(encoder_type: EncoderType) -> Seq<char> {
    match encoder_type {
        EncoderType::Cpu => " (CPU) - "@,
        EncoderType::GpuNvidia => " (NVIDIA GPU) - "@,
        EncoderType::GpuAmd => " (AMD GPU) - "@,
        EncoderType::GpuIntel => " (Intel GPU) - "@,
        EncoderType::Adobe => " (Professional) - "@,
    }
}

/// An encoder as it is shown to the user: name, kind, description.
pub open spec fn display_name(e: EncoderView) -> Seq<char> {
    e.name + kind_label(e.encoder_type) + e.description
}

/// The description up to the bracket that names the codec.
pub open spec fn shown_description(description: Seq<char>) -> Seq<char> {
    match first_occurrence(description, " (codec"@) {
        Some(at) => description.take(at),
        None => description,
    }
}

/// The codec of an encoder: the one its description names, else the one its
/// name tells.
pub open spec fn stated_codec(name: Seq<char>, description: Seq<char>) -> Seq<char> {
    match search(CODEC_PATTERN@, description) {
        Some(groups) => match group(groups, 1) {
            Some(codec) => codec,
            None => codec_in(lowercase(name)),
        },
        None => codec_in(lowercase(name)),
    }
}

/// The encoder that the groups of a listing line stand for: none unless it
/// is a video encoder of a known kind.
pub open spec fn encoder_of(groups: Seq<Option<Seq<char>>>) -> Option<EncoderView> {
    match (group(groups, 1), group(groups, 2), group(groups, 3)) {
        (Some(flags), Some(name), Some(description)) => match encoder_kind(lowercase(name)) {
            Some(kind) => if has_substring(flags, "V"@) {
                Some(
                    EncoderView {
                        name,
                        description: shown_description(description),
                        codec: stated_codec(name, description),
                        encoder_type: kind,
                    },
                )
            } else {
                None
            },
            None => None,
        },
        _ => None,
    }
}

/// The encoder that a line of the listing stands for, if any.
pub open spec fn encoder_in(line: Seq<char>) -> Option<EncoderView> {
    match search(ENCODER_PATTERN@, line) {
        Some(groups) => encoder_of(groups),
        None => None,
    }
}

/// The encoders that the lines stand for, in the order of the lines.
pub open spec fn encoders_in(lines: Seq<Seq<char>>) -> Seq<EncoderView>
    decreases lines.len(),
{
    if lines.len() == 0 {
        Seq::empty()
    } else {
        let front = encoders_in(lines.drop_last());
        match encoder_in(lines.last()) {
            Some(e) => front.push(e),
            None => front,
        }
    }
}

/// The encoders of one kind, in their order.
pub open spec fn of_kind(encoders: Seq<EncoderView>, kind: EncoderType) -> Seq<EncoderView>
    decreases encoders.len(),
{
    if encoders.len() == 0 {
        Seq::empty()
    } else {
        let front = of_kind(encoders.drop_last(), kind);
        if encoders.last().encoder_type == kind {
            front.push(encoders.last())
        } else {
            front
        }
    }
}

/// The encoders ordered by kind: software first, then the three hardware
/// vendors, then the professional codecs. Within a kind the order stays.
pub open spec fn by_kind(encoders: Seq<EncoderView>) -> Seq<EncoderView> {
    of_kind(encoders, EncoderType::Cpu) + of_kind(encoders, EncoderType::GpuNvidia) + of_kind(
        encoders,
        EncoderType::GpuAmd,
    ) + of_kind(encoders, EncoderType::GpuIntel) + of_kind(encoders, EncoderType::Adobe)
}

/// The encoders on offer according to a listing: those it names, ordered by
/// kind, or the default ones where it names none.
pub open spec fn listed_encoders(listing: Seq<char>) -> Seq<EncoderView> {
    let found = by_kind(encoders_in(lines_of(listing)));
    if found.len() == 0 {
        default_encoders()
    } else {
        found
    }
}

/// Some encoder of the list has the given name.
pub open spec fn names_encoder(encoders: Seq<EncoderView>, name: Seq<char>) -> bool {
    exists|i: int| 0 <= i < encoders.len() && (#[trigger] encoders[i]).name == name
}

fn make_encoder(name: &str, description: &str, codec: &str, encoder_type: EncoderType) -> (e:
    EncoderInfo)
    ensures
        e@ == encoder_row(name@, description@, codec@, encoder_type),
{
    EncoderInfo {
        name: name.to_owned(),
        description: description.to_owned(),
        codec: codec.to_owned(),
        encoder_type,
    }
}

impl GpuDetector {
    /// The kind of the encoder with the given lower-case name.
    pub fn kind_of_lower(lower: &str) -> (kind: Option<EncoderType>)
        ensures
            kind == encoder_kind(lower@),
    {
        let text = chars_of(lower);
        if chars_contain_str(&text, "nvenc") {
            return Some(EncoderType::GpuNvidia);
        }
        if chars_contain_str(&text, "amf") || (chars_contain_str(&text, "vaapi")
            && chars_contain_str(&text, "h264")) {
            return Some(EncoderType::GpuAmd);
        }
        if chars_contain_str(&text, "qsv") || chars_contain_str(&text, "mediacodec") {
            return Some(EncoderType::GpuIntel);
        }
        if chars_contain_str(&text, "prores") || chars_contain_str(&text, "dnxhd")
            || chars_contain_str(&text, "cfhd") || chars_contain_str(&text, "cineform") {
            return Some(EncoderType::Adobe);
        }
        if chars_contain_str(&text, "libx264") || chars_contain_str(&text, "libx265")
            || chars_contain_str(&text, "libxvid") || chars_contain_str(&text, "libvpx")
            || chars_contain_str(&text, "libaom") || chars_contain_str(&text, "libsvtav1")
            || chars_contain_str(&text, "mpeg") || chars_contain_str(&text, "wmv")
            || chars_contain_str(&text, "flv") || chars_contain_str(&text, "h263")
            || chars_contain_str(&text, "huffyuv") || chars_contain_str(&text, "ffv")
            || chars_contain_str(&text, "rawvideo") || chars_contain_str(&text, "libtheora") {
            return Some(EncoderType::Cpu);
        }
        None
    }

    /// The kind of an encoder by its name, whatever the case of its
    /// letters.
    pub fn classify_encoder(name: &str) -> (kind: Option<EncoderType>)
        ensures
            kind == encoder_kind(lowercase(name@)),
    {
        let lower = name.to_lowercase();
        GpuDetector::kind_of_lower(lower.as_str())
    }

    /// The codec that the encoder with the given lower-case name writes.
    pub fn codec_of_lower(lower: &str) -> (codec: String)
        ensures
            codec@ == codec_in(lower@),
    {
        let text = chars_of(lower);
        let codec = if chars_contain_str(&text, "264") || chars_contain_str(&text, "h264") {
            "h264"
        } else if chars_contain_str(&text, "265") || chars_contain_str(&text, "hevc")
            || chars_contain_str(&text, "x265") {
            "hevc"
        } else if chars_contain_str(&text, "vp8") {
            "vp8"
        } else if chars_contain_str(&text, "vp9") {
            "vp9"
        } else if chars_contain_str(&text, "av1") {
            "av1"
        } else if chars_contain_str(&text, "mpeg4") || chars_contain_str(&text, "xvid") {
            "mpeg4"
        } else if chars_contain_str(&text, "mpeg2") {
            "mpeg2video"
        } else if chars_contain_str(&text, "mpeg1") {
            "mpeg1video"
        } else if chars_contain_str(&text, "wmv") {
            "wmv2"
        } else if chars_contain_str(&text, "flv") {
            "flv1"
        } else if chars_contain_str(&text, "prores") {
            "prores"
        } else if chars_contain_str(&text, "dnxhd") || chars_contain_str(&text, "dnxhr") {
            "dnxhd"
        } else if chars_contain_str(&text, "cineform") || chars_contain_str(&text, "cfhd") {
            "cineform"
        } else if chars_contain_str(&text, "theora") {
            "theora"
        } else {
            "unknown"
        };
        codec.to_owned()
    }

    /// The codec that an encoder writes, as far as its name tells.
    pub fn infer_codec(name: &str) -> (codec: String)
        ensures
            codec@ == codec_in(lowercase(name@)),
    {
        let lower = name.to_lowercase();
        GpuDetector::codec_of_lower(lower.as_str())
    }

    /// The encoders assumed where the encoder binary reports none.
    pub fn get_default_encoders() -> (encoders: Vec<EncoderInfo>)
        ensures
            encoder_views(encoders@) == default_encoders(),
    {
        let mut encoders: Vec<EncoderInfo> = Vec::new();
        encoders.push(
            make_encoder(
                "libx264",
                "H.264 / AVC / MPEG-4 AVC / MPEG-4 part 10",
                "h264",
                EncoderType::Cpu,
            ),
        );
        encoders.push(
            make_encoder(
                "libx265",
                "H.265 / HEVC (High Efficiency Video Coding)",
                "hevc",
                EncoderType::Cpu,
            ),
        );
        encoders.push(
            make_encoder("h264_nvenc", "NVIDIA NVENC H.264 encoder", "h264", EncoderType::GpuNvidia),
        );
        encoders.push(
            make_encoder("hevc_nvenc", "NVIDIA NVENC HEVC encoder", "hevc", EncoderType::GpuNvidia),
        );
        encoders.push(make_encoder("h264_amf", "AMD AMF H.264 Encoder", "h264", EncoderType::GpuAmd));
        encoders.push(make_encoder("hevc_amf", "AMD AMF HEVC encoder", "hevc", EncoderType::GpuAmd));
        encoders.push(
            make_encoder(
                "h264_qsv",
                "H.264 / AVC / MPEG-4 AVC / MPEG-4 part 10 (Intel Quick Sync Video acceleration)",
                "h264",
                EncoderType::GpuIntel,
            ),
        );
        encoders.push(
            make_encoder(
                "hevc_qsv",
                "HEVC (Intel Quick Sync Video acceleration)",
                "hevc",
                EncoderType::GpuIntel,
            ),
        );
        assert(encoder_views(encoders@) =~= default_encoders());
        encoders
    }

    /// The encoder that the groups of a listing line stand for.
    pub fn encoder_from_groups(groups: &Vec<Option<String>>) -> (found: Option<EncoderInfo>)
        ensures
            match found {
                Some(e) => encoder_of(groups.deep_view()) == Some(e@),
                None => encoder_of(groups.deep_view()) is None,
            },
    {
        let flags = match group_text(groups, 1) {
            Some(t) => t,
            None => { return None; },
        };
        let name = match group_text(groups, 2) {
            Some(t) => t,
            None => { return None; },
        };
        let description = match group_text(groups, 3) {
            Some(t) => t,
            None => { return None; },
        };
        let kind = match GpuDetector::classify_encoder(name) {
            Some(k) => k,
            None => { return None; },
        };
        if !contains(flags, "V") {
            return None;
        }
        let codec = match find(CODEC_PATTERN, description) {
            Some(found) => match group_text(&found, 1) {
                Some(c) => c.to_owned(),
                None => GpuDetector::infer_codec(name),
            },
            None => GpuDetector::infer_codec(name),
        };
        let text = chars_of(description);
        let mark = chars_of(" (codec");
        let shown = match find_substring(&text, &mark) {
            Some(at) => {
                assert(text@.subrange(0, at as int) =~= text@.take(at as int));
                string_of(&text, 0, at)
            },
            None => description.to_owned(),
        };
        Some(EncoderInfo { name: name.to_owned(), description: shown, codec, encoder_type: kind })
    }

    /// The encoders of `encoders` that are of the given kind, in their
    /// order.
    pub fn encoders_of_kind(encoders: &Vec<EncoderInfo>, kind: EncoderType, out: &mut Vec<
        EncoderInfo,
    >)
        ensures
            encoder_views(final(out)@) == encoder_views(old(out)@) + of_kind(
                encoder_views(encoders@),
                kind,
            ),
    {
        let ghost all = encoder_views(encoders@);
        let ghost start = encoder_views(out@);
        let mut i: usize = 0;
        assert(all.take(0) =~= Seq::<EncoderView>::empty());
        assert(start + of_kind(all.take(0), kind) =~= start);
        while i < encoders.len()
            invariant
                i <= encoders.len(),
                all == encoder_views(encoders@),
                encoder_views(out@) == start + of_kind(all.take(i as int), kind),
            decreases encoders.len() - i,
        {
            proof {
                let before = all.take(i as int);
                let after = all.take(i + 1);
                assert(after.drop_last() =~= before);
                assert(after.last() == encoders@[i as int]@);
            }
            if encoders[i].encoder_type == kind {
                let ghost seen = out@;
                let copy = encoders[i].clone();
                out.push(copy);
                assert(encoder_views(out@) =~= encoder_views(seen).push(copy@));
                assert(encoder_views(out@) =~= start + of_kind(all.take(i + 1), kind));
            }
            i = i + 1;
        }
        assert(all.take(encoders.len() as int) =~= all);
    }

    /// Orders encoders by kind, keeping the order within each kind.
    pub fn sort_by_kind(encoders: &Vec<EncoderInfo>) -> (sorted: Vec<EncoderInfo>)
        ensures
            encoder_views(sorted@) == by_kind(encoder_views(encoders@)),
    {
        let mut sorted: Vec<EncoderInfo> = Vec::new();
        let ghost all = encoder_views(encoders@);
        assert(encoder_views(sorted@) =~= Seq::<EncoderView>::empty());
        GpuDetector::encoders_of_kind(encoders, EncoderType::Cpu, &mut sorted);
        GpuDetector::encoders_of_kind(encoders, EncoderType::GpuNvidia, &mut sorted);
        GpuDetector::encoders_of_kind(encoders, EncoderType::GpuAmd, &mut sorted);
        GpuDetector::encoders_of_kind(encoders, EncoderType::GpuIntel, &mut sorted);
        GpuDetector::encoders_of_kind(encoders, EncoderType::Adobe, &mut sorted);
        assert(encoder_views(sorted@) =~= by_kind(all));
        sorted
    }

    /// Reads the encoder binary's listing of its encoders: the video
    /// encoders of a known kind, ordered by kind, or the default encoders
    /// where the listing names none.
    pub fn parse_encoder_listing(listing: &str) -> (encoders: Vec<EncoderInfo>)
        ensures
            encoder_views(encoders@) == listed_encoders(listing@),
    {
        let lines = split_lines(listing);
        let mut found: Vec<EncoderInfo> = Vec::new();
        let mut i: usize = 0;
        assert(texts(lines@).take(0) =~= Seq::<Seq<char>>::empty());
        assert(encoder_views(found@) =~= Seq::<EncoderView>::empty());
        while i < lines.len()
            invariant
                i <= lines.len(),
                encoder_views(found@) == encoders_in(texts(lines@).take(i as int)),
            decreases lines.len() - i,
        {
            proof {
                let before = texts(lines@).take(i as int);
                let after = texts(lines@).take(i + 1);
                assert(after.drop_last() =~= before);
                assert(after.last() == lines@[i as int]@);
            }
            if let Some(groups) = find(ENCODER_PATTERN, lines[i].as_str()) {
                if let Some(e) = GpuDetector::encoder_from_groups(&groups) {
                    let ghost seen = found@;
                    found.push(e);
                    assert(encoder_views(found@) =~= encoder_views(seen).push(e@));
                }
            }
            i = i + 1;
        }
        assert(texts(lines@).take(lines.len() as int) =~= texts(lines@));
        let sorted = GpuDetector::sort_by_kind(&found);
        if sorted.len() == 0 {
            GpuDetector::get_default_encoders()
        } else {
            sorted
        }
    }
}

/// An encoder as it is shown to the user.
pub fn get_encoder_display_name(encoder: &EncoderInfo) -> (shown: String)
    ensures
        shown@ == display_name(encoder@),
{
    let label = match encoder.encoder_type {
        EncoderType::Cpu => " (CPU) - ",
        EncoderType::GpuNvidia => " (NVIDIA GPU) - ",
        EncoderType::GpuAmd => " (AMD GPU) - ",
        EncoderType::GpuIntel => " (Intel GPU) - ",
        EncoderType::Adobe => " (Professional) - ",
    };
    let head = append_text(encoder.name.as_str(), label);
    append_text(head.as_str(), encoder.description.as_str())
}

/// Whether an encoder of the given name is among `encoders`.
pub fn encoder_listed(encoders: &Vec<EncoderInfo>, name: &str) -> (r: bool)
    ensures
        r == names_encoder(encoder_views(encoders@), name@),
{
    let mut i: usize = 0;
    while i < encoders.len()
        invariant
            i <= encoders.len(),
            forall|j: int| 0 <= j < i ==> (#[trigger] encoder_views(encoders@)[j]).name != name@,
        decreases encoders.len() - i,
    {
        if str_eq(encoders[i].name.as_str(), name) {
            assert(encoder_views(encoders@)[i as int].name == name@);
            return true;
        }
        i = i + 1;
    }
    false
}

/// The place of a kind in the order of the listing.
pub open spec fn kind_rank(kind: EncoderType) -> int {
    match kind {
        EncoderType::Cpu => 0,
        EncoderType::GpuNvidia => 1,
        EncoderType::GpuAmd => 2,
        EncoderType::GpuIntel => 3,
        EncoderType::Adobe => 4,
    }
}

/// The number of encoders of each kind adds up to the number of encoders.
pub proof fn lemma_kinds_part_the_list(encoders: Seq<EncoderView>)
    ensures
        by_kind(encoders).len() == encoders.len(),
    decreases encoders.len(),
{
    if encoders.len() > 0 {
        lemma_kinds_part_the_list(encoders.drop_last());
    }
}

/// Ordering by kind puts the kinds in their order: no encoder stands before
/// one of a lower rank.
pub proof fn lemma_by_kind_is_ordered(encoders: Seq<EncoderView>, i: int, j: int)
    requires
        0 <= i <= j < by_kind(encoders).len(),
    ensures
        kind_rank(by_kind(encoders)[i].encoder_type) <= kind_rank(
            by_kind(encoders)[j].encoder_type,
        ),
        encoders.contains(by_kind(encoders)[i]),
{
    lemma_segment_kind(encoders, i);
    lemma_segment_kind(encoders, j);
}

/// The encoder at a place of the ordered list is of the kind of the segment
/// the place lies in, and is one of the encoders that were ordered.
proof fn lemma_segment_kind(encoders: Seq<EncoderView>, i: int)
    requires
        0 <= i < by_kind(encoders).len(),
    ensures
        encoders.contains(by_kind(encoders)[i]),
        ({
            let a = of_kind(encoders, EncoderType::Cpu).len();
            let b = a + of_kind(encoders, EncoderType::GpuNvidia).len();
            let c = b + of_kind(encoders, EncoderType::GpuAmd).len();
            let d = c + of_kind(encoders, EncoderType::GpuIntel).len();
            kind_rank(by_kind(encoders)[i].encoder_type) == if i < a {
                0int
            } else if i < b {
                1int
            } else if i < c {
                2int
            } else if i < d {
                3int
            } else {
                4int
            }
        }),
{
    let a = of_kind(encoders, EncoderType::Cpu);
    let b = of_kind(encoders, EncoderType::GpuNvidia);
    let c = of_kind(encoders, EncoderType::GpuAmd);
    let d = of_kind(encoders, EncoderType::GpuIntel);
    if i < a.len() {
        lemma_of_kind_holds_kind(encoders, EncoderType::Cpu, i);
    } else if i < a.len() + b.len() {
        lemma_of_kind_holds_kind(encoders, EncoderType::GpuNvidia, i - a.len());
    } else if i < a.len() + b.len() + c.len() {
        lemma_of_kind_holds_kind(encoders, EncoderType::GpuAmd, i - a.len() - b.len());
    } else if i < a.len() + b.len() + c.len() + d.len() {
        lemma_of_kind_holds_kind(encoders, EncoderType::GpuIntel, i - a.len() - b.len() - c.len());
    } else {
        lemma_of_kind_holds_kind(
            encoders,
            EncoderType::Adobe,
            i - a.len() - b.len() - c.len() - d.len(),
        );
    }
}

/// Ordering by kind keeps every encoder of a kind and brings in no other.
pub proof fn lemma_of_kind_holds_kind(encoders: Seq<EncoderView>, kind: EncoderType, i: int)
    requires
        0 <= i < of_kind(encoders, kind).len(),
    ensures
        of_kind(encoders, kind)[i].encoder_type == kind,
        encoders.contains(of_kind(encoders, kind)[i]),
        of_kind(encoders, kind).len() <= encoders.len(),
    decreases encoders.len(),
{
    if encoders.len() > 0 {
        let front = encoders.drop_last();
        let kept = of_kind(front, kind);
        if i < kept.len() {
            lemma_of_kind_holds_kind(front, kind, i);
            let j = choose|j: int| 0 <= j < front.len() && front[j] == kept[i];
            assert(encoders[j] == kept[i]);
        } else {
            assert(encoders[encoders.len() - 1] == encoders.last());
        }
        if kept.len() > 0 {
            lemma_of_kind_holds_kind(front, kind, 0);
        }
    }
}

} // verus!
