//! The command builder: the encoder's argument list for one attempt of a
//! job, and the plan of attempts that an encoder name calls for.

use crate::decimal::{decimal_digits, decimal_text};
use crate::format::{get_format_info, resolved_format, FormatInfo, FormatInfoView};
use crate::preset::{
    lemma_find_in_sound, preset_catalog, preset_named, AdobePreset, PresetView,
};
use crate::task::{initial_task, ConversionTask, TaskRequest, TaskView};
use crate::text::{
    chars_contain_str, chars_of, has_substring, lemma_texts_push, push_string, push_text, str_eq,
    texts,
};
use vstd::prelude::*;

verus! {

/// The attempts that a job walks through, fixed by its encoder's name.
#[derive(Debug)]
pub struct AttemptPlan {
    pub is_nvenc: bool,
    pub is_amf: bool,
    pub is_qsv: bool,
    pub max_attempts: usize,
    /// The software encoder that the last attempt of a hardware job uses.
    pub cpu_fallback_encoder: &'static str,
}

/// A plan as contracts see it.
pub struct PlanView {
    pub is_nvenc: bool,
    pub is_amf: bool,
    pub is_qsv: bool,
    pub max_attempts: usize,
    pub cpu_fallback_encoder: Seq<char>,
}

impl View for AttemptPlan {
    type V = PlanView;

    open spec fn view(&self) -> PlanView {
        PlanView {
            is_nvenc: self.is_nvenc,
            is_amf: self.is_amf,
            is_qsv: self.is_qsv,
            max_attempts: self.max_attempts,
            cpu_fallback_encoder: self.cpu_fallback_encoder@,
        }
    }
}

impl PlanView {
    /// The encoder runs on a GPU.
    pub open spec fn is_gpu(self) -> bool {
        self.is_nvenc || self.is_amf || self.is_qsv
    }

    /// The attempt swaps the hardware encoder for the software one.
    pub open spec fn is_cpu_fallback(self, attempt: int) -> bool {
        self.is_gpu() && attempt == 3
    }

    /// The attempt also decodes the input on the GPU.
    pub open spec fn uses_hw_decode(self, attempt: int) -> bool {
        self.is_gpu() && attempt == 0
    }

    /// The attempt forces the intermediate pixel format.
    pub open spec fn forces_nv12(self, attempt: int) -> bool {
        self.is_gpu() && attempt == 2
    }

    /// The encoder that the attempt runs.
    pub open spec fn encoder_for(self, encoder: Seq<char>, attempt: int) -> Seq<char> {
        if self.is_cpu_fallback(attempt) {
            self.cpu_fallback_encoder
        } else {
            encoder
        }
    }
}

/// The software encoder of the codec family that `encoder` names: H.265 only
/// where the name speaks of it and not of H.264.
pub open spec fn software_fallback(encoder: Seq<char>) -> Seq<char> {
    if has_substring(encoder, "h264"@) || has_substring(encoder, "264"@) {
        "libx264"@
    } else if has_substring(encoder, "hevc"@) || has_substring(encoder, "265"@) {
        "libx265"@
    } else {
        "libx264"@
    }
}

/// The plan for an encoder name: four attempts where the name carries the
/// mark of one of the three hardware interfaces, one attempt otherwise.
pub open spec fn plan_for(encoder: Seq<char>) -> PlanView {
    let is_nvenc = has_substring(encoder, "nvenc"@);
    let is_amf = has_substring(encoder, "amf"@);
    let is_qsv = has_substring(encoder, "qsv"@);
    PlanView {
        is_nvenc,
        is_amf,
        is_qsv,
        max_attempts: if is_nvenc || is_amf || is_qsv {
            4
        } else {
            1
        },
        cpu_fallback_encoder: software_fallback(encoder),
    }
}

/// The hardware encoder's name for a quality preset: the fast tier falls to
/// `fast`, the slow tier to `slow`, the encoder's own names pass, anything
/// else is `medium`.
pub open spec fn nvenc_preset(preset: Seq<char>) -> Seq<char> {
    if preset == "ultrafast"@ || preset == "superfast"@ || preset == "veryfast"@ || preset
        == "faster"@ {
        "fast"@
    } else if preset == "fast"@ || preset == "medium"@ {
        "medium"@
    } else if preset == "slow"@ || preset == "slower"@ || preset == "veryslow"@ {
        "slow"@
    } else if preset == "default"@ || preset == "hp"@ || preset == "hq"@ || preset == "bd"@
        || preset == "ll"@ || preset == "llhq"@ || preset == "llhp"@ || preset == "lossless"@
        || preset == "losslesshp"@ {
        preset
    } else {
        "medium"@
    }
}

/// No prompts, progress on the diagnostic channel, no statistics line.
pub open spec fn base_args() -> Seq<Seq<char>> {
    seq!["-y"@, "-hide_banner"@, "-progress"@, "pipe:2"@, "-nostats"@]
}

/// The arguments that ask for hardware decoding, on the attempt that uses
/// it.
pub open spec fn decode_args(plan: PlanView, gpu_index: Option<u32>, attempt: int) -> Seq<
    Seq<char>,
> {
    if plan.uses_hw_decode(attempt) {
        if plan.is_nvenc {
            match gpu_index {
                Some(index) => seq![
                    "-hwaccel"@,
                    "cuda"@,
                    "-hwaccel_device"@,
                    decimal_digits(index as nat),
                ],
                None => seq!["-hwaccel"@, "cuda"@],
            }
        } else {
            seq!["-hwaccel"@, "auto"@]
        }
    } else {
        Seq::empty()
    }
}

/// The thread limit, where one is set.
pub open spec fn thread_args(cpu_threads: Option<u32>) -> Seq<Seq<char>> {
    match cpu_threads {
        Some(threads) => seq!["-threads"@, decimal_digits(threads as nat)],
        None => Seq::empty(),
    }
}

/// The streams to take: the first video stream only, and every audio stream,
/// or the first one alone where the output carries no video.
pub open spec fn map_args(format: FormatInfoView) -> Seq<Seq<char>> {
    let video: Seq<Seq<char>> = if format.supports_video {
        seq!["-map"@, "0:v:0?"@]
    } else {
        Seq::empty()
    };
    let audio: Seq<Seq<char>> = if format.supports_audio {
        if format.supports_video {
            seq!["-map"@, "0:a?"@]
        } else {
            seq!["-map"@, "0:a:0?"@]
        }
    } else {
        Seq::empty()
    };
    video + audio
}

/// The encoder families that want uncompressed audio beside them.
pub open spec fn wants_pcm_audio(encoder: Seq<char>) -> bool {
    encoder == "prores_ks"@ || encoder == "dnxhd"@
}

/// The codec arguments of a preset profile: its encoder, its options as
/// they stand, its pixel format, and uncompressed audio where its encoder
/// wants it.
pub open spec fn profile_args(profile: PresetView) -> Seq<Seq<char>> {
    seq!["-c:v"@, profile.encoder] + profile.encoder_options + seq![
        "-pix_fmt"@,
        profile.pixel_format,
    ] + if wants_pcm_audio(profile.encoder) {
        seq!["-c:a"@, "pcm_s16le"@]
    } else {
        Seq::empty()
    }
}

/// The quality preset argument, for the encoders that take one.
pub open spec fn quality_args(plan: PlanView, task: TaskView, attempt: int) -> Seq<Seq<char>> {
    let encoder = plan.encoder_for(task.encoder, attempt);
    if plan.is_nvenc && !plan.is_cpu_fallback(attempt) {
        seq!["-preset"@, nvenc_preset(task.preset)]
    } else if encoder == "libx264"@ || encoder == "libx265"@ {
        seq!["-preset"@, task.preset]
    } else {
        Seq::empty()
    }
}

/// The GPU to encode on, where the hardware encoder takes one.
pub open spec fn device_args(plan: PlanView, gpu_index: Option<u32>, attempt: int) -> Seq<
    Seq<char>,
> {
    match gpu_index {
        Some(index) => if plan.is_nvenc && !plan.is_cpu_fallback(attempt) {
            seq!["-gpu"@, decimal_digits(index as nat)]
        } else {
            Seq::empty()
        },
        None => Seq::empty(),
    }
}

/// The forced pixel format, on the attempt that forces it.
pub open spec fn pixel_args(plan: PlanView, attempt: int) -> Seq<Seq<char>> {
    if plan.forces_nv12(attempt) {
        seq!["-pix_fmt"@, "nv12"@]
    } else {
        Seq::empty()
    }
}

/// The video codec arguments of the standard path.
pub open spec fn video_args(plan: PlanView, task: TaskView, attempt: int) -> Seq<Seq<char>> {
    seq!["-c:v"@, plan.encoder_for(task.encoder, attempt)] + quality_args(plan, task, attempt)
        + device_args(plan, task.gpu_index, attempt) + pixel_args(plan, attempt)
}

/// The audio codec arguments of the standard path: the format's codec, or a
/// plain copy where it names none.
pub open spec fn audio_args(format: FormatInfoView) -> Seq<Seq<char>> {
    if format.default_audio_codec.len() == 0 {
        seq!["-c:a"@, "copy"@]
    } else {
        seq!["-c:a"@, format.default_audio_codec]
    }
}

/// The attempt encodes with the job's preset profile.
pub open spec fn uses_profile(plan: PlanView, task: TaskView, attempt: int) -> bool {
    task.is_adobe_preset && task.adobe_preset is Some && !plan.is_cpu_fallback(attempt)
}

/// The codec arguments: those of the preset profile where the attempt uses
/// one, those of the standard path otherwise.
pub open spec fn codec_args(plan: PlanView, task: TaskView, format: FormatInfoView, attempt: int) -> Seq<
    Seq<char>,
> {
    if uses_profile(plan, task, attempt) {
        profile_args(task.adobe_preset->0)
    } else {
        let video: Seq<Seq<char>> = if format.supports_video {
            video_args(plan, task, attempt)
        } else {
            Seq::empty()
        };
        let audio: Seq<Seq<char>> = if format.supports_audio {
            audio_args(format)
        } else {
            Seq::empty()
        };
        video + audio
    }
}

/// The containers whose index is moved to the front of the file.
pub open spec fn wants_faststart(ext: Seq<char>) -> bool {
    ext == "mp4"@ || ext == "mov"@ || ext == "m4a"@
}

pub open spec fn faststart_args(ext: Seq<char>) -> Seq<Seq<char>> {
    if wants_faststart(ext) {
        seq!["-movflags"@, "+faststart"@]
    } else {
        Seq::empty()
    }
}

/// The encoder's whole argument list for one attempt of a job.
pub open spec fn command_line(plan: PlanView, task: TaskView, attempt: int) -> Seq<Seq<char>> {
    let format = resolved_format(task.output_ext);
    base_args() + decode_args(plan, task.gpu_index, attempt) + thread_args(task.cpu_threads) + seq![
        "-i"@,
        task.input_file,
    ] + map_args(format) + codec_args(plan, task, format, attempt) + faststart_args(
        task.output_ext,
    ) + seq![task.output_file]
}

/// What the log says when an attempt starts.
pub open spec fn attempt_notice(plan: PlanView, attempt: int) -> Seq<char> {
    if attempt == 1 {
        "Retrying with software decode + GPU encode..."@
    } else if attempt == 2 {
        "Retrying with forced NV12 pixel format..."@
    } else if attempt == 3 {
        "GPU encode failed. Falling back to CPU software encoder..."@
    } else if plan.is_gpu() {
        "Starting GPU accelerated conversion."@
    } else {
        "Starting software conversion."@
    }
}

/// Translates a quality preset into the hardware encoder's vocabulary.
pub fn translate_nvenc_preset(cpu_preset: &str) -> (r: String)
    ensures
        r@ == nvenc_preset(cpu_preset@),
{
    if str_eq(cpu_preset, "ultrafast") || str_eq(cpu_preset, "superfast") || str_eq(
        cpu_preset,
        "veryfast",
    ) || str_eq(cpu_preset, "faster") {
        "fast".to_owned()
    } else if str_eq(cpu_preset, "fast") || str_eq(cpu_preset, "medium") {
        "medium".to_owned()
    } else if str_eq(cpu_preset, "slow") || str_eq(cpu_preset, "slower") || str_eq(
        cpu_preset,
        "veryslow",
    ) {
        "slow".to_owned()
    } else if str_eq(cpu_preset, "default") || str_eq(cpu_preset, "hp") || str_eq(cpu_preset, "hq")
        || str_eq(cpu_preset, "bd") || str_eq(cpu_preset, "ll") || str_eq(cpu_preset, "llhq")
        || str_eq(cpu_preset, "llhp") || str_eq(cpu_preset, "lossless") || str_eq(
        cpu_preset,
        "losslesshp",
    ) {
        cpu_preset.to_owned()
    } else {
        "medium".to_owned()
    }
}

impl AttemptPlan {
    /// The plan that an encoder name calls for.
    pub fn for_encoder(encoder: &str) -> (plan: Self)
        ensures
            plan@ == plan_for(encoder@),
    {
        let name = chars_of(encoder);
        let is_nvenc = chars_contain_str(&name, "nvenc");
        let is_amf = chars_contain_str(&name, "amf");
        let is_qsv = chars_contain_str(&name, "qsv");
        let cpu_fallback_encoder = if chars_contain_str(&name, "h264") || chars_contain_str(
            &name,
            "264",
        ) {
            "libx264"
        } else if chars_contain_str(&name, "hevc") || chars_contain_str(&name, "265") {
            "libx265"
        } else {
            "libx264"
        };
        AttemptPlan {
            is_nvenc,
            is_amf,
            is_qsv,
            max_attempts: if is_nvenc || is_amf || is_qsv {
                4
            } else {
                1
            },
            cpu_fallback_encoder,
        }
    }

    /// Whether the encoder runs on a GPU.
    pub fn is_gpu(&self) -> (r: bool)
        ensures
            r == self@.is_gpu(),
    {
        self.is_nvenc || self.is_amf || self.is_qsv
    }

    /// Whether the attempt swaps in the software encoder.
    pub fn is_cpu_fallback(&self, attempt: usize) -> (r: bool)
        ensures
            r == self@.is_cpu_fallback(attempt as int),
    {
        self.is_gpu() && attempt == 3
    }

    /// The encoder that the attempt runs.
    pub fn encoder_for(&self, encoder: &str, attempt: usize) -> (r: String)
        ensures
            r@ == self@.encoder_for(encoder@, attempt as int),
    {
        if self.is_cpu_fallback(attempt) {
            self.cpu_fallback_encoder.to_owned()
        } else {
            encoder.to_owned()
        }
    }

    /// What the log says when the attempt starts.
    pub fn notice(&self, attempt: usize) -> (r: String)
        ensures
            r@ == attempt_notice(self@, attempt as int),
    {
        if attempt == 1 {
            "Retrying with software decode + GPU encode...".to_owned()
        } else if attempt == 2 {
            "Retrying with forced NV12 pixel format...".to_owned()
        } else if attempt == 3 {
            "GPU encode failed. Falling back to CPU software encoder...".to_owned()
        } else if self.is_gpu() {
            "Starting GPU accelerated conversion.".to_owned()
        } else {
            "Starting software conversion.".to_owned()
        }
    }
}

fn push_pair(args: &mut Vec<String>, key: &str, value: &str)
    ensures
        texts(final(args)@) == texts(old(args)@) + seq![key@, value@],
{
    push_text(args, key);
    push_text(args, value);
    assert(texts(args@) =~= texts(old(args)@) + seq![key@, value@]);
}

fn push_number(args: &mut Vec<String>, key: &str, value: u32)
    ensures
        texts(final(args)@) == texts(old(args)@) + seq![key@, decimal_digits(value as nat)],
{
    push_text(args, key);
    push_string(args, decimal_text(value as u64));
    assert(texts(args@) =~= texts(old(args)@) + seq![key@, decimal_digits(value as nat)]);
}

fn push_decode_args(args: &mut Vec<String>, plan: &AttemptPlan, gpu_index: Option<u32>, attempt: usize)
    ensures
        texts(final(args)@) == texts(old(args)@) + decode_args(plan@, gpu_index, attempt as int),
{
    if plan.is_gpu() && attempt == 0 {
        if plan.is_nvenc {
            push_pair(args, "-hwaccel", "cuda");
            if let Some(index) = gpu_index {
                push_number(args, "-hwaccel_device", index);
            }
        } else {
            push_pair(args, "-hwaccel", "auto");
        }
    }
    assert(texts(args@) =~= texts(old(args)@) + decode_args(plan@, gpu_index, attempt as int));
}

fn push_thread_args(args: &mut Vec<String>, cpu_threads: Option<u32>)
    ensures
        texts(final(args)@) == texts(old(args)@) + thread_args(cpu_threads),
{
    if let Some(threads) = cpu_threads {
        push_number(args, "-threads", threads);
    }
    assert(texts(args@) =~= texts(old(args)@) + thread_args(cpu_threads));
}

fn push_map_args(args: &mut Vec<String>, format: &FormatInfo)
    ensures
        texts(final(args)@) == texts(old(args)@) + map_args(format@),
{
    if format.supports_video {
        push_pair(args, "-map", "0:v:0?");
    }
    if format.supports_audio {
        if format.supports_video {
            push_pair(args, "-map", "0:a?");
        } else {
            push_pair(args, "-map", "0:a:0?");
        }
    }
    assert(texts(args@) =~= texts(old(args)@) + map_args(format@));
}

fn push_all(args: &mut Vec<String>, items: &Vec<String>)
    ensures
        texts(final(args)@) == texts(old(args)@) + texts(items@),
{
    let mut i: usize = 0;
    while i < items.len()
        invariant
            i <= items.len(),
            texts(args@) == texts(old(args)@) + texts(items@.take(i as int)),
        decreases items.len() - i,
    {
        proof {
            lemma_texts_push(items@.take(i as int), items@[i as int]);
            assert(items@.take(i + 1) =~= items@.take(i as int).push(items@[i as int]));
        }
        push_text(args, items[i].as_str());
        assert(texts(args@) =~= texts(old(args)@) + texts(items@.take(i + 1)));
        i = i + 1;
    }
    assert(items@.take(items.len() as int) =~= items@);
}

fn push_profile_args(args: &mut Vec<String>, profile: &AdobePreset)
    ensures
        texts(final(args)@) == texts(old(args)@) + profile_args(profile@),
{
    push_pair(args, "-c:v", profile.encoder.as_str());
    push_all(args, &profile.encoder_options);
    push_pair(args, "-pix_fmt", profile.pixel_format.as_str());
    if str_eq(profile.encoder.as_str(), "prores_ks") || str_eq(profile.encoder.as_str(), "dnxhd") {
        push_pair(args, "-c:a", "pcm_s16le");
    }
    assert(texts(args@) =~= texts(old(args)@) + profile_args(profile@));
}

fn push_video_args(args: &mut Vec<String>, plan: &AttemptPlan, task: &ConversionTask, attempt: usize)
    ensures
        texts(final(args)@) == texts(old(args)@) + video_args(plan@, task@, attempt as int),
{
    let encoder = plan.encoder_for(task.encoder.as_str(), attempt);
    let fallback = plan.is_cpu_fallback(attempt);
    push_pair(args, "-c:v", encoder.as_str());
    let ghost after_codec = texts(args@);
    if plan.is_nvenc && !fallback {
        let translated = translate_nvenc_preset(task.preset.as_str());
        push_pair(args, "-preset", translated.as_str());
    } else if str_eq(encoder.as_str(), "libx264") || str_eq(encoder.as_str(), "libx265") {
        push_pair(args, "-preset", task.preset.as_str());
    }
    assert(texts(args@) =~= after_codec + quality_args(plan@, task@, attempt as int));
    let ghost after_quality = texts(args@);
    if plan.is_nvenc && !fallback {
        if let Some(index) = task.gpu_index {
            push_number(args, "-gpu", index);
        }
    }
    assert(texts(args@) =~= after_quality + device_args(plan@, task@.gpu_index, attempt as int));
    let ghost after_device = texts(args@);
    if plan.is_gpu() && attempt == 2 {
        push_pair(args, "-pix_fmt", "nv12");
    }
    assert(texts(args@) =~= after_device + pixel_args(plan@, attempt as int));
    assert(texts(args@) =~= texts(old(args)@) + video_args(plan@, task@, attempt as int));
}

fn push_audio_args(args: &mut Vec<String>, format: &FormatInfo)
    ensures
        texts(final(args)@) == texts(old(args)@) + audio_args(format@),
{
    if format.default_audio_codec.is_empty() {
        push_pair(args, "-c:a", "copy");
    } else {
        push_pair(args, "-c:a", format.default_audio_codec);
    }
}

fn push_codec_args(
    args: &mut Vec<String>,
    plan: &AttemptPlan,
    task: &ConversionTask,
    format: &FormatInfo,
    attempt: usize,
)
    ensures
        texts(final(args)@) == texts(old(args)@) + codec_args(
            plan@,
            task@,
            format@,
            attempt as int,
        ),
{
    let fallback = plan.is_cpu_fallback(attempt);
    if task.is_adobe_preset && !fallback {
        if let Some(profile) = &task.adobe_preset {
            push_profile_args(args, profile);
            return ;
        }
    }
    if format.supports_video {
        push_video_args(args, plan, task, attempt);
    }
    let ghost after_video = texts(args@);
    if format.supports_audio {
        push_audio_args(args, format);
    }
    assert(texts(args@) =~= texts(old(args)@) + codec_args(plan@, task@, format@, attempt as int));
}

fn push_faststart_args(args: &mut Vec<String>, ext: &str)
    ensures
        texts(final(args)@) == texts(old(args)@) + faststart_args(ext@),
{
    if str_eq(ext, "mp4") || str_eq(ext, "mov") || str_eq(ext, "m4a") {
        push_pair(args, "-movflags", "+faststart");
    }
    assert(texts(args@) =~= texts(old(args)@) + faststart_args(ext@));
}

/// Builds the encoder's argument list for one attempt of a job.
pub fn build_args(plan: &AttemptPlan, task: &ConversionTask, attempt: usize) -> (args: Vec<String>)
    ensures
        texts(args@) == command_line(plan@, task@, attempt as int),
{
    let format = get_format_info(task.output_ext.as_str());
    let mut args: Vec<String> = Vec::new();
    push_text(&mut args, "-y");
    push_text(&mut args, "-hide_banner");
    push_text(&mut args, "-progress");
    push_text(&mut args, "pipe:2");
    push_text(&mut args, "-nostats");
    assert(texts(args@) =~= base_args());
    push_decode_args(&mut args, plan, task.gpu_index, attempt);
    push_thread_args(&mut args, task.cpu_threads);
    push_pair(&mut args, "-i", task.input_file.as_str());
    push_map_args(&mut args, &format);
    push_codec_args(&mut args, plan, task, &format, attempt);
    push_faststart_args(&mut args, task.output_ext.as_str());
    let ghost before_output = texts(args@);
    push_text(&mut args, task.output_file.as_str());
    assert(texts(args@) =~= before_output + seq![task@.output_file]);
    args
}


/// `part` stands in `whole` at offset `at`, item for item.
pub open spec fn segment_at(whole: Seq<Seq<char>>, part: Seq<Seq<char>>, at: int) -> bool {
    &&& 0 <= at
    &&& at + part.len() <= whole.len()
    &&& whole.subrange(at, at + part.len()) == part
}

/// A text none of whose characters is the first of `needle` does not hold
/// `needle`.
pub proof fn lemma_missing_first_char(hay: Seq<char>, needle: Seq<char>)
    requires
        needle.len() > 0,
        forall|i: int| 0 <= i < hay.len() ==> hay[i] != needle[0],
    ensures
        !has_substring(hay, needle),
{
    assert forall|at: int| !crate::text::occurs_at(hay, needle, at) by {
        if crate::text::occurs_at(hay, needle, at) {
            assert(hay.subrange(at, at + needle.len())[0] == needle[0]);
        }
    }
}

/// The fallback encoder is one of the two software encoders, and its own
/// plan is that of a software encoder.
pub proof fn lemma_fallback_is_software(encoder: Seq<char>)
    ensures
        software_fallback(encoder) == "libx264"@ || software_fallback(encoder) == "libx265"@,
        !plan_for(software_fallback(encoder)).is_gpu(),
        plan_for(software_fallback(encoder)).max_attempts == 1,
{
    reveal_strlit("libx264");
    reveal_strlit("libx265");
    reveal_strlit("nvenc");
    reveal_strlit("amf");
    reveal_strlit("qsv");
    lemma_missing_first_char("libx264"@, "nvenc"@);
    lemma_missing_first_char("libx264"@, "amf"@);
    lemma_missing_first_char("libx264"@, "qsv"@);
    lemma_missing_first_char("libx265"@, "nvenc"@);
    lemma_missing_first_char("libx265"@, "amf"@);
    lemma_missing_first_char("libx265"@, "qsv"@);
}

/// The attempt ladder. An encoder whose name carries a hardware mark gets
/// exactly four attempts: the first three run the configured encoder, the
/// fourth the software encoder of its codec family. Any other encoder gets
/// exactly one attempt, with the encoder as configured.
pub proof fn lemma_attempt_ladder(encoder: Seq<char>)
    ensures
        plan_for(encoder).is_gpu() ==> {
            &&& plan_for(encoder).max_attempts == 4
            &&& plan_for(encoder).encoder_for(encoder, 0) == encoder
            &&& plan_for(encoder).encoder_for(encoder, 1) == encoder
            &&& plan_for(encoder).encoder_for(encoder, 2) == encoder
            &&& plan_for(encoder).encoder_for(encoder, 3) == software_fallback(encoder)
        },
        !plan_for(encoder).is_gpu() ==> {
            &&& plan_for(encoder).max_attempts == 1
            &&& plan_for(encoder).encoder_for(encoder, 0) == encoder
        },
        !plan_for(software_fallback(encoder)).is_gpu(),
        has_substring(encoder, "h264"@) || has_substring(encoder, "264"@) ==> software_fallback(
            encoder,
        ) == "libx264"@,
        !(has_substring(encoder, "h264"@) || has_substring(encoder, "264"@)) && (has_substring(
            encoder,
            "hevc"@,
        ) || has_substring(encoder, "265"@)) ==> software_fallback(encoder) == "libx265"@,
{
    lemma_fallback_is_software(encoder);
}

/// The last attempt of a hardware job that follows no preset profile runs
/// the very command of a software job with the fallback encoder: nothing of
/// the GPU is left in it.
pub proof fn lemma_fallback_command_is_software(task: TaskView)
    requires
        plan_for(task.encoder).is_gpu(),
    ensures
        ({
            let fallback = software_fallback(task.encoder);
            let software = TaskView { encoder: fallback, is_adobe_preset: false, ..task };
            command_line(plan_for(task.encoder), task, 3) == command_line(
                plan_for(fallback),
                software,
                0,
            )
        }),
{
    lemma_fallback_is_software(task.encoder);
    let fallback = software_fallback(task.encoder);
    let software = TaskView { encoder: fallback, is_adobe_preset: false, ..task };
    assert(video_args(plan_for(task.encoder), task, 3) =~= video_args(plan_for(fallback), software, 0));
}

/// A profile's encoder followed by its option list.
pub open spec fn profile_head(profile: PresetView) -> Seq<Seq<char>> {
    seq!["-c:v"@, profile.encoder] + profile.encoder_options
}

/// A job that follows a preset profile hands the encoder, on every attempt
/// but the software fallback, that profile's encoder followed by its option
/// list exactly as the profile gives it.
pub proof fn lemma_profile_reaches_command(plan: PlanView, task: TaskView, attempt: int)
    requires
        uses_profile(plan, task, attempt),
    ensures
        exists|at: int| #[trigger]
            segment_at(command_line(plan, task, attempt), profile_head(task.adobe_preset->0), at),
{
    let profile = task.adobe_preset->0;
    let format = resolved_format(task.output_ext);
    let head = base_args() + decode_args(plan, task.gpu_index, attempt) + thread_args(
        task.cpu_threads,
    ) + seq!["-i"@, task.input_file] + map_args(format);
    let part = profile_head(profile);
    let whole = command_line(plan, task, attempt);
    let at = head.len() as int;
    assert(whole.subrange(at, at + part.len()) =~= part);
    assert(segment_at(whole, part, at));
}

/// For every preset name that the catalog holds, a job that asks for that
/// profile hands the encoder, on every attempt but the software fallback,
/// the encoder and the option list of the catalog's preset of that name. For
/// a name that the catalog does not hold the job carries no profile.
pub proof fn lemma_known_profile_reaches_command(
    request: TaskRequest,
    extension: Option<Seq<char>>,
    attempt: int,
)
    requires
        request.is_adobe_preset,
        !plan_for(request.encoder).is_cpu_fallback(attempt),
    ensures
        match preset_named(request.preset) {
            Some(profile) => {
                &&& profile.name == request.preset
                &&& preset_catalog().contains(profile)
                &&& initial_task(request, extension).adobe_preset == Some(profile)
                &&& exists|at: int| #[trigger]
                    segment_at(
                        command_line(
                            plan_for(request.encoder),
                            initial_task(request, extension),
                            attempt,
                        ),
                        profile_head(profile),
                        at,
                    )
            },
            None => {
                &&& initial_task(request, extension).adobe_preset is None
                &&& forall|i: int|
                    0 <= i < preset_catalog().len() ==> (#[trigger] preset_catalog()[i]).name
                        != request.preset
            },
        },
{
    lemma_find_in_sound(preset_catalog(), request.preset);
    if preset_named(request.preset) is Some {
        lemma_profile_reaches_command(
            plan_for(request.encoder),
            initial_task(request, extension),
            attempt,
        );
    }
}

/// A job whose preset name the catalog does not hold follows no profile: on
/// every attempt its codec arguments are those of the standard path.
pub proof fn lemma_unknown_profile_uses_standard_path(
    plan: PlanView,
    task: TaskView,
    format: FormatInfoView,
    attempt: int,
)
    requires
        task.adobe_preset is None,
    ensures
        !uses_profile(plan, task, attempt),
        codec_args(plan, task, format, attempt) == (if format.supports_video {
            video_args(plan, task, attempt)
        } else {
            Seq::empty()
        }) + (if format.supports_audio {
            audio_args(format)
        } else {
            Seq::empty()
        }),
{
}

} // verus!
