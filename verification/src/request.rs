//! What is settled before a job is registered: the request in its final
//! form, and whether the input can feed the output that is asked for.

use crate::error::{AppError, AppErrorView};
use crate::format::{get_format_info, resolved_format, FormatInfo, FormatInfoView};
use crate::probe::{parsed_info, report_is_readable, VideoInfo, VideoInfoView};
use crate::task::path_extension;
use crate::text::{append_text, push_text, texts};
use vstd::prelude::*;

verus! {

/// What a caller asks for when it starts a conversion.
#[derive(Debug)]
pub struct StartConversionArgs {
    pub input_file: String,
    pub output_file: String,
    pub encoder: String,
    pub gpu_index: Option<u32>,
    pub cpu_threads: Option<u32>,
    pub preset: String,
    pub is_adobe_preset: Option<bool>,
}

/// A request as contracts see it.
pub struct StartArgsView {
    pub input_file: Seq<char>,
    pub output_file: Seq<char>,
    pub encoder: Seq<char>,
    pub gpu_index: Option<u32>,
    pub cpu_threads: Option<u32>,
    pub preset: Seq<char>,
    pub is_adobe_preset: Option<bool>,
}

impl View for StartConversionArgs {
    type V = StartArgsView;

    open spec fn view(&self) -> StartArgsView {
        StartArgsView {
            input_file: self.input_file@,
            output_file: self.output_file@,
            encoder: self.encoder@,
            gpu_index: self.gpu_index,
            cpu_threads: self.cpu_threads,
            preset: self.preset@,
            is_adobe_preset: self.is_adobe_preset,
        }
    }
}

/// The text, or `fallback` where there is none.
pub open spec fn text_or(t: Option<Seq<char>>, fallback: Seq<char>) -> Seq<char> {
    match t {
        Some(t) => t,
        None => fallback,
    }
}

/// The request that single fields make up: input and output are needed, the
/// encoder falls back to `libx264` and the quality preset to `fast`.
pub open spec fn request_from_fields(
    input_file: Option<Seq<char>>,
    output_file: Option<Seq<char>>,
    encoder: Option<Seq<char>>,
    gpu_index: Option<u32>,
    preset: Option<Seq<char>>,
    is_adobe_preset: Option<bool>,
) -> Result<StartArgsView, AppErrorView> {
    match input_file {
        None => Err(AppErrorView::Internal("Missing input_file"@)),
        Some(input) => match output_file {
            None => Err(AppErrorView::Internal("Missing output_file"@)),
            Some(output) => Ok(
                StartArgsView {
                    input_file: input,
                    output_file: output,
                    encoder: text_or(encoder, "libx264"@),
                    gpu_index,
                    cpu_threads: None,
                    preset: text_or(preset, "fast"@),
                    is_adobe_preset,
                },
            ),
        },
    }
}

/// The request in its final form: a request given whole comes first, under
/// either of its two names, and only then the single fields.
pub open spec fn resolved_request(
    input_file: Option<Seq<char>>,
    output_file: Option<Seq<char>>,
    encoder: Option<Seq<char>>,
    gpu_index: Option<u32>,
    preset: Option<Seq<char>>,
    is_adobe_preset: Option<bool>,
    args: Option<StartArgsView>,
    payload: Option<StartArgsView>,
) -> Result<StartArgsView, AppErrorView> {
    match args {
        Some(a) => Ok(a),
        None => match payload {
            Some(p) => Ok(p),
            None => request_from_fields(
                input_file,
                output_file,
                encoder,
                gpu_index,
                preset,
                is_adobe_preset,
            ),
        },
    }
}

/// A format that carries audio and no video.
pub open spec fn is_audio_only(format: FormatInfoView) -> bool {
    !format.supports_video && format.supports_audio
}

/// The arguments that make the encoder binary report on an input file.
pub open spec fn input_probe_command(input_file: Seq<char>) -> Seq<Seq<char>> {
    seq!["-hide_banner"@, "-i"@, input_file]
}

/// Whether an input with this information can feed an audio-only output.
pub open spec fn audio_admission(info: VideoInfoView) -> Result<(), AppErrorView> {
    if info.audio_streams.len() == 0 {
        Err(
            AppErrorView::Ffmpeg(
                "Input has no audio stream; cannot create audio-only output."@,
            ),
        )
    } else {
        Ok(())
    }
}

/// Puts a request into its final form.
pub fn resolve_start_args(
    input_file: Option<String>,
    output_file: Option<String>,
    encoder: Option<String>,
    gpu_index: Option<u32>,
    preset: Option<String>,
    is_adobe_preset: Option<bool>,
    args: Option<StartConversionArgs>,
    payload: Option<StartConversionArgs>,
) -> (r: Result<StartConversionArgs, AppError>)
    ensures
        match r {
            Ok(a) => Ok::<StartArgsView, AppErrorView>(a@),
            Err(e) => Err::<StartArgsView, AppErrorView>(e@),
        } == resolved_request(
            input_file.deep_view(),
            output_file.deep_view(),
            encoder.deep_view(),
            gpu_index,
            preset.deep_view(),
            is_adobe_preset,
            match args {
                Some(a) => Some(a@),
                None => None,
            },
            match payload {
                Some(p) => Some(p@),
                None => None,
            },
        ),
{
    if let Some(a) = args {
        return Ok(a);
    }
    if let Some(p) = payload {
        return Ok(p);
    }
    let input = match input_file {
        Some(i) => i,
        None => { return Err(AppError::Internal("Missing input_file".to_owned())); },
    };
    let output = match output_file {
        Some(o) => o,
        None => { return Err(AppError::Internal("Missing output_file".to_owned())); },
    };
    let encoder = match encoder {
        Some(e) => e,
        None => "libx264".to_owned(),
    };
    let preset = match preset {
        Some(p) => p,
        None => "fast".to_owned(),
    };
    Ok(
        StartConversionArgs {
            input_file: input,
            output_file: output,
            encoder,
            gpu_index,
            cpu_threads: None,
            preset,
            is_adobe_preset,
        },
    )
}

/// The error for an input file that does not exist.
pub fn missing_input(input_file: &str) -> (e: AppError)
    ensures
        e@ == AppErrorView::Io("Input file not found: "@ + input_file@),
{
    AppError::Io(append_text("Input file not found: ", input_file))
}

/// Whether a format carries audio and no video.
pub fn format_is_audio_only(format: &FormatInfo) -> (r: bool)
    ensures
        r == is_audio_only(format@),
{
    !format.supports_video && format.supports_audio
}

/// Whether the output file is of an audio-only format, so that the input
/// must be shown to have an audio stream. The extension is read off the
/// name by the host's path rules; a name without one is written as `mp4`.
pub fn output_is_audio_only(output_file: &str) -> (r: bool)
    ensures
        exists|extension: Option<Seq<char>>|
            r == is_audio_only(#[trigger] resolved_format(text_or(extension, Seq::empty()))),
{
    let extension = path_extension(output_file);
    let format = match &extension {
        Some(e) => get_format_info(e.as_str()),
        None => {
            proof {
                reveal_strlit("");
                assert(""@ =~= Seq::<char>::empty());
            }
            get_format_info("")
        },
    };
    assert(format@ == resolved_format(text_or(extension.deep_view(), Seq::empty())));
    format_is_audio_only(&format)
}

/// The arguments that make the encoder binary report on `input_file`.
pub fn input_probe_args(input_file: &str) -> (args: Vec<String>)
    ensures
        texts(args@) == input_probe_command(input_file@),
{
    let mut args: Vec<String> = Vec::new();
    push_text(&mut args, "-hide_banner");
    push_text(&mut args, "-i");
    push_text(&mut args, input_file);
    assert(texts(args@) =~= input_probe_command(input_file@));
    args
}

/// Whether an input with this information can feed an audio-only output:
/// one without an audio stream cannot.
pub fn require_audio_stream(info: &VideoInfo) -> (r: Result<(), AppError>)
    ensures
        match r {
            Ok(()) => Ok::<(), AppErrorView>(()),
            Err(e) => Err::<(), AppErrorView>(e@),
        } == audio_admission(info@),
{
    if info.audio_streams.len() == 0 {
        Err(
            AppError::Ffmpeg(
                "Input has no audio stream; cannot create audio-only output.".to_owned(),
            ),
        )
    } else {
        Ok(())
    }
}

/// Reads the encoder binary's report on the input of a job with an
/// audio-only output and rejects the job where the report lists no audio
/// stream.
pub fn admit_audio_only(report: &str) -> (r: Result<(), AppError>)
    ensures
        r is Ok <==> report_is_readable(report@) && parsed_info(report@).audio_streams.len() > 0,
        r matches Err(e) ==> if report_is_readable(report@) {
            e@ == AppErrorView::Ffmpeg(
                "Input has no audio stream; cannot create audio-only output."@,
            )
        } else {
            e is Internal
        },
{
    match VideoInfo::parse(report) {
        Ok(info) => require_audio_stream(&info),
        Err(e) => Err(e),
    }
}

} // verus!
