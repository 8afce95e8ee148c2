use dreamcodec::error::AppError;
use dreamcodec::probe::{read_small_number, stream_from_groups, VideoInfo};
use dreamcodec::request::{
    admit_audio_only, format_is_audio_only, input_probe_args, missing_input, output_is_audio_only,
    require_audio_stream, resolve_start_args, StartConversionArgs,
};
use dreamcodec::format::get_format_info;

const REPORT: &str = "Input #0, matroska,webm, from 'in.mkv':\n  Metadata:\n    ENCODER         : Lavf58.29.100\n  Duration: 00:01:30.50, start: 0.000000, bitrate: 1205 kb/s\n    Stream #0:0(eng): Video: h264 (High), yuv420p(progressive), 1920x1080, 25 fps\n    Stream #0:1[0x1100](jpn): Audio: aac (LC), 48000 Hz, stereo\n    Stream #0:2: Audio: ac3, 48000 Hz, 5.1\n    Stream #0:3(eng): Subtitle: subrip\n    Stream #0:4: Video: mjpeg, yuvj420p (attached pic)\n";

const SILENT: &str = "Input #0, mov,mp4, from 'in.mp4':\n  Duration: 00:00:05.00, start: 0.000000\n    Stream #0:0(und): Video: hevc (Main), yuv420p, 3840x2160\nAt least one output file must be specified\n";

fn stream(s: &dreamcodec::probe::StreamInfo) -> (u32, &str, Option<&str>, Option<&str>) {
    (s.index, s.codec.as_str(), s.language.as_deref(), s.title.as_deref())
}

#[test]
fn report_is_read() {
    let info = VideoInfo::parse(REPORT).expect("patterns compile");
    assert_eq!(info.duration, Some(90_500_000));
    assert_eq!(info.video_streams.len(), 2);
    assert_eq!(stream(&info.video_streams[0]), (0, "h264", Some("eng"), None));
    assert_eq!(stream(&info.video_streams[1]), (4, "mjpeg", None, None));
    assert_eq!(info.audio_streams.len(), 2);
    assert_eq!(stream(&info.audio_streams[0]), (1, "aac", Some("jpn"), None));
    assert_eq!(stream(&info.audio_streams[1]), (2, "ac3", None, None));
    assert_eq!((info.width, info.height), (None, None));
}

#[test]
fn picture_size_is_taken_from_the_matched_text() {
    let info = VideoInfo::parse("Stream #0:0: Video: 640x480\nStream #0:1: Video: h264, 1920x1080\n").expect("ok");
    assert_eq!((info.width, info.height), (Some(640), Some(480)));
    assert_eq!(info.video_streams.len(), 2);
    assert_eq!(info.video_streams[0].codec, "640x480");
    let later = VideoInfo::parse("Stream #0:0: Video: 640x480\nStream #0:1: Audio: 1x2\nStream #0:7: Video: 99999999999x3\n").expect("ok");
    assert_eq!((later.width, later.height), (Some(0), Some(3)));
    assert_eq!(later.audio_streams.len(), 1);
}

#[test]
fn report_without_anything() {
    let info = VideoInfo::parse("").expect("ok");
    assert_eq!(info.duration, None);
    assert!(info.video_streams.is_empty());
    assert!(info.audio_streams.is_empty());
    assert_eq!((info.width, info.height), (None, None));
    let na = VideoInfo::parse("  Duration: N/A, start: 0.0\n").expect("ok");
    assert_eq!(na.duration, None);
}

#[test]
fn stream_numbers_that_do_not_fit_count_as_zero() {
    assert_eq!(read_small_number(Some("4294967295")), u32::MAX);
    assert_eq!(read_small_number(Some("4294967296")), 0);
    assert_eq!(read_small_number(Some("18446744073709551616")), 0);
    assert_eq!(read_small_number(Some("12")), 12);
    assert_eq!(read_small_number(Some("x")), 0);
    assert_eq!(read_small_number(None), 0);
    let groups = vec![Some("w".to_string()), Some("7".to_string()), None, Some("Audio".to_string())];
    let s = stream_from_groups(&groups);
    assert_eq!(stream(&s), (7, "", None, None));
}

#[test]
fn audio_only_output_needs_an_audio_stream() {
    assert!(output_is_audio_only("song.mp3"));
    assert!(output_is_audio_only("dir/song.FLAC"));
    assert!(!output_is_audio_only("clip.mp4"));
    assert!(!output_is_audio_only("clip"));
    assert!(!output_is_audio_only("clip.unknown"));
    assert!(format_is_audio_only(&get_format_info("wav")));
    assert!(!format_is_audio_only(&get_format_info("webm")));

    assert_eq!(admit_audio_only(REPORT), Ok(()));
    assert_eq!(
        admit_audio_only(SILENT),
        Err(AppError::Ffmpeg("Input has no audio stream; cannot create audio-only output.".to_string()))
    );
    assert_eq!(
        admit_audio_only(""),
        Err(AppError::Ffmpeg("Input has no audio stream; cannot create audio-only output.".to_string()))
    );
    let info = VideoInfo::parse(SILENT).expect("ok");
    assert_eq!(info.duration, Some(5_000_000));
    assert!(require_audio_stream(&info).is_err());
    assert!(require_audio_stream(&VideoInfo::parse(REPORT).expect("ok")).is_ok());
}

#[test]
fn input_probe_command() {
    assert_eq!(input_probe_args("my file.mkv"), vec!["-hide_banner", "-i", "my file.mkv"]);
    assert_eq!(missing_input("a.mkv"), AppError::Io("Input file not found: a.mkv".to_string()));
}

fn whole(input: &str) -> StartConversionArgs {
    StartConversionArgs {
        input_file: input.to_string(),
        output_file: "o.mp4".to_string(),
        encoder: "hevc_qsv".to_string(),
        gpu_index: Some(2),
        cpu_threads: Some(8),
        preset: "slow".to_string(),
        is_adobe_preset: Some(true),
    }
}

#[test]
fn request_takes_its_final_form() {
    let s = |t: &str| Some(t.to_string());
    let from_args = resolve_start_args(s("x"), None, None, None, None, None, Some(whole("a")), Some(whole("p")))
        .expect("args decide");
    assert_eq!(from_args.input_file, "a");
    assert_eq!(from_args.cpu_threads, Some(8));
    let from_payload = resolve_start_args(None, None, None, None, None, None, None, Some(whole("p")))
        .expect("payload decides");
    assert_eq!(from_payload.input_file, "p");
    assert_eq!(from_payload.is_adobe_preset, Some(true));

    let bare = resolve_start_args(s("i.mkv"), s("o.mkv"), None, Some(1), None, None, None, None).expect("fields");
    assert_eq!(bare.input_file, "i.mkv");
    assert_eq!(bare.output_file, "o.mkv");
    assert_eq!(bare.encoder, "libx264");
    assert_eq!(bare.preset, "fast");
    assert_eq!(bare.gpu_index, Some(1));
    assert_eq!(bare.cpu_threads, None);
    assert_eq!(bare.is_adobe_preset, None);
    let full = resolve_start_args(s("i"), s("o"), s("h264_amf"), None, s("hq"), Some(false), None, None).expect("fields");
    assert_eq!((full.encoder.as_str(), full.preset.as_str(), full.is_adobe_preset), ("h264_amf", "hq", Some(false)));

    assert_eq!(
        resolve_start_args(None, s("o"), None, None, None, None, None, None).err(),
        Some(AppError::Internal("Missing input_file".to_string()))
    );
    assert_eq!(
        resolve_start_args(None, None, None, None, None, None, None, None).err(),
        Some(AppError::Internal("Missing input_file".to_string()))
    );
    assert_eq!(
        resolve_start_args(s("i"), None, s("e"), None, None, None, None, None).err(),
        Some(AppError::Internal("Missing output_file".to_string()))
    );
}
