use dreamcodec::encoder::{encoder_listed, get_encoder_display_name, EncoderInfo, EncoderType};
use dreamcodec::gpu::GpuDetector;

const LISTING: &str = "Encoders:\n V..... = Video\n A..... = Audio\n ------\n V....D libx264              libx264 H.264 / AVC / MPEG-4 AVC / MPEG-4 part 10 (codec h264)\r\n V....D prores_ks            Apple ProRes (iCodec Pro) (codec prores)\n V....D h264_qsv             H.264 / AVC (Intel Quick Sync Video acceleration) (codec h264)\n A....D aac                  AAC (Advanced Audio Coding)\n V....D hevc_nvenc           NVIDIA NVENC hevc encoder (codec hevc)\n V....D h264_amf             AMD AMF H.264 Encoder (codec h264)\n V....D gif                  GIF (Graphics Interchange Format)\n V....D libx265              libx265 H.265 / HEVC (codec hevc)\n V..... mpeg4                MPEG-4 part 2\n A....D flac_mpeg            not video\n";

fn named(name: &str, kind: EncoderType) -> EncoderInfo {
    EncoderInfo {
        name: name.to_string(),
        description: "d".to_string(),
        codec: "c".to_string(),
        encoder_type: kind,
    }
}

fn summary(list: &[EncoderInfo]) -> Vec<(String, String, String, EncoderType)> {
    list.iter()
        .map(|e| (e.name.clone(), e.description.clone(), e.codec.clone(), e.encoder_type))
        .collect()
}

fn entry(name: &str, description: &str, codec: &str, kind: EncoderType) -> (String, String, String, EncoderType) {
    (name.to_string(), description.to_string(), codec.to_string(), kind)
}

#[test]
fn listing_is_read_and_ordered_by_kind() {
    let encoders = GpuDetector::parse_encoder_listing(LISTING);
    assert_eq!(
        summary(&encoders),
        vec![
            entry("libx264", "libx264 H.264 / AVC / MPEG-4 AVC / MPEG-4 part 10", "h264", EncoderType::Cpu),
            entry("libx265", "libx265 H.265 / HEVC", "hevc", EncoderType::Cpu),
            entry("mpeg4", "MPEG-4 part 2", "mpeg4", EncoderType::Cpu),
            entry("hevc_nvenc", "NVIDIA NVENC hevc encoder", "hevc", EncoderType::GpuNvidia),
            entry("h264_amf", "AMD AMF H.264 Encoder", "h264", EncoderType::GpuAmd),
            entry("h264_qsv", "H.264 / AVC (Intel Quick Sync Video acceleration)", "h264", EncoderType::GpuIntel),
            entry("prores_ks", "Apple ProRes (iCodec Pro)", "prores", EncoderType::Adobe),
        ]
    );
}

#[test]
fn listing_without_encoders_gives_the_defaults() {
    let defaults = summary(&GpuDetector::get_default_encoders());
    assert_eq!(defaults.len(), 8);
    assert_eq!(defaults[0], entry("libx264", "H.264 / AVC / MPEG-4 AVC / MPEG-4 part 10", "h264", EncoderType::Cpu));
    assert_eq!(defaults[1], entry("libx265", "H.265 / HEVC (High Efficiency Video Coding)", "hevc", EncoderType::Cpu));
    assert_eq!(defaults[2], entry("h264_nvenc", "NVIDIA NVENC H.264 encoder", "h264", EncoderType::GpuNvidia));
    assert_eq!(defaults[3], entry("hevc_nvenc", "NVIDIA NVENC HEVC encoder", "hevc", EncoderType::GpuNvidia));
    assert_eq!(defaults[4], entry("h264_amf", "AMD AMF H.264 Encoder", "h264", EncoderType::GpuAmd));
    assert_eq!(defaults[5], entry("hevc_amf", "AMD AMF HEVC encoder", "hevc", EncoderType::GpuAmd));
    assert_eq!(
        defaults[6],
        entry(
            "h264_qsv",
            "H.264 / AVC / MPEG-4 AVC / MPEG-4 part 10 (Intel Quick Sync Video acceleration)",
            "h264",
            EncoderType::GpuIntel
        )
    );
    assert_eq!(defaults[7], entry("hevc_qsv", "HEVC (Intel Quick Sync Video acceleration)", "hevc", EncoderType::GpuIntel));
    assert_eq!(summary(&GpuDetector::parse_encoder_listing("")), defaults);
    assert_eq!(summary(&GpuDetector::parse_encoder_listing("ffmpeg: command not found\n")), defaults);
    assert_eq!(summary(&GpuDetector::parse_encoder_listing(" A....D aac   AAC\n V....D gif   GIF\n")), defaults);
}

#[test]
fn order_within_a_kind_stays() {
    let list = vec![
        named("x1", EncoderType::Adobe),
        named("i1", EncoderType::GpuIntel),
        named("c1", EncoderType::Cpu),
        named("a1", EncoderType::GpuAmd),
        named("n1", EncoderType::GpuNvidia),
        named("c2", EncoderType::Cpu),
        named("x2", EncoderType::Adobe),
        named("n2", EncoderType::GpuNvidia),
        named("c3", EncoderType::Cpu),
    ];
    let sorted: Vec<String> = GpuDetector::sort_by_kind(&list).into_iter().map(|e| e.name).collect();
    assert_eq!(sorted, vec!["c1", "c2", "c3", "n1", "n2", "a1", "i1", "x1", "x2"]);
    let mut expected = list.iter().map(|e| e.name.clone()).collect::<Vec<_>>();
    let rank = |n: &String| match &n[..1] {
        "c" => 0,
        "n" => 1,
        "a" => 2,
        "i" => 3,
        _ => 4,
    };
    expected.sort_by_key(rank);
    assert_eq!(sorted, expected);
    assert!(GpuDetector::sort_by_kind(&Vec::new()).is_empty());
}

#[test]
fn codec_comes_from_the_description_or_the_name() {
    let e = GpuDetector::parse_encoder_listing(" V....D libvpx-vp9   libvpx VP9 (codec vp9)\n V....D libvpx  libvpx VP8\n V....D wmv2  Windows Media Video 8\n V....D libtheora  libtheora Theora (codec  theora)\n");
    assert_eq!(
        summary(&e),
        vec![
            entry("libvpx-vp9", "libvpx VP9", "vp9", EncoderType::Cpu),
            entry("libvpx", "libvpx VP8", "unknown", EncoderType::Cpu),
            entry("wmv2", "Windows Media Video 8", "wmv2", EncoderType::Cpu),
            entry("libtheora", "libtheora Theora", "theora", EncoderType::Cpu),
        ]
    );
}

#[test]
fn kinds_by_name() {
    for (name, kind) in [
        ("h264_nvenc", Some(EncoderType::GpuNvidia)),
        ("HEVC_NVENC", Some(EncoderType::GpuNvidia)),
        ("h264_amf", Some(EncoderType::GpuAmd)),
        ("h264_vaapi", Some(EncoderType::GpuAmd)),
        ("hevc_vaapi", None),
        ("hevc_qsv", Some(EncoderType::GpuIntel)),
        ("h264_mediacodec", Some(EncoderType::GpuIntel)),
        ("prores_ks", Some(EncoderType::Adobe)),
        ("dnxhd", Some(EncoderType::Adobe)),
        ("cfhd", Some(EncoderType::Adobe)),
        ("libx264", Some(EncoderType::Cpu)),
        ("libx264rgb", Some(EncoderType::Cpu)),
        ("libsvtav1", Some(EncoderType::Cpu)),
        ("mpeg2video", Some(EncoderType::Cpu)),
        ("flv", Some(EncoderType::Cpu)),
        ("rawvideo", Some(EncoderType::Cpu)),
        ("ffvhuff", Some(EncoderType::Cpu)),
        ("gif", None),
        ("png", None),
        ("", None),
    ] {
        assert_eq!(GpuDetector::classify_encoder(name), kind, "{}", name);
    }
    assert_eq!(GpuDetector::kind_of_lower("NVENC"), None);
}

#[test]
fn codecs_by_name() {
    for (name, codec) in [
        ("libx264", "h264"),
        ("h264_nvenc", "h264"),
        ("libx265", "hevc"),
        ("HEVC_AMF", "hevc"),
        ("libvpx_vp8", "vp8"),
        ("libvpx-vp9", "vp9"),
        ("libaom-av1", "av1"),
        ("mpeg4", "mpeg4"),
        ("libxvid", "mpeg4"),
        ("mpeg2video", "mpeg2video"),
        ("mpeg1video", "mpeg1video"),
        ("wmv1", "wmv2"),
        ("flv", "flv1"),
        ("prores_aw", "prores"),
        ("dnxhr", "dnxhd"),
        ("cfhd", "cineform"),
        ("libtheora", "theora"),
        ("huffyuv", "unknown"),
        ("", "unknown"),
    ] {
        assert_eq!(GpuDetector::infer_codec(name), codec, "{}", name);
    }
    assert_eq!(GpuDetector::codec_of_lower("HEVC"), "unknown");
}

#[test]
fn display_names() {
    for (kind, shown) in [
        (EncoderType::Cpu, "x (CPU) - d"),
        (EncoderType::GpuNvidia, "x (NVIDIA GPU) - d"),
        (EncoderType::GpuAmd, "x (AMD GPU) - d"),
        (EncoderType::GpuIntel, "x (Intel GPU) - d"),
        (EncoderType::Adobe, "x (Professional) - d"),
    ] {
        assert_eq!(get_encoder_display_name(&named("x", kind)), shown);
    }
}

#[test]
fn encoder_is_looked_up_by_name() {
    let list = GpuDetector::get_default_encoders();
    assert!(encoder_listed(&list, "hevc_qsv"));
    assert!(encoder_listed(&list, "libx264"));
    assert!(!encoder_listed(&list, "libx26"));
    assert!(!encoder_listed(&list, "LIBX264"));
    assert!(!encoder_listed(&Vec::new(), "libx264"));
}

#[test]
fn groups_of_a_line() {
    let g = |list: &[Option<&str>]| -> Vec<Option<String>> { list.iter().map(|x| x.map(|t| t.to_string())).collect() };
    let e = GpuDetector::encoder_from_groups(&g(&[Some("whole"), Some("V....D"), Some("libx264"), Some("H.264 (codec h264) tail (codec x)")]))
        .expect("an encoder");
    assert_eq!((e.name.as_str(), e.description.as_str(), e.codec.as_str()), ("libx264", "H.264", "h264"));
    assert!(GpuDetector::encoder_from_groups(&g(&[Some("whole"), Some("A....D"), Some("libx264"), Some("d")])).is_none());
    assert!(GpuDetector::encoder_from_groups(&g(&[Some("whole"), Some("V....D"), Some("gif"), Some("d")])).is_none());
    assert!(GpuDetector::encoder_from_groups(&g(&[Some("whole"), Some("V....D"), Some("libx264")])).is_none());
    assert!(GpuDetector::encoder_from_groups(&g(&[Some("whole"), None, Some("libx264"), Some("d")])).is_none());
    assert!(GpuDetector::encoder_from_groups(&g(&[])).is_none());
}
