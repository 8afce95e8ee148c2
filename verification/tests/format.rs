use dreamcodec::format::{get_format_info, get_supported_formats, lookup_format};

fn row(ext: &str) -> (&'static str, &'static str, &'static str, bool, bool) {
    let f = get_format_info(ext);
    (f.container, f.default_video_codec, f.default_audio_codec, f.supports_video, f.supports_audio)
}

#[test]
fn every_row_of_the_table() {
    assert_eq!(row("mp4"), ("mp4", "libx264", "aac", true, true));
    assert_eq!(row("mkv"), ("matroska", "libx264", "aac", true, true));
    assert_eq!(row("avi"), ("avi", "libx264", "mp3", true, true));
    assert_eq!(row("mov"), ("mov", "libx264", "aac", true, true));
    assert_eq!(row("wmv"), ("asf", "wmv2", "wmav2", true, true));
    assert_eq!(row("flv"), ("flv", "libx264", "aac", true, true));
    assert_eq!(row("webm"), ("webm", "libvpx-vp9", "libopus", true, true));
    assert_eq!(row("ogv"), ("ogg", "libtheora", "libvorbis", true, true));
    assert_eq!(row("mp3"), ("mp3", "", "libmp3lame", false, true));
    assert_eq!(row("wav"), ("wav", "", "pcm_s16le", false, true));
    assert_eq!(row("aac"), ("adts", "", "aac", false, true));
    assert_eq!(row("flac"), ("flac", "", "flac", false, true));
    assert_eq!(row("m4a"), ("ipod", "", "aac", false, true));
    assert_eq!(row("ogg"), ("ogg", "", "libvorbis", false, true));
}

#[test]
fn lookup_ignores_case() {
    assert_eq!(row("MKV"), row("mkv"));
    assert_eq!(row("WebM"), row("webm"));
    assert_eq!(row("FLAC"), ("flac", "", "flac", false, true));
}

#[test]
fn unknown_extension_is_written_as_mp4() {
    assert_eq!(row("xyz"), ("mp4", "libx264", "aac", true, true));
    assert_eq!(row(""), ("mp4", "libx264", "aac", true, true));
    assert_eq!(row(".mkv"), ("mp4", "libx264", "aac", true, true));
}

#[test]
fn resolution_is_the_same_every_time() {
    for ext in ["mp4", "MKV", "wav", "nothing", ""] {
        assert_eq!(row(ext), row(ext));
    }
}

#[test]
fn table_lookup_is_case_sensitive() {
    assert_eq!(lookup_format("mkv").container, "matroska");
    assert_eq!(lookup_format("MKV").container, "mp4");
}

#[test]
fn every_listed_extension_resolves_to_its_kind() {
    let formats = get_supported_formats();
    assert_eq!(formats.video, vec!["mp4", "mkv", "avi", "mov", "wmv", "flv", "webm", "ogv"]);
    assert_eq!(formats.audio, vec!["mp3", "wav", "aac", "flac", "m4a", "ogg"]);
    for ext in &formats.video {
        assert!(get_format_info(ext).supports_video, "{}", ext);
        assert!(get_format_info(ext).supports_audio, "{}", ext);
    }
    for ext in &formats.audio {
        assert!(!get_format_info(ext).supports_video, "{}", ext);
        assert!(get_format_info(ext).supports_audio, "{}", ext);
    }
}
