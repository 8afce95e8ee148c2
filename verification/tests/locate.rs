use dreamcodec::error::AppError;
use dreamcodec::folders::{all_failed, distinct_candidates, no_candidates, note_failure, OUTPUT_FOLDER};
use dreamcodec::locate::{CpuInfo, FfmpegDownloader, FfmpegLocator, FfmpegStatus, DOWNLOAD_URL};
use dreamcodec::text::{chars_of, ends_with, starts_with};

fn entry_names(list: &[&str]) -> Vec<String> {
    list.iter().map(|n| n.to_string()).collect()
}

#[test]
fn common_locations_in_order() {
    assert_eq!(
        FfmpegLocator::common_locations(),
        vec![
            r"C:\ffmpeg\bin\ffmpeg.exe",
            r"C:\Program Files\ffmpeg\bin\ffmpeg.exe",
            r"C:\Program Files (x86)\ffmpeg\bin\ffmpeg.exe",
            r"C:\ffmpeg\ffmpeg.exe",
            r"C:\ProgramData\chocolatey\bin\ffmpeg.exe",
            r"C:\tools\ffmpeg\bin\ffmpeg.exe",
        ]
    );
    assert_eq!(DOWNLOAD_URL, "https://www.gyan.dev/ffmpeg/builds/ffmpeg-release-essentials.zip");
}

#[test]
fn source_is_judged_by_the_path() {
    let source = |p: &str, beside: bool| FfmpegLocator::classify_source(p, beside);
    assert_eq!(source(r"C:\Users\me\AppData\Local\Microsoft\WinGet\Packages\x\ffmpeg.exe", true), "winget");
    assert_eq!(source(r"C:\Users\me\AppData\Roaming\Dreamcodec\ffmpeg.exe", true), "downloaded");
    assert_eq!(source(r"D:\GPU-MKV-to-MP4-Converter\ffmpeg.exe", false), "downloaded");
    assert_eq!(source(r"C:\ffmpeg\bin\ffmpeg.exe", true), "common");
    assert_eq!(source(r"D:\Program Files\ffmpeg\bin\ffmpeg.exe", false), "common");
    assert_eq!(source(r"D:\C:\ffmpeg\ffmpeg.exe", false), "path");
    assert_eq!(source(r"D:\app\ffmpeg.exe", true), "bundled");
    assert_eq!(source(r"D:\app\ffmpeg.exe", false), "path");
    assert_eq!(source("ffmpeg", false), "path");
    assert_eq!(source("", true), "bundled");
}

#[test]
fn status_records() {
    let found = FfmpegStatus::found("ffmpeg".to_string(), Some("ffmpeg version 7".to_string()), false);
    assert!(found.available);
    assert_eq!(found.path.as_deref(), Some("ffmpeg"));
    assert_eq!(found.version.as_deref(), Some("ffmpeg version 7"));
    assert_eq!(found.source.as_deref(), Some("path"));
    let missing = FfmpegStatus::missing();
    assert!(!missing.available);
    assert!(missing.path.is_none() && missing.version.is_none() && missing.source.is_none());
    let cpu = CpuInfo::new(None, 16);
    assert_eq!((cpu.name.as_str(), cpu.logical_cores), ("Unknown CPU", 16));
    let cpu = CpuInfo::new(Some("  AMD Ryzen 9 7950X 16-Core Processor \r\n"), 0);
    assert_eq!((cpu.name.as_str(), cpu.logical_cores), ("AMD Ryzen 9 7950X 16-Core Processor", 0));
    assert_eq!(CpuInfo::new(Some(" \n"), 4).name, "Unknown CPU");
    assert_eq!(CpuInfo::new(Some(""), 4).name, "Unknown CPU");
}

#[test]
fn version_and_packages() {
    assert_eq!(
        FfmpegLocator::version_line("ffmpeg version 7.1 Copyright\r\nbuilt with gcc\n").as_deref(),
        Some("ffmpeg version 7.1 Copyright")
    );
    assert_eq!(FfmpegLocator::version_line(""), None);
    assert!(FfmpegLocator::is_ffmpeg_package("Gyan.FFmpeg_Microsoft.Winget.Source_8wekyb"));
    assert!(FfmpegLocator::is_ffmpeg_package("ffmpeg"));
    assert!(!FfmpegLocator::is_ffmpeg_package("ffmpe"));
    assert!(!FfmpegLocator::is_ffmpeg_package("VideoLAN.VLC"));
}

#[test]
fn archive_entries_are_chosen() {
    let entries = FfmpegDownloader::select_entries(&entry_names(&[
        "ffmpeg-7.1-essentials_build/",
        "ffmpeg-7.1-essentials_build/doc/ffmpeg.exe",
        "ffmpeg-7.1-essentials_build/bin/FFmpeg.exe",
        "ffmpeg-7.1-essentials_build/bin/ffplay.exe",
        "ffmpeg-7.1-essentials_build/bin/ffprobe.exe",
        "ffmpeg-7.1-essentials_build/DOC/ffprobe.exe",
        "ffmpeg-7.1-essentials_build/README.txt",
    ]))
    .expect("the encoder is there");
    assert_eq!(entries.ffmpeg, "ffmpeg-7.1-essentials_build/bin/FFmpeg.exe");
    assert_eq!(entries.ffprobe.as_deref(), Some("ffmpeg-7.1-essentials_build/bin/ffprobe.exe"));

    let last = FfmpegDownloader::select_entries(&entry_names(&["a/ffmpeg.exe", "b/ffmpeg.exe", "myffmpeg.exe"]))
        .expect("the encoder is there");
    assert_eq!(last.ffmpeg, "myffmpeg.exe");
    assert_eq!(last.ffprobe, None);

    for list in [&[][..], &["bin/ffprobe.exe"][..], &["doc/ffmpeg.exe", "ffmpeg.exe.txt"][..]] {
        assert_eq!(
            FfmpegDownloader::select_entries(&entry_names(list)).err(),
            Some(AppError::Ffmpeg("Could not find ffmpeg.exe in archive".to_string()))
        );
    }
    assert!(FfmpegDownloader::entry_holds("bin/ffmpeg.exe", "ffmpeg.exe"));
    assert!(!FfmpegDownloader::entry_holds("docs/ffmpeg.exe", "ffmpeg.exe"));
    assert!(!FfmpegDownloader::entry_holds("bin/ffmpeg.exe", "ffprobe.exe"));
}

#[test]
fn prefixes_and_suffixes() {
    let s = chars_of("C:\\ffmpeg\\x");
    assert!(starts_with(&s, "C:\\ffmpeg"));
    assert!(starts_with(&s, ""));
    assert!(starts_with(&s, "C:\\ffmpeg\\x"));
    assert!(!starts_with(&s, "C:\\ffmpeg\\xy"));
    assert!(!starts_with(&s, ":\\"));
    assert!(ends_with(&s, "\\x"));
    assert!(ends_with(&s, ""));
    assert!(!ends_with(&s, "y"));
    assert!(!ends_with(&s, "yC:\\ffmpeg\\x"));
}

#[test]
fn default_output_folder() {
    assert_eq!(OUTPUT_FOLDER, "Dreamcodec Output");
    let kept = distinct_candidates(&entry_names(&[
        r"C:\Users\me\Videos",
        r"c:\users\ME\videos",
        "/home/me/Videos",
        r"C:\Users\me\Videos",
        "/home/me/videos",
        "/home/me/Video",
    ]));
    assert_eq!(kept, vec![r"C:\Users\me\Videos", "/home/me/Videos", "/home/me/Video"]);
    assert!(distinct_candidates(&Vec::new()).is_empty());
    assert_eq!(
        no_candidates(),
        AppError::Internal("Could not determine a default output directory".to_string())
    );
    assert_eq!(note_failure("/x/Dreamcodec Output", "Permission denied"), "/x/Dreamcodec Output (Permission denied)");
    assert_eq!(
        all_failed(&entry_names(&["/x (denied)", "/y (read-only)"])),
        AppError::Internal("Failed to create default output directory. Tried: /x (denied); /y (read-only)".to_string())
    );
    assert_eq!(
        all_failed(&Vec::new()),
        AppError::Internal("Failed to create output directory for unknown reason".to_string())
    );
}
