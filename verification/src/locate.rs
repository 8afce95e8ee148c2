//! Finding and fetching the encoder binary: the decisions that need no
//! file system. Looking into directories and archives is the caller's part;
//! what was seen there is judged here.

use crate::error::{AppError, AppErrorView};
use crate::text::{
    chars_contain_str, chars_of, ends_with, first_line, first_line_of, has_prefix, has_substring,
    has_suffix, lowercase, push_text, starts_with, texts, trimmed,
};
use vstd::prelude::*;

verus! {

/// Where the archive of the encoder binary is fetched from.
pub const DOWNLOAD_URL: &'static str =
    "https://www.gyan.dev/ffmpeg/builds/ffmpeg-release-essentials.zip";

/// Searches for the encoder binary.
pub struct FfmpegLocator;

/// Fetches the encoder binary.
pub struct FfmpegDownloader;

/// Whether an encoder binary was found, and where.
#[derive(Debug, Clone)]
pub struct FfmpegStatus {
    pub available: bool,
    pub path: Option<String>,
    pub version: Option<String>,
    /// One of `bundled`, `path`, `common`, `winget`, `downloaded`.
    pub source: Option<String>,
}

/// The host's processor.
#[derive(Debug, Clone)]
pub struct CpuInfo {
    pub name: String,
    pub logical_cores: usize,
}

/// The entries of the archive to unpack.
#[derive(Debug)]
pub struct ArchiveEntries {
    pub ffmpeg: String,
    pub ffprobe: Option<String>,
}

/// The places where the encoder binary is commonly installed.
pub open spec fn common_install_paths() -> Seq<Seq<char>> {
    seq![
        "C:\\ffmpeg\\bin\\ffmpeg.exe"@,
        "C:\\Program Files\\ffmpeg\\bin\\ffmpeg.exe"@,
        "C:\\Program Files (x86)\\ffmpeg\\bin\\ffmpeg.exe"@,
        "C:\\ffmpeg\\ffmpeg.exe"@,
        "C:\\ProgramData\\chocolatey\\bin\\ffmpeg.exe"@,
        "C:\\tools\\ffmpeg\\bin\\ffmpeg.exe"@,
    ]
}

/// How a binary at `path` came to be there, judged by the path. One that
/// lies beside the running program is bundled with it; any other that no
/// rule knows was found on the search path.
pub open spec fn source_of(path: Seq<char>, beside_program: bool) -> Seq<char> {
    if has_substring(path, "WinGet"@) {
        "winget"@
    } else if has_substring(path, "Dreamcodec"@) || has_substring(
        path,
        "GPU-MKV-to-MP4-Converter"@,
    ) {
        "downloaded"@
    } else if has_prefix(path, "C:\\ffmpeg"@) || has_substring(path, "Program Files\\ffmpeg"@) {
        "common"@
    } else if beside_program {
        "bundled"@
    } else {
        "path"@
    }
}

/// The lower-case entry name is that of the program `file`, and not of its
/// documentation.
pub open spec fn is_program_entry(lower: Seq<char>, file: Seq<char>) -> bool {
    has_suffix(lower, file) && !has_substring(lower, "doc"@)
}

/// The archive entry that holds the encoder binary: the last one so named.
pub open spec fn ffmpeg_entry(names: Seq<Seq<char>>) -> Option<Seq<char>>
    decreases names.len(),
{
    if names.len() == 0 {
        None
    } else if is_program_entry(lowercase(names.last()), "ffmpeg.exe"@) {
        Some(names.last())
    } else {
        ffmpeg_entry(names.drop_last())
    }
}

/// The archive entry that holds the probe binary: the last one so named
/// that is not taken for the encoder binary.
pub open spec fn ffprobe_entry(names: Seq<Seq<char>>) -> Option<Seq<char>>
    decreases names.len(),
{
    if names.len() == 0 {
        None
    } else if !is_program_entry(lowercase(names.last()), "ffmpeg.exe"@) && is_program_entry(
        lowercase(names.last()),
        "ffprobe.exe"@,
    ) {
        Some(names.last())
    } else {
        ffprobe_entry(names.drop_last())
    }
}

impl FfmpegLocator {
    /// The places where the encoder binary is commonly installed, in the
    /// order in which they are tried.
    pub fn common_locations() -> (paths: Vec<String>)
        ensures
            texts(paths@) == common_install_paths(),
    {
        let mut paths: Vec<String> = Vec::new();
        push_text(&mut paths, "C:\\ffmpeg\\bin\\ffmpeg.exe");
        push_text(&mut paths, "C:\\Program Files\\ffmpeg\\bin\\ffmpeg.exe");
        push_text(&mut paths, "C:\\Program Files (x86)\\ffmpeg\\bin\\ffmpeg.exe");
        push_text(&mut paths, "C:\\ffmpeg\\ffmpeg.exe");
        push_text(&mut paths, "C:\\ProgramData\\chocolatey\\bin\\ffmpeg.exe");
        push_text(&mut paths, "C:\\tools\\ffmpeg\\bin\\ffmpeg.exe");
        assert(texts(paths@) =~= common_install_paths());
        paths
    }

    /// Whether a package directory of this name may hold the encoder
    /// binary.
    pub fn is_ffmpeg_package(dir_name: &str) -> (r: bool)
        ensures
            r == has_substring(lowercase(dir_name@), "ffmpeg"@),
    {
        let lower = dir_name.to_lowercase();
        crate::text::contains(lower.as_str(), "ffmpeg")
    }

    /// The version line of the encoder binary: the first line of what it
    /// prints when asked for its version.
    pub fn version_line(printed: &str) -> (line: Option<String>)
        ensures
            line.deep_view() == first_line(printed@),
    {
        first_line_of(printed)
    }

    /// How a binary at `path` came to be there.
    pub fn classify_source(path: &str, beside_program: bool) -> (source: String)
        ensures
            source@ == source_of(path@, beside_program),
    {
        let text = chars_of(path);
        if chars_contain_str(&text, "WinGet") {
            "winget".to_owned()
        } else if chars_contain_str(&text, "Dreamcodec") || chars_contain_str(
            &text,
            "GPU-MKV-to-MP4-Converter",
        ) {
            "downloaded".to_owned()
        } else if starts_with(&text, "C:\\ffmpeg") || chars_contain_str(
            &text,
            "Program Files\\ffmpeg",
        ) {
            "common".to_owned()
        } else if beside_program {
            "bundled".to_owned()
        } else {
            "path".to_owned()
        }
    }
}

impl FfmpegStatus {
    /// The status when a binary was found at `path`.
    pub fn found(path: String, version: Option<String>, beside_program: bool) -> (status: Self)
        ensures
            status.available,
            status.path == Some(path),
            status.version == version,
            status.source matches Some(s) && s@ == source_of(path@, beside_program),
    {
        let source = FfmpegLocator::classify_source(path.as_str(), beside_program);
        FfmpegStatus { available: true, path: Some(path), version, source: Some(source) }
    }

    /// The status when no binary was found.
    pub fn missing() -> (status: Self)
        ensures
            !status.available,
            status.path is None,
            status.version is None,
            status.source is None,
    {
        FfmpegStatus { available: false, path: None, version: None, source: None }
    }
}

/// The name to show for a processor, given what the host printed when
/// asked for it: the text without surrounding whitespace, or a stand-in
/// where nothing was printed.
pub open spec fn cpu_name(printed: Option<Seq<char>>) -> Seq<char> {
    match printed {
        Some(text) => if trimmed(text).len() > 0 {
            trimmed(text)
        } else {
            "Unknown CPU"@
        },
        None => "Unknown CPU"@,
    }
}

impl CpuInfo {
    /// The processor, from what the host printed when asked for its name
    /// and from the number of its logical cores.
    pub fn new(printed_name: Option<&str>, logical_cores: usize) -> (info: Self)
        ensures
            info.logical_cores == logical_cores,
            info.name@ == cpu_name(printed_name.deep_view()),
    {
        let name = match printed_name {
            Some(text) => {
                let cleaned = text.trim();
                if cleaned.is_empty() {
                    "Unknown CPU".to_owned()
                } else {
                    cleaned.to_owned()
                }
            },
            None => "Unknown CPU".to_owned(),
        };
        CpuInfo { name, logical_cores }
    }
}

impl FfmpegDownloader {
    pub fn new() -> Self {
        FfmpegDownloader
    }

    /// Whether an archive entry of this lower-case name holds the program
    /// `file`.
    pub fn entry_holds(lower: &str, file: &str) -> (r: bool)
        ensures
            r == is_program_entry(lower@, file@),
    {
        let text = chars_of(lower);
        ends_with(&text, file) && !chars_contain_str(&text, "doc")
    }

    /// Chooses the archive entries to unpack from the names of all entries.
    /// An archive without the encoder binary is an error.
    pub fn select_entries(names: &Vec<String>) -> (r: Result<ArchiveEntries, AppError>)
        ensures
            match r {
                Ok(entries) => ffmpeg_entry(texts(names@)) == Some(entries.ffmpeg@)
                    && entries.ffprobe.deep_view() == ffprobe_entry(texts(names@)),
                Err(e) => ffmpeg_entry(texts(names@)) is None && e@ == AppErrorView::Ffmpeg(
                    "Could not find ffmpeg.exe in archive"@,
                ),
            },
    {
        let mut ffmpeg: Option<String> = None;
        let mut ffprobe: Option<String> = None;
        let mut i: usize = 0;
        assert(texts(names@).take(0) =~= Seq::<Seq<char>>::empty());
        while i < names.len()
            invariant
                i <= names.len(),
                ffmpeg.deep_view() == ffmpeg_entry(texts(names@).take(i as int)),
                ffprobe.deep_view() == ffprobe_entry(texts(names@).take(i as int)),
            decreases names.len() - i,
        {
            proof {
                let before = texts(names@).take(i as int);
                let after = texts(names@).take(i + 1);
                assert(after.drop_last() =~= before);
                assert(after.last() == names@[i as int]@);
            }
            let lower = names[i].as_str().to_lowercase();
            if FfmpegDownloader::entry_holds(lower.as_str(), "ffmpeg.exe") {
                ffmpeg = Some(names[i].clone());
            } else if FfmpegDownloader::entry_holds(lower.as_str(), "ffprobe.exe") {
                ffprobe = Some(names[i].clone());
            }
            i = i + 1;
        }
        assert(texts(names@).take(names.len() as int) =~= texts(names@));
        match ffmpeg {
            Some(name) => Ok(ArchiveEntries { ffmpeg: name, ffprobe }),
            None => Err(AppError::Ffmpeg("Could not find ffmpeg.exe in archive".to_owned())),
        }
    }
}

} // verus!
