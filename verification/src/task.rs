//! The record of one conversion job: what was asked for, how far it has
//! come, and the process that is working on it.

use crate::preset::{preset_named, resolve_preset, AdobePreset, PresetView};
use crate::progress::{ConversionProgress, ProgressView, StatusView};
use crate::text::lowercase;
use vstd::prelude::*;

verus! {

/// One conversion job. Everything but `progress` and `pid` is fixed when the
/// job is created.
#[derive(Debug)]
pub struct ConversionTask {
    pub id: String,
    pub input_file: String,
    pub output_file: String,
    pub ffmpeg_path: String,
    pub encoder: String,
    pub gpu_index: Option<u32>,
    pub cpu_threads: Option<u32>,
    pub preset: String,
    pub is_adobe_preset: bool,
    pub adobe_preset: Option<AdobePreset>,
    /// The extension of `output_file` in lower case, `mp4` where it has
    /// none: the key into the format table.
    pub output_ext: String,
    pub progress: ConversionProgress,
    /// The operating system's id of the encoder process, while one is alive
    /// and not yet reaped.
    pub pid: Option<u32>,
}

/// A job as contracts see it.
pub struct TaskView {
    pub id: Seq<char>,
    pub input_file: Seq<char>,
    pub output_file: Seq<char>,
    pub ffmpeg_path: Seq<char>,
    pub encoder: Seq<char>,
    pub gpu_index: Option<u32>,
    pub cpu_threads: Option<u32>,
    pub preset: Seq<char>,
    pub is_adobe_preset: bool,
    pub adobe_preset: Option<PresetView>,
    pub output_ext: Seq<char>,
    pub progress: ProgressView,
    pub pid: Option<u32>,
}

impl View for ConversionTask {
    type V = TaskView;

    open spec fn view(&self) -> TaskView {
        TaskView {
            id: self.id@,
            input_file: self.input_file@,
            output_file: self.output_file@,
            ffmpeg_path: self.ffmpeg_path@,
            encoder: self.encoder@,
            gpu_index: self.gpu_index,
            cpu_threads: self.cpu_threads,
            preset: self.preset@,
            is_adobe_preset: self.is_adobe_preset,
            adobe_preset: match self.adobe_preset {
                Some(p) => Some(p@),
                None => None,
            },
            output_ext: self.output_ext@,
            progress: self.progress@,
            pid: self.pid,
        }
    }
}

/// What a job is asked to do.
pub struct TaskRequest {
    pub task_id: Seq<char>,
    pub input_file: Seq<char>,
    pub output_file: Seq<char>,
    pub ffmpeg_path: Seq<char>,
    pub encoder: Seq<char>,
    pub gpu_index: Option<u32>,
    pub cpu_threads: Option<u32>,
    pub preset: Seq<char>,
    pub is_adobe_preset: bool,
}

/// The format key for an output file whose name has the given extension.
pub open spec fn extension_key(extension: Option<Seq<char>>) -> Seq<char> {
    match extension {
        Some(e) => lowercase(e),
        None => "mp4"@,
    }
}

/// The job that a request starts as: pending, nothing logged, no process,
/// and with the preset profile resolved from the catalog where one is asked
/// for.
pub open spec fn initial_task(request: TaskRequest, extension: Option<Seq<char>>) -> TaskView {
    TaskView {
        id: request.task_id,
        input_file: request.input_file,
        output_file: request.output_file,
        ffmpeg_path: request.ffmpeg_path,
        encoder: request.encoder,
        gpu_index: request.gpu_index,
        cpu_threads: request.cpu_threads,
        preset: request.preset,
        is_adobe_preset: request.is_adobe_preset,
        adobe_preset: if request.is_adobe_preset {
            preset_named(request.preset)
        } else {
            None
        },
        output_ext: extension_key(extension),
        progress: ProgressView {
            task_id: request.task_id,
            status: StatusView::Pending,
            percentage: 0,
            current_time: 0,
            duration: 0,
            log: Seq::empty(),
            error_message: None,
        },
        pid: None,
    }
}

/// Asks `std::path::Path::extension` for the extension of the file that
/// `path` names. Where a file name begins and ends is the host's rule, so
/// nothing is said of the answer.
#[verifier::external_body]
pub(crate) fn path_extension(path: &str) -> Option<String> {
    std::path::Path::new(path).extension().and_then(|e| e.to_str()).map(|e| e.to_string())
}

impl ConversionTask {
    /// A pending job for an output file with the given extension.
    pub fn with_extension(
        task_id: String,
        input_file: String,
        output_file: String,
        ffmpeg_path: String,
        encoder: String,
        gpu_index: Option<u32>,
        cpu_threads: Option<u32>,
        preset: String,
        is_adobe_preset: bool,
        extension: Option<&str>,
    ) -> (task: Self)
        ensures
            task@ == initial_task(
                TaskRequest {
                    task_id: task_id@,
                    input_file: input_file@,
                    output_file: output_file@,
                    ffmpeg_path: ffmpeg_path@,
                    encoder: encoder@,
                    gpu_index,
                    cpu_threads,
                    preset: preset@,
                    is_adobe_preset,
                },
                extension.deep_view(),
            ),
    {
        let adobe_preset = if is_adobe_preset {
            resolve_preset(preset.as_str())
        } else {
            None
        };
        let output_ext = match extension {
            Some(e) => e.to_lowercase(),
            None => "mp4".to_owned(),
        };
        let progress = ConversionProgress::new(task_id.clone());
        ConversionTask {
            id: task_id,
            input_file,
            output_file,
            ffmpeg_path,
            encoder,
            gpu_index,
            cpu_threads,
            preset,
            is_adobe_preset,
            adobe_preset,
            output_ext,
            progress,
            pid: None,
        }
    }

    /// A pending job. The extension is read off `output_file` by the host's
    /// path rules.
    pub fn new(
        task_id: String,
        input_file: String,
        output_file: String,
        ffmpeg_path: String,
        encoder: String,
        gpu_index: Option<u32>,
        cpu_threads: Option<u32>,
        preset: String,
        is_adobe_preset: bool,
    ) -> (task: Self)
        ensures
            exists|extension: Option<Seq<char>>|
                task@ == #[trigger] initial_task(
                    TaskRequest {
                        task_id: task_id@,
                        input_file: input_file@,
                        output_file: output_file@,
                        ffmpeg_path: ffmpeg_path@,
                        encoder: encoder@,
                        gpu_index,
                        cpu_threads,
                        preset: preset@,
                        is_adobe_preset,
                    },
                    extension,
                ),
    {
        let extension = path_extension(output_file.as_str());
        let ghost request = TaskRequest {
            task_id: task_id@,
            input_file: input_file@,
            output_file: output_file@,
            ffmpeg_path: ffmpeg_path@,
            encoder: encoder@,
            gpu_index,
            cpu_threads,
            preset: preset@,
            is_adobe_preset,
        };
        let task = match &extension {
            Some(e) => ConversionTask::with_extension(
                task_id,
                input_file,
                output_file,
                ffmpeg_path,
                encoder,
                gpu_index,
                cpu_threads,
                preset,
                is_adobe_preset,
                Some(e.as_str()),
            ),
            None => ConversionTask::with_extension(
                task_id,
                input_file,
                output_file,
                ffmpeg_path,
                encoder,
                gpu_index,
                cpu_threads,
                preset,
                is_adobe_preset,
                None,
            ),
        };
        assert(task@ == initial_task(request, extension.deep_view()));
        task
    }
}

} // verus!
