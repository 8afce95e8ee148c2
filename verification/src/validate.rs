//! The output validator's judgement. A short decode probe is run over a
//! finished file; what it printed decides whether the file is sound.

use crate::text::{
    chars_contain_str, chars_of, append_text, first_line, first_line_of, has_substring, lowercase,
    push_text, texts,
};
use vstd::prelude::*;

verus! {

/// The arguments of the decode probe for a finished output file: decode a
/// few video frames into nothing and report errors only.
pub open spec fn probe_command(output_file: Seq<char>) -> Seq<Seq<char>> {
    seq![
        "-v"@,
        "error"@,
        "-i"@,
        output_file,
        "-frames:v"@,
        "5"@,
        "-f"@,
        "null"@,
        "-"@,
    ]
}

/// The lower-case text holds one of the marks of a corrupt stream.
pub open spec fn has_corruption_mark(lower: Seq<char>) -> bool {
    ||| has_substring(lower, "invalid nal unit size"@)
    ||| has_substring(lower, "error splitting the input into nal units"@)
    ||| has_substring(lower, "non existing pps"@)
    ||| has_substring(lower, "no frame!"@)
    ||| has_substring(lower, "could not find codec parameters"@)
    ||| has_substring(lower, "invalid data found"@)
    ||| has_substring(lower, "unspecified pixel format"@)
    ||| has_substring(lower, "decode_slice_header error"@)
}

/// The reason given for diagnostics that show a corrupt stream: their first
/// line.
pub open spec fn corruption_reason(diagnostics: Seq<char>) -> Seq<char> {
    "Corrupt video stream detected: "@ + match first_line(diagnostics) {
        Some(line) => line,
        None => "unknown error"@,
    }
}

/// What the probe's diagnostics say is wrong with the file, if anything.
/// The marks are looked for without regard to case.
pub open spec fn corruption_in(diagnostics: Seq<char>) -> Option<Seq<char>> {
    if has_corruption_mark(lowercase(diagnostics)) {
        Some(corruption_reason(diagnostics))
    } else {
        None
    }
}

/// What is wrong with an output file of the given size, or of which the
/// size could not be had: a file that is missing or empty is never probed.
pub open spec fn size_problem(size: Result<u64, Seq<char>>) -> Option<Seq<char>> {
    match size {
        Ok(n) => if n == 0 {
            Some("Output file is empty"@)
        } else {
            None
        },
        Err(e) => Some("Cannot stat output file: "@ + e),
    }
}

/// What is wrong when the probe could not be started.
pub open spec fn probe_start_problem(error: Seq<char>) -> Seq<char> {
    "Validation probe failed to start: "@ + error
}

/// What a finished probe shows to be wrong with the file.
pub open spec fn probe_problem(outcome: Result<Seq<char>, Seq<char>>) -> Option<Seq<char>> {
    match outcome {
        Ok(diagnostics) => corruption_in(diagnostics),
        Err(e) => Some(probe_start_problem(e)),
    }
}

/// The arguments of the decode probe for `output_file`.
pub fn probe_args(output_file: &str) -> (args: Vec<String>)
    ensures
        texts(args@) == probe_command(output_file@),
{
    let mut args: Vec<String> = Vec::new();
    push_text(&mut args, "-v");
    push_text(&mut args, "error");
    push_text(&mut args, "-i");
    push_text(&mut args, output_file);
    push_text(&mut args, "-frames:v");
    push_text(&mut args, "5");
    push_text(&mut args, "-f");
    push_text(&mut args, "null");
    push_text(&mut args, "-");
    assert(texts(args@) =~= probe_command(output_file@));
    args
}

/// Whether lower-case diagnostics hold one of the marks of a corrupt
/// stream.
pub fn find_corruption_mark(lower: &str) -> (r: bool)
    ensures
        r == has_corruption_mark(lower@),
{
    let text = chars_of(lower);
    chars_contain_str(&text, "invalid nal unit size") || chars_contain_str(
        &text,
        "error splitting the input into nal units",
    ) || chars_contain_str(&text, "non existing pps") || chars_contain_str(&text, "no frame!")
        || chars_contain_str(&text, "could not find codec parameters") || chars_contain_str(
        &text,
        "invalid data found",
    ) || chars_contain_str(&text, "unspecified pixel format") || chars_contain_str(
        &text,
        "decode_slice_header error",
    )
}

/// Judges the probe's diagnostics: `None` where they show nothing wrong,
/// else a one-line reason.
pub fn inspect_diagnostics(diagnostics: &str) -> (problem: Option<String>)
    ensures
        problem.deep_view() == corruption_in(diagnostics@),
{
    let lower = diagnostics.to_lowercase();
    if find_corruption_mark(lower.as_str()) {
        let reason = match first_line_of(diagnostics) {
            Some(line) => append_text("Corrupt video stream detected: ", line.as_str()),
            None => append_text("Corrupt video stream detected: ", "unknown error"),
        };
        Some(reason)
    } else {
        None
    }
}

/// Judges the size of the output file.
pub fn check_size(size: &Result<u64, String>) -> (problem: Option<String>)
    ensures
        problem.deep_view() == size_problem(
            match size {
                Ok(n) => Ok(*n),
                Err(e) => Err(e@),
            },
        ),
{
    match size {
        Ok(n) => if *n == 0 {
            Some("Output file is empty".to_owned())
        } else {
            None
        },
        Err(e) => Some(append_text("Cannot stat output file: ", e.as_str())),
    }
}

/// Judges a finished probe.
pub fn validate_output(outcome: &Result<String, String>) -> (problem: Option<String>)
    ensures
        problem.deep_view() == probe_problem(
            match outcome {
                Ok(d) => Ok(d@),
                Err(e) => Err(e@),
            },
        ),
{
    match outcome {
        Ok(diagnostics) => inspect_diagnostics(diagnostics.as_str()),
        Err(e) => Some(append_text("Validation probe failed to start: ", e.as_str())),
    }
}

} // verus!
