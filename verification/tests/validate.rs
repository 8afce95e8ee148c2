use dreamcodec::error::AppError;
use dreamcodec::validate::{check_size, find_corruption_mark, inspect_diagnostics, probe_args, validate_output};

#[test]
fn probe_command() {
    assert_eq!(
        probe_args("out dir/clip.mp4"),
        vec!["-v", "error", "-i", "out dir/clip.mp4", "-frames:v", "5", "-f", "null", "-"]
    );
}

#[test]
fn missing_or_empty_file_fails_fast() {
    assert_eq!(check_size(&Ok(0)).as_deref(), Some("Output file is empty"));
    assert_eq!(check_size(&Ok(1)), None);
    assert_eq!(check_size(&Ok(u64::MAX)), None);
    assert_eq!(
        check_size(&Err("No such file or directory (os error 2)".to_string())).as_deref(),
        Some("Cannot stat output file: No such file or directory (os error 2)")
    );
}

#[test]
fn every_mark_of_corruption_is_found() {
    for mark in [
        "Invalid NAL unit size",
        "Error splitting the input into NAL units",
        "non existing PPS",
        "no frame!",
        "Could not find codec parameters",
        "Invalid data found",
        "unspecified pixel format",
        "decode_slice_header error",
    ] {
        let diagnostics = format!("[h264 @ 0x55d] prefix {} suffix\nsecond line\n", mark);
        assert_eq!(
            inspect_diagnostics(&diagnostics),
            Some(format!("Corrupt video stream detected: [h264 @ 0x55d] prefix {} suffix", mark)),
            "{}",
            mark
        );
        assert!(find_corruption_mark(&mark.to_lowercase()));
    }
    assert!(!find_corruption_mark("INVALID DATA FOUND"));
}

#[test]
fn reason_is_the_first_line() {
    assert_eq!(
        inspect_diagnostics("warning: something\r\n[mov] Invalid data found when processing input\n"),
        Some("Corrupt video stream detected: warning: something".to_string())
    );
    assert_eq!(
        inspect_diagnostics("\nno frame!"),
        Some("Corrupt video stream detected: ".to_string())
    );
    assert_eq!(
        inspect_diagnostics("no frame!"),
        Some("Corrupt video stream detected: no frame!".to_string())
    );
}

#[test]
fn sound_output_has_no_problem() {
    assert_eq!(inspect_diagnostics(""), None);
    assert_eq!(inspect_diagnostics("[aac] Estimating duration from bitrate, this may be inaccurate\n"), None);
    assert_eq!(inspect_diagnostics("invalid nal unit\n"), None);
    assert_eq!(validate_output(&Ok(String::new())), None);
    assert_eq!(
        validate_output(&Ok("x\nInvalid data found\n".to_string())).as_deref(),
        Some("Corrupt video stream detected: x")
    );
    assert_eq!(
        validate_output(&Err("permission denied".to_string())).as_deref(),
        Some("Validation probe failed to start: permission denied")
    );
}

#[test]
fn errors_are_presented_by_kind() {
    assert_eq!(AppError::Io("disk".to_string()).describe(), "I/O Error: disk");
    assert_eq!(AppError::Ffmpeg("exit".to_string()).describe(), "FFmpeg Error: exit");
    assert_eq!(AppError::Tauri("window".to_string()).describe(), "Tauri Error: window");
    assert_eq!(AppError::Internal("bug".to_string()).describe(), "Internal Error: bug");
    assert_eq!(AppError::Internal(String::new()).describe(), "Internal Error: ");
    let e = AppError::Ffmpeg("exit".to_string());
    assert_eq!(e.clone(), e);
    assert_ne!(e, AppError::Io("exit".to_string()));
}
