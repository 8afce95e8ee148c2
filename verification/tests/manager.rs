use dreamcodec::error::AppError;
use dreamcodec::manager::FfmpegManager;
use dreamcodec::progress::{ConversionStatus, FULL_PERCENTAGE};
use dreamcodec::supervisor::{ProcessExit, Supervisor, SupervisorAction, SupervisorEvent};

fn start(m: &mut FfmpegManager, id: &str, encoder: &str) -> Result<(), AppError> {
    m.start_conversion(
        id.to_string(),
        "in.mkv".to_string(),
        format!("{}.mp4", id),
        "ffmpeg".to_string(),
        encoder.to_string(),
        Some(0),
        None,
        "medium".to_string(),
        false,
    )
}

fn status(m: &FfmpegManager, id: &str) -> ConversionStatus {
    m.get_progress(id).expect("a registered job").status
}

fn run_to_spawned(m: &mut FfmpegManager, id: &str, encoder: &str, pid: u32) -> Supervisor {
    let mut s = m.supervisor_for(id).expect("a registered job");
    assert_eq!(s.attempt, 0);
    assert_eq!(s.plan.max_attempts, Supervisor::new(encoder).plan.max_attempts);
    assert!(matches!(m.supervise(id, &mut s, &SupervisorEvent::Begin), Some(SupervisorAction::Spawn { .. })));
    assert!(matches!(m.supervise(id, &mut s, &SupervisorEvent::Spawned(Some(pid))), Some(SupervisorAction::ReadOutput)));
    s
}

#[test]
fn started_job_is_pending_and_can_be_asked_about() {
    let mut m = FfmpegManager::new();
    assert!(m.get_progress("a").is_none());
    assert!(!m.contains("a"));
    assert_eq!(start(&mut m, "a", "libx264"), Ok(()));
    assert!(m.contains("a"));
    let p = m.get_progress("a").expect("registered");
    assert_eq!(p.task_id, "a");
    assert!(matches!(p.status, ConversionStatus::Pending));
    assert_eq!((p.percentage, p.current_time, p.duration), (0, 0, 0));
    assert!(p.log.is_empty());
    assert_eq!(p.error_message, None);
    assert!(m.get_progress("b").is_none());
    assert!(m.get_progress("").is_none());
}

#[test]
fn registered_id_is_not_replaced() {
    let mut m = FfmpegManager::new();
    assert_eq!(start(&mut m, "a", "libx264"), Ok(()));
    let mut s = run_to_spawned(&mut m, "a", "libx264", 5);
    m.supervise("a", &mut s, &SupervisorEvent::OutputLine("Duration: 00:00:10.00 time=00:00:05.00".to_string()));
    assert_eq!(
        start(&mut m, "a", "h264_nvenc"),
        Err(AppError::Internal("Task already exists".to_string()))
    );
    let p = m.get_progress("a").expect("registered");
    assert!(matches!(p.status, ConversionStatus::Running));
    assert_eq!(p.percentage, 50_000);
    assert_eq!(p.log[0], "Starting software conversion.");
}

#[test]
fn cancel_mid_attempt() {
    let mut m = FfmpegManager::new();
    start(&mut m, "a", "h264_nvenc").expect("registered");
    let mut s = run_to_spawned(&mut m, "a", "h264_nvenc", 777);
    m.supervise("a", &mut s, &SupervisorEvent::OutputLine("Duration: 00:00:10.00".to_string()));
    m.supervise("a", &mut s, &SupervisorEvent::OutputLine("out_time_us=4000000".to_string()));

    assert_eq!(m.cancel_conversion("a"), Ok(Some(777)));
    assert!(matches!(status(&m, "a"), ConversionStatus::Cancelled));

    let action = m.supervise("a", &mut s, &SupervisorEvent::OutputLine("out_time_us=9000000".to_string()));
    assert!(matches!(action, Some(SupervisorAction::Terminate { pid: Some(777) })));
    for exit in [ProcessExit::Success, ProcessExit::Failure(Some(137)), ProcessExit::WaitFailed("gone".to_string())] {
        let action = m.supervise("a", &mut s, &SupervisorEvent::Exited(exit));
        assert!(matches!(action, Some(SupervisorAction::Finish)));
        assert!(matches!(status(&m, "a"), ConversionStatus::Cancelled));
    }
    for event in [
        SupervisorEvent::OutputStat(Ok(10)),
        SupervisorEvent::ProbeFinished(Ok(String::new())),
        SupervisorEvent::Begin,
    ] {
        assert!(matches!(m.supervise("a", &mut s, &event), Some(SupervisorAction::Finish)));
        assert!(matches!(status(&m, "a"), ConversionStatus::Cancelled));
    }
    let p = m.get_progress("a").expect("still registered");
    assert_eq!(p.percentage, 40_000);
    assert_eq!(s.attempt, 0);

    assert_eq!(m.cancel_conversion("a"), Ok(None));
    assert!(matches!(status(&m, "a"), ConversionStatus::Cancelled));
}

#[test]
fn cancel_of_an_unknown_or_ended_job() {
    let mut m = FfmpegManager::new();
    assert_eq!(m.cancel_conversion("nope"), Err(AppError::Internal("Task not found".to_string())));
    start(&mut m, "done", "libx264").expect("registered");
    let mut s = run_to_spawned(&mut m, "done", "libx264", 3);
    m.supervise("done", &mut s, &SupervisorEvent::Exited(ProcessExit::Success));
    m.supervise("done", &mut s, &SupervisorEvent::OutputStat(Ok(1)));
    m.supervise("done", &mut s, &SupervisorEvent::ProbeFinished(Ok(String::new())));
    assert!(matches!(status(&m, "done"), ConversionStatus::Completed));
    assert_eq!(m.cancel_conversion("done"), Ok(None));
    assert!(matches!(status(&m, "done"), ConversionStatus::Completed));
    assert_eq!(m.get_progress("done").expect("registered").percentage, FULL_PERCENTAGE);

    start(&mut m, "pending", "libx264").expect("registered");
    assert_eq!(m.cancel_conversion("pending"), Ok(None));
    assert!(matches!(status(&m, "pending"), ConversionStatus::Cancelled));
    let mut late = Supervisor::new("libx264");
    assert!(matches!(m.supervise("pending", &mut late, &SupervisorEvent::Begin), Some(SupervisorAction::Finish)));
    assert!(m.get_progress("pending").expect("registered").log.is_empty());
}

#[test]
fn cancel_all_ends_every_job() {
    let mut m = FfmpegManager::new();
    assert_eq!(m.cancel_all(), Vec::<u32>::new());
    for id in ["a", "b", "c", "d", "e"] {
        start(&mut m, id, "libx264").expect("registered");
    }
    let mut sa = run_to_spawned(&mut m, "a", "libx264", 11);
    let _sb = run_to_spawned(&mut m, "b", "libx264", 22);
    let mut sc = Supervisor::new("libx264");
    m.supervise("c", &mut sc, &SupervisorEvent::Begin);
    let mut sd = run_to_spawned(&mut m, "d", "libx264", 44);
    m.supervise("d", &mut sd, &SupervisorEvent::Exited(ProcessExit::Failure(Some(1))));
    m.cancel_conversion("a").expect("registered");
    assert!(matches!(status(&m, "d"), ConversionStatus::Failed(_)));

    let mut pids = m.cancel_all();
    pids.sort();
    assert_eq!(pids, vec![11, 22]);
    assert!(matches!(status(&m, "a"), ConversionStatus::Cancelled));
    assert!(matches!(status(&m, "b"), ConversionStatus::Cancelled));
    assert!(matches!(status(&m, "c"), ConversionStatus::Cancelled));
    assert!(matches!(status(&m, "d"), ConversionStatus::Failed(m) if m == "FFmpeg exited with code: 1"));
    assert!(matches!(status(&m, "e"), ConversionStatus::Cancelled));
    for id in ["a", "b", "c", "d", "e"] {
        assert!(status(&m, id).is_terminal());
    }
    assert!(matches!(
        m.supervise("a", &mut sa, &SupervisorEvent::Exited(ProcessExit::Failure(Some(137)))),
        Some(SupervisorAction::Finish)
    ));
    assert_eq!(m.cancel_all(), vec![22]);
}

#[test]
fn events_for_an_unknown_job_are_dropped() {
    let mut m = FfmpegManager::new();
    start(&mut m, "a", "libx264").expect("registered");
    let mut s = Supervisor::new("h264_nvenc");
    assert!(m.supervisor_for("b").is_none());
    assert!(m.supervise("b", &mut s, &SupervisorEvent::Begin).is_none());
    assert!(m.supervise("b", &mut s, &SupervisorEvent::SpawnFailed("e".to_string())).is_none());
    assert_eq!(s.attempt, 0);
    assert!(matches!(status(&m, "a"), ConversionStatus::Pending));
}

#[test]
fn jobs_do_not_touch_each_other() {
    let mut m = FfmpegManager::new();
    start(&mut m, "a", "libx264").expect("registered");
    start(&mut m, "b", "hevc_amf").expect("registered");
    let mut sa = run_to_spawned(&mut m, "a", "libx264", 1);
    let mut sb = run_to_spawned(&mut m, "b", "hevc_amf", 2);
    m.supervise("a", &mut sa, &SupervisorEvent::OutputLine("Duration: 00:00:10.00 time=00:00:01.00".to_string()));
    m.supervise("b", &mut sb, &SupervisorEvent::Exited(ProcessExit::Failure(Some(1))));
    assert_eq!(m.get_progress("a").expect("a").percentage, 10_000);
    assert_eq!(m.get_progress("a").expect("a").error_message, None);
    assert_eq!(m.get_progress("b").expect("b").percentage, 0);
    assert_eq!(sb.attempt, 1);
    assert_eq!(sa.attempt, 0);
    assert_eq!(m.cancel_conversion("b"), Ok(None));
    assert!(matches!(status(&m, "a"), ConversionStatus::Running));
}
