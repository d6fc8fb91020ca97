use musiccut::cut::{
    calculate_inverse_segments, concat_list_entry, cut_video_segments, filter_valid_segments,
    filter_valid_segments_with_ref, merge_overlapping_segments, TimeRange,
};
use musiccut::error::AppError;
use musiccut::fingerprint::Confidence;
use musiccut::supervise::{
    exit_outcome, failure_message, supervise_step, ProcessState, SuperviseAction, ToolKind,
    MAX_ERROR_OUTPUT, PROCESS_POLL_INTERVAL,
};
use musiccut::utils::{Segment, SegmentStatus};

fn segment(start_time: u64, end_time: u64, status: SegmentStatus) -> Segment {
    Segment {
        id: format!("s{}", start_time),
        project_id: "p".to_string(),
        music_id: None,
        music_title: None,
        start_time,
        end_time,
        confidence: Confidence::one(),
        status,
    }
}

fn detected(start_time: u64, end_time: u64) -> Segment {
    segment(start_time, end_time, SegmentStatus::Detected)
}

fn range(start: u64, end: u64) -> TimeRange {
    TimeRange { start, end }
}

#[test]
fn valid_segments_are_cut_to_the_video_and_ordered() {
    let segments = vec![
        detected(50, 80),
        segment(0, 10, SegmentStatus::Removed),
        detected(90, 150),
        detected(20, 30),
        detected(100, 100),
        detected(120, 110),
        detected(200, 300),
        detected(20, 25),
    ];
    assert_eq!(
        filter_valid_segments(&segments, 100),
        vec![range(20, 30), range(20, 25), range(50, 80), range(90, 100)]
    );
    assert_eq!(
        filter_valid_segments_with_ref(&segments, 100),
        vec![(range(20, 30), 3), (range(20, 25), 7), (range(50, 80), 0), (range(90, 100), 2)]
    );
    assert!(filter_valid_segments(&Vec::new(), 100).is_empty());
    assert!(filter_valid_segments(&segments, 0).is_empty());
}

#[test]
fn overlapping_ranges_are_joined() {
    let ranges = vec![range(0, 10), range(5, 20), range(20, 25), range(30, 40), range(31, 32), range(41, 50)];
    assert_eq!(
        merge_overlapping_segments(&ranges),
        vec![range(0, 25), range(30, 40), range(41, 50)]
    );
    assert!(merge_overlapping_segments(&Vec::new()).is_empty());
    assert_eq!(merge_overlapping_segments(&vec![range(3, 4)]), vec![range(3, 4)]);
}

#[test]
fn rest_of_the_video() {
    let segments = vec![
        detected(50, 80),
        segment(0, 10, SegmentStatus::Removed),
        detected(20, 30),
        detected(25, 40),
    ];
    assert_eq!(
        calculate_inverse_segments(&segments, 100),
        vec![range(0, 20), range(40, 50), range(80, 100)]
    );
    assert_eq!(calculate_inverse_segments(&Vec::new(), 100), vec![range(0, 100)]);
    assert!(calculate_inverse_segments(&Vec::new(), 0).is_empty());
    assert!(calculate_inverse_segments(&vec![detected(0, 100)], 100).is_empty());
    assert_eq!(calculate_inverse_segments(&vec![detected(0, 60)], 100), vec![range(60, 100)]);
    assert_eq!(calculate_inverse_segments(&vec![detected(10, 100)], 100), vec![range(0, 10)]);
}

#[test]
fn cut_keeps_the_matched_or_the_rest() {
    let segments = vec![detected(50, 80), detected(20, 30), detected(25, 40)];
    assert_eq!(
        cut_video_segments(&segments, 100, true).unwrap(),
        vec![range(20, 40), range(50, 80)]
    );
    assert_eq!(
        cut_video_segments(&segments, 100, false).unwrap(),
        vec![range(0, 20), range(40, 50), range(80, 100)]
    );
}

#[test]
fn cut_that_keeps_nothing_fails() {
    assert!(matches!(cut_video_segments(&Vec::new(), 100, true), Err(AppError::Video(_))));
    assert!(matches!(
        cut_video_segments(&vec![detected(0, 100)], 100, false),
        Err(AppError::Video(_))
    ));
    let removed = vec![segment(0, 10, SegmentStatus::Removed)];
    assert!(matches!(cut_video_segments(&removed, 100, true), Err(AppError::Video(_))));
    assert_eq!(cut_video_segments(&removed, 100, false).unwrap(), vec![range(0, 100)]);
}

#[test]
fn cancelled_task_terminates_its_process() {
    for state in [
        ProcessState::Running,
        ProcessState::Exited { success: true },
        ProcessState::Exited { success: false },
        ProcessState::Unknown,
        ProcessState::Gone,
    ] {
        assert_eq!(supervise_step(true, state), SuperviseAction::KillAndCancel);
    }
}

#[test]
fn task_follows_its_process() {
    assert_eq!(supervise_step(false, ProcessState::Running), SuperviseAction::ReadOutput);
    assert_eq!(
        supervise_step(false, ProcessState::Exited { success: true }),
        SuperviseAction::Finish { success: true }
    );
    assert_eq!(
        supervise_step(false, ProcessState::Exited { success: false }),
        SuperviseAction::Finish { success: false }
    );
    assert_eq!(supervise_step(false, ProcessState::Unknown), SuperviseAction::KillAndFail);
    assert_eq!(supervise_step(false, ProcessState::Gone), SuperviseAction::Cancel);
    assert_eq!(PROCESS_POLL_INTERVAL, 100);
}

#[test]
fn failure_carries_the_start_of_the_output() {
    assert_eq!(failure_message("ffmpeg", ""), "ffmpeg failed (no details)");
    assert_eq!(failure_message("ffmpeg", "bad input"), "ffmpeg failed: bad input");
    let long: String = "é".repeat(MAX_ERROR_OUTPUT + 20);
    let expected = format!("tool failed: {}", "é".repeat(MAX_ERROR_OUTPUT));
    assert_eq!(failure_message("tool", &long), expected);
    let exact: String = "x".repeat(MAX_ERROR_OUTPUT);
    assert_eq!(failure_message("tool", &exact), format!("tool failed: {}", exact));
}

#[test]
fn outcome_of_an_exit() {
    assert!(exit_outcome(ToolKind::Separation, "audio-separator", true, "noise").is_ok());
    match exit_outcome(ToolKind::Separation, "audio-separator", false, "boom") {
        Err(AppError::VocalSeparation(m)) => assert_eq!(m, "audio-separator failed: boom"),
        _ => panic!("a failed separation"),
    }
    match exit_outcome(ToolKind::Detection, "person-detector", false, "") {
        Err(AppError::Detection(m)) => assert_eq!(m, "person-detector failed (no details)"),
        _ => panic!("a failed detection"),
    }
    match exit_outcome(ToolKind::Transcoding, "ffmpeg", false, "x") {
        Err(AppError::FFmpeg(m)) => assert_eq!(m, "ffmpeg failed: x"),
        _ => panic!("a failed transcoding"),
    }
}

#[test]
fn entries_of_the_list_of_files_to_join() {
    assert_eq!(concat_list_entry("/tmp/part_0001.mp4"), "file '/tmp/part_0001.mp4'");
    assert_eq!(concat_list_entry("C:\\tmp\\a.mp4"), "file 'C:/tmp/a.mp4'");
    assert_eq!(concat_list_entry("/tmp/it's.mp4"), "file '/tmp/it'\\''s.mp4'");
    assert_eq!(concat_list_entry(""), "file ''");
}
