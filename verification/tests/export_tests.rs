use musiccut::cut::{
    check_custom_clips, export_custom_clip, export_custom_clips_merged, CustomClipRange, TimeRange,
};
use musiccut::error::AppError;
use musiccut::export::{
    clip_file_name, collect_exports, decimal_text, segment_encoder_arguments, encoder_arguments,
    export_custom_clips_separately, export_workers, export_workers_here, format_time,
    safe_file_name, wants_faststart, ExportEvent, ExportOutcome, ExportStep,
};
use musiccut::fingerprint::Confidence;
use musiccut::matcher::scan_progress;
use musiccut::scan::{check_scan_sizes, matches_chosen_tracks};
use musiccut::utils::SegmentStatus;
use musiccut::config::MatchConfig;
use musiccut::system::{detect_gpu, gpu_from_controllers, GpuCapabilities, MEBIBYTE};
use musiccut::utils::generate_id;
use musiccut::window::{check_plan, count_windows, plan_windows};

fn clip(start_time: u64, end_time: u64) -> CustomClipRange {
    CustomClipRange { start_time, end_time }
}

#[test]
fn clip_must_end_after_it_starts() {
    assert_eq!(export_custom_clip(1_000, 2_500).unwrap(), TimeRange { start: 1_000, end: 2_500 });
    assert!(matches!(export_custom_clip(2_000, 2_000), Err(AppError::InvalidArgument(_))));
    assert!(matches!(export_custom_clip(3_000, 2_000), Err(AppError::InvalidArgument(_))));
}

#[test]
fn clips_are_checked() {
    assert!(check_custom_clips(&vec![clip(0, 1), clip(5, 9)]).is_ok());
    assert!(matches!(
        check_custom_clips(&Vec::new()),
        Err(AppError::InvalidArgument(_))
    ));
    assert!(matches!(
        check_custom_clips(&vec![clip(0, 1), clip(9, 9)]),
        Err(AppError::InvalidArgument(_))
    ));
}

#[test]
fn clips_are_ordered_and_joined() {
    let clips = vec![clip(50, 60), clip(0, 10), clip(5, 20), clip(55, 58), clip(30, 40)];
    assert_eq!(
        export_custom_clips_merged(&clips).unwrap(),
        vec![
            TimeRange { start: 0, end: 20 },
            TimeRange { start: 30, end: 40 },
            TimeRange { start: 50, end: 60 },
        ]
    );
    assert!(matches!(export_custom_clips_merged(&Vec::new()), Err(AppError::InvalidArgument(_))));
    assert!(matches!(
        export_custom_clips_merged(&vec![clip(3, 2)]),
        Err(AppError::InvalidArgument(_))
    ));
}

#[test]
fn faults_of_the_sizes() {
    let fault = |r: Result<Vec<musiccut::window::Window>, AppError>| match r {
        Err(AppError::InvalidArgument(m)) => m,
        _ => panic!("sizes that cannot be planned"),
    };
    assert_eq!(fault(plan_windows(10, 5, 0)), "hop size must be greater than zero");
    assert_eq!(fault(plan_windows(10, 0, 0)), "hop size must be greater than zero");
    assert_eq!(fault(plan_windows(10, 0, 5)), "window size must be greater than zero");
    assert_eq!(fault(plan_windows(4, 5, 5)), "the audio is shorter than one window");
    let mut config = MatchConfig::default();
    assert!(check_scan_sizes(&config).is_ok());
    config.window_size = 0;
    match check_scan_sizes(&config) {
        Err(AppError::InvalidArgument(m)) => assert_eq!(m, "window size must be greater than zero"),
        _ => panic!("a zero window"),
    }
    config.hop_size = 0;
    match check_scan_sizes(&config) {
        Err(AppError::InvalidArgument(m)) => assert_eq!(m, "hop size must be greater than zero"),
        _ => panic!("a zero hop"),
    }
}

#[test]
fn gpu_that_answered() {
    let on = GpuCapabilities { onnx_gpu_available: true };
    let info = detect_gpu(Some(("RTX 4090".to_string(), 24_564)), Some("AMD Radeon"), on);
    assert!(info.available);
    assert_eq!(info.name, "RTX 4090");
    assert_eq!(info.gpu_type, "nvidia");
    assert_eq!(info.memory, 24_564 * MEBIBYTE);
    assert!(info.onnx_gpu_available);
}

#[test]
fn gpu_that_is_named() {
    let on = GpuCapabilities { onnx_gpu_available: true };
    let info = detect_gpu(None, Some("Name\nAMD Radeon RX 580\n"), on);
    assert!(info.available);
    assert_eq!((info.name.as_str(), info.gpu_type.as_str(), info.memory), ("AMD GPU", "amd", 0));
    assert!(info.onnx_gpu_available);
    let info = detect_gpu(None, Some("Intel(R) UHD Graphics"), GpuCapabilities { onnx_gpu_available: false });
    assert_eq!((info.name.as_str(), info.gpu_type.as_str()), ("Intel GPU", "intel"));
    assert!(!info.onnx_gpu_available);
    let info = detect_gpu(None, Some("Intel and RADEON"), on);
    assert_eq!(info.gpu_type, "amd");
    // The words are looked for in the lower-case names that are handed in.
    assert_eq!(gpu_from_controllers("AMD", on).gpu_type, "none");
    assert_eq!(gpu_from_controllers("radeon", on).gpu_type, "amd");
}

#[test]
fn no_gpu() {
    let on = GpuCapabilities { onnx_gpu_available: true };
    for info in [detect_gpu(None, None, on), detect_gpu(None, Some("Microsoft Basic Display"), on)] {
        assert!(!info.available);
        assert_eq!(info.name, "None");
        assert_eq!(info.gpu_type, "none");
        assert_eq!(info.memory, 0);
        assert!(!info.onnx_gpu_available);
    }
}

#[test]
fn workers_of_an_export() {
    assert_eq!(export_workers(0), 1);
    assert_eq!(export_workers(1), 1);
    assert_eq!(export_workers(6), 6);
    assert_eq!(export_workers(8), 8);
    assert_eq!(export_workers(9), 8);
    assert_eq!(export_workers(usize::MAX), 8);
    assert!((1..=8).contains(&export_workers_here()));
}

#[test]
fn names_made_safe() {
    assert_eq!(safe_file_name("holiday"), "holiday");
    assert_eq!(safe_file_name("a/b\\c:d*e?f\"g<h>i|j"), "a_b_c_d_e_f_g_h_i_j");
    assert_eq!(safe_file_name(""), "");
    assert_eq!(safe_file_name("视频: 第一集"), "视频_ 第一集");
    let long = "x".repeat(45);
    assert_eq!(safe_file_name(&long), "x".repeat(30));
    let long = "é".repeat(31);
    assert_eq!(safe_file_name(&long), "é".repeat(30));
}

#[test]
fn numbers_in_decimal() {
    assert_eq!(decimal_text(0), "0");
    assert_eq!(decimal_text(7), "7");
    assert_eq!(decimal_text(10), "10");
    assert_eq!(decimal_text(1234567890), "1234567890");
    assert_eq!(decimal_text(u64::MAX), "18446744073709551615");
}

#[test]
fn times_in_names() {
    assert_eq!(format_time(0), "00m00s");
    assert_eq!(format_time(999), "00m00s");
    assert_eq!(format_time(65_400), "01m05s");
    assert_eq!(format_time(599_999), "09m59s");
    assert_eq!(format_time(600_000), "10m00s");
    assert_eq!(format_time(7_384_000), "123m04s");
    assert_eq!(format_time(u64::MAX), "71582788m15s");
}

#[test]
fn names_of_clips() {
    assert_eq!(
        clip_file_name("my:video", 1, 65_000, 125_500, "mp4"),
        "my_video_clip_001_01m05s_02m05s.mp4"
    );
    assert_eq!(clip_file_name("v", 42, 0, 1_000, "mkv"), "v_clip_042_00m00s_00m01s.mkv");
    assert_eq!(clip_file_name("v", 100, 0, 1_000, "mkv"), "v_clip_100_00m00s_00m01s.mkv");
    assert_eq!(clip_file_name("v", 1234, 0, 1_000, "mkv"), "v_clip_1234_00m00s_00m01s.mkv");
}

#[test]
fn export_that_went_well() {
    match collect_exports(vec![Ok("a".to_string()), Ok("b".to_string())]) {
        ExportOutcome::Done(files) => assert_eq!(files, vec!["a", "b"]),
        ExportOutcome::Failed { .. } => panic!("an export that went well"),
    }
    match collect_exports(Vec::new()) {
        ExportOutcome::Done(files) => assert!(files.is_empty()),
        ExportOutcome::Failed { .. } => panic!("an export of nothing"),
    }
}

#[test]
fn export_that_failed_hands_back_what_it_wrote() {
    let results = vec![
        Ok("a".to_string()),
        Err(AppError::Cancelled),
        Err(AppError::FFmpeg("first".to_string())),
        Ok("b".to_string()),
        Err(AppError::Video("second".to_string())),
    ];
    match collect_exports(results) {
        ExportOutcome::Failed { error, written } => {
            assert_eq!(error.message(), "FFmpeg error: first");
            assert_eq!(written, vec!["a", "b"]);
        }
        ExportOutcome::Done(_) => panic!("an export that failed"),
    }
    let results =
        vec![Err(AppError::Cancelled), Ok("a".to_string()), Err(AppError::Cancelled)];
    match collect_exports(results) {
        ExportOutcome::Failed { error, written } => {
            assert!(error.is_cancelled());
            assert_eq!(written, vec!["a"]);
        }
        ExportOutcome::Done(_) => panic!("an export that was cancelled"),
    }
}

#[test]
fn progress_beyond_the_end_is_the_end() {
    assert_eq!(scan_progress(11, 10), Confidence::one());
    assert_eq!(scan_progress(3, 0).scaled, 0);
}

#[test]
fn stored_words_of_the_status() {
    assert_eq!(SegmentStatus::Detected.as_str(), "detected");
    assert_eq!(SegmentStatus::Removed.as_str(), "removed");
    assert_eq!(SegmentStatus::from_stored("removed"), SegmentStatus::Removed);
    assert_eq!(SegmentStatus::from_stored("detected"), SegmentStatus::Detected);
    assert_eq!(SegmentStatus::from_stored("Removed"), SegmentStatus::Detected);
    assert_eq!(SegmentStatus::from_stored(""), SegmentStatus::Detected);
}

#[test]
fn empty_choice_of_tracks_means_all() {
    assert!(!matches_chosen_tracks(&None));
    assert!(!matches_chosen_tracks(&Some(Vec::new())));
    assert!(matches_chosen_tracks(&Some(vec!["a".to_string()])));
}

#[test]
fn export_is_told_its_clips() {
    let clips = vec![clip(65_000, 125_500), clip(0, 1_000)];
    match export_custom_clips_separately(&clips, "my:video", "mp4", ExportEvent::Begun).unwrap() {
        ExportStep::Export(tasks) => {
            assert_eq!(tasks.len(), 2);
            assert_eq!(tasks[0].range, TimeRange { start: 65_000, end: 125_500 });
            assert_eq!(tasks[0].file_name, "my_video_clip_001_01m05s_02m05s.mp4");
            assert_eq!(tasks[1].range, TimeRange { start: 0, end: 1_000 });
            assert_eq!(tasks[1].file_name, "my_video_clip_002_00m00s_00m01s.mp4");
        }
        ExportStep::Settled(_) => panic!("an export that has only begun"),
    }
}

#[test]
fn export_of_bad_clips_is_refused_at_every_step() {
    for clips in [Vec::new(), vec![clip(0, 1), clip(9, 9)], vec![clip(5, 4)]] {
        let begun = export_custom_clips_separately(&clips, "v", "mp4", ExportEvent::Begun);
        assert!(matches!(begun, Err(AppError::InvalidArgument(_))));
        let exported = export_custom_clips_separately(
            &clips,
            "v",
            "mp4",
            ExportEvent::Exported(vec![Ok("a".to_string())]),
        );
        assert!(matches!(exported, Err(AppError::InvalidArgument(_))));
    }
}

#[test]
fn export_of_clips_is_all_or_nothing() {
    let clips = vec![clip(0, 1), clip(2, 3), clip(4, 5)];
    let results = vec![Ok("a".to_string()), Ok("b".to_string()), Ok("c".to_string())];
    match export_custom_clips_separately(&clips, "v", "mp4", ExportEvent::Exported(results)).unwrap() {
        ExportStep::Settled(ExportOutcome::Done(files)) => assert_eq!(files, vec!["a", "b", "c"]),
        _ => panic!("an export that went well"),
    }
    let results = vec![
        Ok("a".to_string()),
        Err(AppError::Cancelled),
        Err(AppError::FFmpeg("broken".to_string())),
    ];
    match export_custom_clips_separately(&clips, "v", "mp4", ExportEvent::Exported(results)).unwrap() {
        ExportStep::Settled(ExportOutcome::Failed { error, written }) => {
            assert_eq!(error.message(), "FFmpeg error: broken");
            assert_eq!(written, vec!["a"]);
        }
        _ => panic!("an export that failed"),
    }
    let results = vec![Ok("a".to_string()), Err(AppError::Cancelled), Ok("c".to_string())];
    match export_custom_clips_separately(&clips, "v", "mp4", ExportEvent::Exported(results)).unwrap() {
        ExportStep::Settled(ExportOutcome::Failed { error, written }) => {
            assert!(error.is_cancelled());
            assert_eq!(written, vec!["a", "c"]);
        }
        _ => panic!("an export that was cancelled"),
    }
}

#[test]
fn arguments_of_the_encoder() {
    let head = vec![
        "-v", "warning", "-ss", "1.5", "-i", "/in/v.mkv", "-t", "2", "-c:v", "libx264", "-preset",
        "veryfast", "-crf", "18", "-threads", "0", "-force_key_frames", "expr:eq(n,0)", "-c:a",
        "aac", "-b:a", "192k", "-avoid_negative_ts", "make_zero",
    ];
    let mut plain = head.clone();
    plain.extend(["-y", "/out/c.mkv"]);
    assert_eq!(encoder_arguments("/in/v.mkv", "/out/c.mkv", "1.5", "2", false), plain);
    assert_eq!(segment_encoder_arguments("/in/v.mkv", "/out/c.mkv", "1.5", "2"), plain);
    let mut fast = head.clone();
    fast.extend(["-movflags", "+faststart", "-y", "/out/C.MP4"]);
    assert_eq!(encoder_arguments("/in/v.mkv", "/out/C.MP4", "1.5", "2", true), fast);
    assert_eq!(segment_encoder_arguments("/in/v.mkv", "/out/C.MP4", "1.5", "2"), fast);
}

#[test]
fn files_of_the_mp4_family_start_fast() {
    assert!(wants_faststart("/out/a.mp4"));
    assert!(wants_faststart("a.m4v"));
    assert!(wants_faststart(".mov"));
    assert!(!wants_faststart("a.mp4.mkv"));
    assert!(!wants_faststart("a.MP4"));
    assert!(!wants_faststart("mp4"));
    assert!(!wants_faststart(""));
}

#[test]
fn shape_of_an_id() {
    let id = generate_id();
    assert_eq!(id.len(), 36);
    for (i, c) in id.chars().enumerate() {
        if i == 8 || i == 13 || i == 18 || i == 23 {
            assert_eq!(c, '-');
        } else {
            assert!(c.is_ascii_digit() || ('a'..='f').contains(&c));
        }
    }
}

#[test]
fn sizes_are_checked_and_windows_counted() {
    assert!(check_plan(100_000, 15_000, 5_000).is_ok());
    assert!(check_plan(15_000, 15_000, 1).is_ok());
    assert!(matches!(check_plan(14_999, 15_000, 1), Err(AppError::InvalidArgument(_))));
    assert!(matches!(check_plan(100, 0, 1), Err(AppError::InvalidArgument(_))));
    assert!(matches!(check_plan(100, 1, 0), Err(AppError::InvalidArgument(_))));
    assert_eq!(count_windows(100_000, 15_000, 5_000), 18);
    assert_eq!(count_windows(15_000, 15_000, 5_000), 1);
    assert_eq!(count_windows(u64::MAX, 1, 1), u64::MAX);
}
