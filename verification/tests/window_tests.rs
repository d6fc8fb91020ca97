use musiccut::config::MatchConfig;
use musiccut::error::AppError;
use musiccut::scan::plan_scan;
use musiccut::window::{plan_windows, Window};

#[test]
fn windows_of_a_hundred_seconds() {
    let plan = plan_windows(100_000, 15_000, 5_000).unwrap();
    assert_eq!(plan.len(), 18);
    assert_eq!(plan[0], Window { index: 0, start_time: 0 });
    assert_eq!(plan[17], Window { index: 17, start_time: 85_000 });
    for (i, window) in plan.iter().enumerate() {
        assert_eq!(window.index, i as u64);
        assert_eq!(window.start_time, i as u64 * 5_000);
        assert!(window.start_time + 15_000 <= 100_000);
    }
}

#[test]
fn planning_rejects_a_zero_hop() {
    assert!(matches!(plan_windows(100_000, 15_000, 0), Err(AppError::InvalidArgument(_))));
}

#[test]
fn planning_rejects_a_zero_window() {
    assert!(matches!(plan_windows(100_000, 0, 5_000), Err(AppError::InvalidArgument(_))));
}

#[test]
fn planning_rejects_audio_shorter_than_a_window() {
    assert!(matches!(plan_windows(14_999, 15_000, 5_000), Err(AppError::InvalidArgument(_))));
    assert!(matches!(plan_windows(0, 15_000, 5_000), Err(AppError::InvalidArgument(_))));
}

#[test]
fn audio_of_one_window_has_one_window() {
    let plan = plan_windows(15_000, 15_000, 5_000).unwrap();
    assert_eq!(plan, vec![Window { index: 0, start_time: 0 }]);
}

#[test]
fn last_window_ends_within_the_audio() {
    // 15 s + 2 * 5 s = 25 s fits in 29.999 s, a fourth window would not.
    let plan = plan_windows(29_999, 15_000, 5_000).unwrap();
    assert_eq!(plan.len(), 3);
    assert_eq!(plan[2].start_time, 10_000);
    let plan = plan_windows(30_000, 15_000, 5_000).unwrap();
    assert_eq!(plan.len(), 4);
    assert_eq!(plan[3].start_time, 15_000);
}

#[test]
fn hop_longer_than_window_leaves_gaps() {
    let plan = plan_windows(100, 10, 40).unwrap();
    let starts: Vec<u64> = plan.iter().map(|w| w.start_time).collect();
    assert_eq!(starts, vec![0, 40, 80]);
}

#[test]
fn planning_at_the_top_of_the_range() {
    let plan = plan_windows(u64::MAX, u64::MAX, 1).unwrap();
    assert_eq!(plan.len(), 1);
    let plan = plan_windows(u64::MAX, 1, u64::MAX).unwrap();
    assert_eq!(plan.len(), 1);
    let plan = plan_windows(u64::MAX, 1, u64::MAX / 2).unwrap();
    let starts: Vec<u64> = plan.iter().map(|w| w.start_time).collect();
    assert_eq!(starts, vec![0, u64::MAX / 2, u64::MAX - 1]);
}

#[test]
fn scan_needs_a_library() {
    let config = MatchConfig::default();
    assert!(matches!(plan_scan(&config, 60_000, 0), Err(AppError::NotFound(_))));
    let plan = plan_scan(&config, 60_000, 3).unwrap();
    assert_eq!(plan.len(), 10);
    assert_eq!(plan[9].start_time, 45_000);
}

#[test]
fn scan_reports_bad_sizes_before_an_empty_library() {
    let mut config = MatchConfig::default();
    assert!(matches!(plan_scan(&config, 1_000, 0), Err(AppError::InvalidArgument(_))));
    config.hop_size = 0;
    assert!(matches!(plan_scan(&config, 60_000, 0), Err(AppError::InvalidArgument(_))));
    assert!(matches!(plan_scan(&config, 60_000, 3), Err(AppError::InvalidArgument(_))));
    config.hop_size = 5_000;
    config.window_size = 0;
    assert!(matches!(plan_scan(&config, 60_000, 3), Err(AppError::InvalidArgument(_))));
}
