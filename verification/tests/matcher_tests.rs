use musiccut::fingerprint::{Confidence, CONFIDENCE_ONE};
use musiccut::matcher::{
    best_match, match_fingerprint, reports_progress, scan_workers, scan_workers_here, LibraryEntry,
};
use musiccut::scan::classify_window;
use musiccut::window::Window;

fn entry(id: &str, title: &str, fingerprint: Vec<u8>) -> LibraryEntry {
    LibraryEntry { music_id: id.to_string(), music_title: title.to_string(), fingerprint }
}

fn tenths(n: u64) -> Confidence {
    Confidence::from_ratio(n, 10)
}

/// Ten words; the first `ones` of them are all ones, the rest all zeros.
fn words(ones: usize) -> Vec<u8> {
    let mut bytes = vec![0u8; 40];
    for b in bytes.iter_mut().take(4 * ones) {
        *b = 0xff;
    }
    bytes
}

#[test]
fn best_match_takes_the_highest_confidence() {
    let library = vec![
        entry("a", "Song A", words(3)),
        entry("b", "Song B", words(1)),
        entry("c", "Song C", words(5)),
    ];
    let found = best_match(7, &words(0), &library, tenths(6)).unwrap();
    assert_eq!(found.window_index, 7);
    assert_eq!(found.music_id, "b");
    assert_eq!(found.music_title, "Song B");
    assert_eq!(found.confidence, tenths(9));
}

#[test]
fn best_match_needs_the_minimum_confidence() {
    let library = vec![entry("a", "Song A", words(5)), entry("b", "Song B", words(6))];
    assert!(best_match(0, &words(0), &library, tenths(6)).is_none());
    let found = best_match(0, &words(0), &library, tenths(5)).unwrap();
    assert_eq!(found.music_id, "a");
    assert_eq!(found.confidence.scaled, CONFIDENCE_ONE / 2);
}

#[test]
fn best_match_of_equals_is_the_last() {
    let library = vec![
        entry("a", "Song A", words(2)),
        entry("b", "Song B", words(2)),
        entry("c", "Song C", words(4)),
    ];
    let found = best_match(0, &words(0), &library, tenths(6)).unwrap();
    assert_eq!(found.music_id, "b");
}

#[test]
fn best_match_in_an_empty_library() {
    let library: Vec<LibraryEntry> = Vec::new();
    assert!(best_match(0, &words(0), &library, Confidence::zero()).is_none());
}

#[test]
fn best_match_with_a_zero_minimum_takes_anything() {
    let library = vec![entry("a", "Song A", words(10))];
    let found = best_match(0, &words(0), &library, Confidence::zero()).unwrap();
    assert_eq!(found.music_id, "a");
    assert_eq!(found.confidence, Confidence::zero());
}

#[test]
fn window_without_fingerprint_gives_nothing() {
    let library = vec![entry("a", "Song A", words(0))];
    let window = Window { index: 3, start_time: 15_000 };
    assert!(classify_window(&window, &None, &library, tenths(6)).is_none());
    let found = classify_window(&window, &Some(words(0)), &library, tenths(6)).unwrap();
    assert_eq!(found.window_index, 3);
    assert_eq!(found.music_id, "a");
    assert_eq!(found.confidence, Confidence::one());
}

#[test]
fn file_match_lists_hits_best_first() {
    let library = vec![
        entry("a", "Song A", words(3)),
        entry("b", "Song B", words(8)),
        entry("c", "Song C", words(1)),
        entry("d", "Song D", words(3)),
        entry("e", "Song E", words(0)),
    ];
    let results = match_fingerprint(&words(0), &library, tenths(6));
    let ids: Vec<&str> = results.iter().map(|r| r.music_id.as_str()).collect();
    assert_eq!(ids, vec!["e", "c", "a", "d"]);
    let confidences: Vec<Confidence> = results.iter().map(|r| r.confidence).collect();
    assert_eq!(confidences, vec![tenths(10), tenths(9), tenths(7), tenths(7)]);
    for r in &results {
        assert_eq!(r.start_time, 0);
        assert_eq!(r.end_time, 0);
    }
    assert_eq!(results[1].music_title, "Song C");
}

#[test]
fn file_match_in_an_empty_library() {
    let library: Vec<LibraryEntry> = Vec::new();
    assert!(match_fingerprint(&words(0), &library, tenths(6)).is_empty());
}

#[test]
fn file_match_without_hits() {
    let library = vec![entry("a", "Song A", words(9))];
    assert!(match_fingerprint(&words(0), &library, tenths(6)).is_empty());
}

#[test]
fn workers_leave_two_cores() {
    assert_eq!(scan_workers(0), 1);
    assert_eq!(scan_workers(1), 1);
    assert_eq!(scan_workers(2), 1);
    assert_eq!(scan_workers(3), 1);
    assert_eq!(scan_workers(4), 2);
    assert_eq!(scan_workers(16), 14);
    assert_eq!(scan_workers(usize::MAX), usize::MAX - 2);
    assert!(scan_workers_here() >= 1);
}

#[test]
fn progress_is_reported_every_tenth_window_and_at_the_end() {
    assert!(reports_progress(10, 25));
    assert!(reports_progress(20, 25));
    assert!(reports_progress(25, 25));
    assert!(!reports_progress(9, 25));
    assert!(!reports_progress(11, 25));
    assert!(reports_progress(3, 3));
}
