//! Classifying one window, or one whole file, against the library of
//! reference fingerprints.

use crate::fingerprint::{
    compare_fingerprints, matching_bits, scaled_ratio, total_bits, Confidence, CONFIDENCE_ONE,
};
use crate::order::{is_stable_order, stable_order, stable_order_of};
use crate::utils::MatchResult;
use vstd::prelude::*;

verus! {

/// A reference track: its id, its title and its fingerprint.
#[derive(Debug, Clone)]
pub struct LibraryEntry {
    pub music_id: String,
    pub music_title: String,
    pub fingerprint: Vec<u8>,
}

/// The classification of one window: the track that it matches and how well.
#[derive(Debug, Clone)]
pub struct WindowMatch {
    pub window_index: u64,
    pub music_id: String,
    pub music_title: String,
    pub confidence: Confidence,
}

/// What a [`WindowMatch`] holds, as plain values.
pub struct WindowMatchView {
    pub window_index: u64,
    pub music_id: Seq<char>,
    pub music_title: Seq<char>,
    pub confidence: Confidence,
}

impl View for WindowMatch {
    type V = WindowMatchView;

    open spec fn view(&self) -> WindowMatchView {
        WindowMatchView {
            window_index: self.window_index,
            music_id: self.music_id@,
            music_title: self.music_title@,
            confidence: self.confidence,
        }
    }
}

/// The views of a sequence of window matches.
pub open spec fn match_views(matches: Seq<WindowMatch>) -> Seq<WindowMatchView> {
    matches.map_values(|m: WindowMatch| m@)
}

/// Confidence with which `query` matches the fingerprint `reference`.
pub open spec fn match_confidence(query: Seq<u8>, reference: Seq<u8>) -> nat {
    scaled_ratio(matching_bits(query, reference), total_bits(query, reference))
}

/// Whether entry `k` is the best match of `query` in `library`: it reaches
/// the minimum confidence, no entry matches better, and of the entries that
/// match as well as it does it is the last.
pub open spec fn is_best_entry(
    query: Seq<u8>,
    library: Seq<LibraryEntry>,
    min_confidence: Confidence,
    k: int,
) -> bool {
    &&& 0 <= k < library.len()
    &&& match_confidence(query, library[k].fingerprint@) >= min_confidence.scaled
    &&& forall|j: int|
        0 <= j < k ==> match_confidence(query, (#[trigger] library[j]).fingerprint@)
            <= match_confidence(query, library[k].fingerprint@)
    &&& forall|j: int|
        k < j < library.len() ==> match_confidence(query, (#[trigger] library[j]).fingerprint@)
            < match_confidence(query, library[k].fingerprint@)
}

/// A window has one best match at most.
pub proof fn lemma_best_entry_is_unique(
    query: Seq<u8>,
    library: Seq<LibraryEntry>,
    min_confidence: Confidence,
    k1: int,
    k2: int,
)
    requires
        is_best_entry(query, library, min_confidence, k1),
        is_best_entry(query, library, min_confidence, k2),
    ensures
        k1 == k2,
{
    if k1 < k2 {
        assert(match_confidence(query, library[k2].fingerprint@) < match_confidence(
            query,
            library[k1].fingerprint@,
        ));
        assert(match_confidence(query, library[k1].fingerprint@) <= match_confidence(
            query,
            library[k2].fingerprint@,
        ));
    } else if k2 < k1 {
        assert(match_confidence(query, library[k1].fingerprint@) < match_confidence(
            query,
            library[k2].fingerprint@,
        ));
        assert(match_confidence(query, library[k2].fingerprint@) <= match_confidence(
            query,
            library[k1].fingerprint@,
        ));
    }
}

/// Finds the library entry that the window's fingerprint matches best.
///
/// Returns nothing where no entry reaches `min_confidence`. Otherwise the
/// match names the entry with the highest confidence; of several with that
/// confidence, the last in the library.
pub fn best_match(
    window_index: u64,
    query: &[u8],
    library: &Vec<LibraryEntry>,
    min_confidence: Confidence,
) -> (found: Option<WindowMatch>)
    ensures
        match found {
            Some(m) => exists|k: int|
                #![trigger library@[k]]
                is_best_entry(query@, library@, min_confidence, k) && m@ == (WindowMatchView {
                    window_index,
                    music_id: library@[k].music_id@,
                    music_title: library@[k].music_title@,
                    confidence: Confidence {
                        scaled: match_confidence(query@, library@[k].fingerprint@) as u64,
                    },
                }),
            None => forall|j: int|
                0 <= j < library@.len() ==> match_confidence(
                    query@,
                    (#[trigger] library@[j]).fingerprint@,
                ) < min_confidence.scaled,
        },
{
    let n: usize = library.len();
    let mut best: Option<usize> = None;
    let mut best_confidence: Confidence = Confidence::zero();
    let mut i: usize = 0;
    while i < n
        invariant
            i <= n,
            n == library@.len(),
            match best {
                Some(k) => {
                    &&& k < i
                    &&& best_confidence.scaled == match_confidence(
                        query@,
                        library@[k as int].fingerprint@,
                    )
                    &&& best_confidence.scaled >= min_confidence.scaled
                    &&& forall|j: int|
                        0 <= j < k ==> match_confidence(
                            query@,
                            (#[trigger] library@[j]).fingerprint@,
                        ) <= best_confidence.scaled
                    &&& forall|j: int|
                        k < j < i ==> match_confidence(
                            query@,
                            (#[trigger] library@[j]).fingerprint@,
                        ) < best_confidence.scaled
                },
                None => forall|j: int|
                    0 <= j < i ==> match_confidence(query@, (#[trigger] library@[j]).fingerprint@)
                        < min_confidence.scaled,
            },
        decreases n - i,
    {
        let confidence = compare_fingerprints(query, library[i].fingerprint.as_slice()).confidence();
        if confidence.at_least(&min_confidence) {
            let better = match best {
                Some(_) => confidence.at_least(&best_confidence),
                None => true,
            };
            if better {
                best = Some(i);
                best_confidence = confidence;
            }
        }
        i = i + 1;
    }
    match best {
        Some(k) => {
            let entry = &library[k];
            let found = WindowMatch {
                window_index,
                music_id: entry.music_id.clone(),
                music_title: entry.music_title.clone(),
                confidence: best_confidence,
            };
            assert(is_best_entry(query@, library@, min_confidence, k as int));
            Some(found)
        },
        None => None,
    }
}

/// Number of worker threads for a scan on a machine with this many logical
/// cores: two are left to the rest of the application, and one worker is the
/// least.
pub fn scan_workers(logical_cores: usize) -> (workers: usize)
    ensures
        workers == if logical_cores > 3 { logical_cores - 2 } else { 1 },
        workers >= 1,
{
    if logical_cores > 3 {
        logical_cores - 2
    } else {
        1
    }
}

/// `num_cpus::get`: the number of logical cores that this process may use,
/// which is at least one.
#[verifier::external_body]
pub(crate) fn logical_cores() -> (cores: usize)
    ensures
        cores >= 1,
{
    num_cpus::get()
}

/// Number of worker threads for a scan on this machine.
pub fn scan_workers_here() -> (workers: usize)
    ensures
        workers >= 1,
{
    scan_workers(logical_cores())
}

/// Whether progress is reported after the `completed`-th window of `total`:
/// after every tenth, and after the last.
pub fn reports_progress(completed: usize, total: usize) -> (report: bool)
    ensures
        report == (completed % 10 == 0 || completed == total),
{
    completed % 10 == 0 || completed == total
}

/// The positions of the first `n` library entries that `query` matches with
/// at least the minimum confidence, in the order of the library.
pub open spec fn hit_positions(
    query: Seq<u8>,
    library: Seq<LibraryEntry>,
    min_confidence: Confidence,
    n: nat,
) -> Seq<usize>
    decreases n,
{
    if n == 0 {
        Seq::empty()
    } else if match_confidence(query, library[n - 1].fingerprint@) >= min_confidence.scaled {
        hit_positions(query, library, min_confidence, (n - 1) as nat).push((n - 1) as usize)
    } else {
        hit_positions(query, library, min_confidence, (n - 1) as nat)
    }
}

/// What each hit lacks to a perfect match. Ordering by it puts the best
/// match first.
pub open spec fn hit_shortfalls(
    query: Seq<u8>,
    library: Seq<LibraryEntry>,
    hits: Seq<usize>,
) -> Seq<u64> {
    Seq::new(
        hits.len(),
        |i: int| (CONFIDENCE_ONE - match_confidence(query, library[hits[i] as int].fingerprint@)) as u64,
    )
}

/// Whether `result` reports the match of `query` with `entry`. A match of
/// a whole file has no place in time: its start and end are zero.
pub open spec fn reports_match(result: MatchResult, query: Seq<u8>, entry: LibraryEntry) -> bool {
    &&& result.music_id@ == entry.music_id@
    &&& result.music_title@ == entry.music_title@
    &&& result.confidence.scaled == match_confidence(query, entry.fingerprint@)
    &&& result.start_time == 0
    &&& result.end_time == 0
}

/// Matches a whole file against the library.
///
/// Reports every entry that the file's fingerprint matches with at least
/// `min_confidence`, the best match first; entries that match equally well
/// stay in the order of the library.
pub fn match_fingerprint(
    query: &[u8],
    library: &Vec<LibraryEntry>,
    min_confidence: Confidence,
) -> (results: Vec<MatchResult>)
    ensures
        results@.len() == hit_positions(query@, library@, min_confidence, library@.len()).len(),
        forall|i: int|
            #![trigger results@[i]]
            0 <= i < results@.len() ==> {
                let hits = hit_positions(query@, library@, min_confidence, library@.len());
                let order = stable_order(hit_shortfalls(query@, library@, hits));
                0 <= order[i] < hits.len() && hits[order[i] as int] < library@.len()
                    && reports_match(results@[i], query@, library@[hits[order[i] as int] as int])
            },
        forall|i: int, j: int|
            0 <= i < j < results@.len() ==> (#[trigger] results@[i]).confidence.scaled >= (
            #[trigger] results@[j]).confidence.scaled,
{
    let n: usize = library.len();
    let mut hits: Vec<usize> = Vec::new();
    let mut shortfalls: Vec<u64> = Vec::new();
    let mut i: usize = 0;
    while i < n
        invariant
            i <= n,
            n == library@.len(),
            hits@ == hit_positions(query@, library@, min_confidence, i as nat),
            shortfalls@ == hit_shortfalls(query@, library@, hits@),
            forall|k: int| 0 <= k < hits@.len() ==> (#[trigger] hits@[k]) < i,
        decreases n - i,
    {
        let confidence = compare_fingerprints(query, library[i].fingerprint.as_slice()).confidence();
        if confidence.at_least(&min_confidence) {
            let ghost before = hits@;
            hits.push(i);
            shortfalls.push(CONFIDENCE_ONE - confidence.scaled);
            assert(shortfalls@ =~= hit_shortfalls(query@, library@, hits@)) by {
                assert forall|k: int| 0 <= k < hits@.len() implies shortfalls@[k]
                    == hit_shortfalls(query@, library@, hits@)[k] by {
                    if k < before.len() {
                        assert(hits@[k] == before[k]);
                        assert(shortfalls@[k] == hit_shortfalls(query@, library@, before)[k]);
                    }
                }
            }
        }
        i = i + 1;
    }
    let order = stable_order_of(&shortfalls);
    let m: usize = hits.len();
    let mut results: Vec<MatchResult> = Vec::new();
    let mut j: usize = 0;
    while j < m
        invariant
            j <= m,
            m == hits@.len(),
            n == library@.len(),
            hits@ == hit_positions(query@, library@, min_confidence, n as nat),
            shortfalls@ == hit_shortfalls(query@, library@, hits@),
            forall|k: int| 0 <= k < hits@.len() ==> (#[trigger] hits@[k]) < n,
            order@ == stable_order(shortfalls@),
            is_stable_order(shortfalls@, order@, m as nat),
            results@.len() == j,
            forall|k: int|
                #![trigger results@[k]]
                0 <= k < j ==> results@[k].confidence.scaled <= CONFIDENCE_ONE && reports_match(
                    results@[k],
                    query@,
                    library@[hits@[order@[k] as int] as int],
                ),
        decreases m - j,
    {
        assert(order@[j as int] < m);
        let at: usize = hits[order[j]];
        let entry = &library[at];
        let confidence = compare_fingerprints(query, entry.fingerprint.as_slice()).confidence();
        results.push(
            MatchResult {
                music_id: entry.music_id.clone(),
                music_title: entry.music_title.clone(),
                confidence,
                start_time: 0,
                end_time: 0,
            },
        );
        j = j + 1;
    }
    assert forall|a: int, b: int| 0 <= a < b < results@.len() implies (
    #[trigger] results@[a]).confidence.scaled >= (#[trigger] results@[b]).confidence.scaled by {
        assert(reports_match(results@[a], query@, library@[hits@[order@[a] as int] as int]));
        assert(reports_match(results@[b], query@, library@[hits@[order@[b] as int] as int]));
        assert(shortfalls@[order@[a] as int] <= shortfalls@[order@[b] as int]);
    }
    results
}

/// The share of the windows that are done, as a fraction and no more than
/// one; zero for a scan without windows.
pub open spec fn progress_share(completed: nat, total: nat) -> nat {
    if completed <= total {
        scaled_ratio(completed, total)
    } else {
        scaled_ratio(total, total)
    }
}

/// The progress of a scan after `completed` of its `total` windows.
pub fn scan_progress(completed: usize, total: usize) -> (progress: Confidence)
    ensures
        progress.scaled == progress_share(completed as nat, total as nat),
        progress.scaled <= CONFIDENCE_ONE,
        total > 0 && completed >= total ==> progress.scaled == CONFIDENCE_ONE,
{
    let done: usize = if completed <= total { completed } else { total };
    let progress = Confidence::from_ratio(done as u64, total as u64);
    proof {
        if total > 0 {
            let one = CONFIDENCE_ONE as int;
            assert((done * one) / (total as int) <= one) by (nonlinear_arith)
                requires
                    done <= total,
                    total > 0,
                    one >= 0,
            ;
            if done == total {
                assert((total * one) / (total as int) == one) by (nonlinear_arith)
                    requires
                        total > 0,
                ;
            }
        }
    }
    progress
}

/// Progress never goes back: as more windows are done, whichever they are,
/// the progress reported is no less.
pub proof fn lemma_progress_is_monotonic(earlier: nat, later: nat, total: nat)
    requires
        earlier <= later,
    ensures
        progress_share(earlier, total) <= progress_share(later, total),
{
    if total > 0 {
        let one = CONFIDENCE_ONE as int;
        let a = if earlier <= total { earlier } else { total };
        let b = if later <= total { later } else { total };
        assert((a * one) / (total as int) <= (b * one) / (total as int)) by (nonlinear_arith)
            requires
                a <= b,
                total > 0,
                one >= 0,
        ;
    }
}

} // verus!
