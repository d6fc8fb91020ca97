//! The decisions of a scan around the work that the caller does on files and
//! threads: whether the scan can start, what one window contributes, and what
//! the results of all windows add up to.

use crate::config::MatchConfig;
use crate::error::AppError;
use crate::fingerprint::Confidence;
use crate::matcher::{
    best_match, is_best_entry, match_confidence, match_views, LibraryEntry, WindowMatch,
    WindowMatchView,
};
use crate::order::{is_stable_order, lemma_stable_order, stable_order, stable_order_of};
use crate::stitch::{
    in_window_order, lemma_stitched_spans_ascend, segments_hold, starts_ascend, stitch_segments,
    stitched, SegmentSpan, StitchSettings,
};
use crate::utils::Segment;
use crate::window::{
    check_plan, count_windows, plan_windows, plannable, planning_fault, window_count, Window,
};
use vstd::prelude::*;
use vstd::string::StringExecFns;

verus! {

/// The window indexes of the matches, in their order.
pub open spec fn window_keys(matches: Seq<WindowMatchView>) -> Seq<u64> {
    matches.map_values(|m: WindowMatchView| m.window_index)
}

/// The matches in the order of their windows; matches of one window keep the
/// order they came in.
pub open spec fn sort_by_window(matches: Seq<WindowMatchView>) -> Seq<WindowMatchView> {
    Seq::new(matches.len(), |i: int| matches[stable_order(window_keys(matches))[i] as int])
}

/// The matches among the results of the windows, in the order of the
/// results.
pub open spec fn present_matches(results: Seq<Option<WindowMatch>>) -> Seq<WindowMatchView>
    decreases results.len(),
{
    if results.len() == 0 {
        Seq::empty()
    } else {
        match results.last() {
            Some(m) => present_matches(results.drop_last()).push(m@),
            None => present_matches(results.drop_last()),
        }
    }
}

fn copy_match(m: &WindowMatch) -> (copy: WindowMatch)
    ensures
        copy@ == m@,
{
    WindowMatch {
        window_index: m.window_index,
        music_id: m.music_id.clone(),
        music_title: m.music_title.clone(),
        confidence: m.confidence,
    }
}

/// Gathers the matches from the results of the windows, leaving out the
/// windows that gave none.
pub fn collect_matches(results: &Vec<Option<WindowMatch>>) -> (matches: Vec<WindowMatch>)
    ensures
        match_views(matches@) == present_matches(results@),
{
    let mut matches: Vec<WindowMatch> = Vec::new();
    let n: usize = results.len();
    let mut i: usize = 0;
    assert(results@.take(0) =~= Seq::empty());
    while i < n
        invariant
            i <= n,
            n == results@.len(),
            match_views(matches@) == present_matches(results@.take(i as int)),
        decreases n - i,
    {
        let ghost before = match_views(matches@);
        proof {
            let next = results@.take(i + 1);
            assert(next.drop_last() =~= results@.take(i as int));
            assert(next.last() == results@[i as int]);
        }
        match &results[i] {
            Some(m) => {
                matches.push(copy_match(m));
                assert(match_views(matches@) =~= before.push(m@));
            },
            None => {},
        }
        i = i + 1;
    }
    assert(results@.take(n as int) =~= results@);
    matches
}

/// Sorts matches by window index. Matches of one window keep their order.
pub fn sort_matches(matches: &Vec<WindowMatch>) -> (sorted: Vec<WindowMatch>)
    ensures
        match_views(sorted@) == sort_by_window(match_views(matches@)),
        sorted@.len() == matches@.len(),
        forall|i: int, j: int|
            0 <= i < j < sorted@.len() ==> (#[trigger] sorted@[i]).window_index <= (
            #[trigger] sorted@[j]).window_index,
{
    let n: usize = matches.len();
    let ghost views = match_views(matches@);
    let mut keys: Vec<u64> = Vec::new();
    let mut i: usize = 0;
    while i < n
        invariant
            i <= n,
            n == matches@.len(),
            views == match_views(matches@),
            keys@ == window_keys(views).take(i as int),
        decreases n - i,
    {
        keys.push(matches[i].window_index);
        assert(keys@ =~= window_keys(views).take(i + 1));
        i = i + 1;
    }
    assert(keys@ =~= window_keys(views));
    let order = stable_order_of(&keys);
    let mut sorted: Vec<WindowMatch> = Vec::new();
    let mut j: usize = 0;
    while j < n
        invariant
            j <= n,
            n == matches@.len(),
            views == match_views(matches@),
            keys@ == window_keys(views),
            order@ == stable_order(keys@),
            is_stable_order(keys@, order@, n as nat),
            sorted@.len() == j,
            forall|k: int| 0 <= k < j ==> (#[trigger] sorted@[k])@ == views[order@[k] as int],
        decreases n - j,
    {
        assert(order@[j as int] < n);
        sorted.push(copy_match(&matches[order[j]]));
        j = j + 1;
    }
    assert(match_views(sorted@) =~= sort_by_window(views));
    assert forall|a: int, b: int| 0 <= a < b < sorted@.len() implies (#[trigger] sorted@[a]).window_index
        <= (#[trigger] sorted@[b]).window_index by {
        assert(sorted@[a]@ == views[order@[a] as int]);
        assert(sorted@[b]@ == views[order@[b] as int]);
        assert(keys@[order@[a] as int] == views[order@[a] as int].window_index);
        assert(keys@[order@[b] as int] == views[order@[b] as int].window_index);
    }
    sorted
}

/// Whether a scan is matched against chosen tracks only: it is where tracks
/// are named. A request that names none, or gives an empty list, is matched
/// against the whole library.
pub fn matches_chosen_tracks(music_ids: &Option<Vec<String>>) -> (chosen: bool)
    ensures
        chosen == (music_ids matches Some(ids) && ids@.len() > 0),
{
    match music_ids {
        Some(ids) => ids.len() > 0,
        None => false,
    }
}

/// Checks the sizes of a scan before anything is known of the audio. Fails
/// with `InvalidArgument` where the window or the hop is zero.
pub fn check_scan_sizes(config: &MatchConfig) -> (checked: Result<(), AppError>)
    ensures
        config.window_size > 0 && config.hop_size > 0 ==> checked is Ok,
        !(config.window_size > 0 && config.hop_size > 0) ==> (checked matches Err(
            AppError::InvalidArgument(message),
        ) && message@ == planning_fault(0, config.window_size as int, config.hop_size as int)),
{
    if config.hop_size == 0 {
        return Err(AppError::InvalidArgument(String::from_str("hop size must be greater than zero")));
    }
    if config.window_size == 0 {
        return Err(
            AppError::InvalidArgument(String::from_str("window size must be greater than zero")),
        );
    }
    Ok(())
}

/// Plans the scan of a request, or says why it cannot start.
///
/// Fails with `InvalidArgument` and the [`planning_fault`] where the window
/// or the hop is zero or the audio is shorter than one window, and with
/// `NotFound` where the library is empty; bad sizes are reported before an
/// empty library. Otherwise the scan
/// has the windows that [`plan_windows`] lists.
pub fn plan_scan(config: &MatchConfig, total_duration: u64, library_size: usize) -> (plan: Result<
    Vec<Window>,
    AppError,
>)
    ensures
        !plannable(total_duration as int, config.window_size as int, config.hop_size as int) ==> (
        plan matches Err(AppError::InvalidArgument(message)) && message@ == planning_fault(
            total_duration as int,
            config.window_size as int,
            config.hop_size as int,
        )),
        plannable(total_duration as int, config.window_size as int, config.hop_size as int)
            && library_size == 0 ==> (plan matches Err(AppError::NotFound(message)) && message@
            == "the music library is empty"@),
        plannable(total_duration as int, config.window_size as int, config.hop_size as int)
            && library_size > 0 ==> plan is Ok && plan->Ok_0@.len() == window_count(
            total_duration as int,
            config.window_size as int,
            config.hop_size as int,
        ) && forall|i: int|
            0 <= i < plan->Ok_0@.len() ==> (#[trigger] plan->Ok_0@[i]).index == i
                && plan->Ok_0@[i].start_time == i * config.hop_size,
{
    let windows = plan_windows(total_duration, config.window_size, config.hop_size)?;
    if library_size == 0 {
        return Err(AppError::NotFound(String::from_str("the music library is empty")));
    }
    Ok(windows)
}

/// What one window contributes to the scan.
///
/// A window whose fingerprint could not be extracted contributes nothing.
/// Otherwise it contributes its best match in the library, if one reaches
/// `min_confidence`.
pub fn classify_window(
    window: &Window,
    extracted: &Option<Vec<u8>>,
    library: &Vec<LibraryEntry>,
    min_confidence: Confidence,
) -> (found: Option<WindowMatch>)
    ensures
        extracted is None ==> found is None,
        extracted matches Some(query) ==> (match found {
            Some(m) => exists|k: int|
                #![trigger library@[k]]
                is_best_entry(query@, library@, min_confidence, k) && m@ == (WindowMatchView {
                    window_index: window.index,
                    music_id: library@[k].music_id@,
                    music_title: library@[k].music_title@,
                    confidence: Confidence {
                        scaled: match_confidence(query@, library@[k].fingerprint@) as u64,
                    },
                }),
            None => forall|j: int|
                0 <= j < library@.len() ==> match_confidence(
                    query@,
                    (#[trigger] library@[j]).fingerprint@,
                ) < min_confidence.scaled,
        }),
{
    match extracted {
        Some(query) => best_match(window.index, query.as_slice(), library, min_confidence),
        None => None,
    }
}

/// The matches whose window is one of the first `count`, in their order.
pub open spec fn planned_matches(matches: Seq<WindowMatchView>, count: int) -> Seq<WindowMatchView>
    decreases matches.len(),
{
    if matches.len() == 0 {
        Seq::empty()
    } else if matches.last().window_index < count {
        planned_matches(matches.drop_last(), count).push(matches.last())
    } else {
        planned_matches(matches.drop_last(), count)
    }
}

/// Leaves out the matches of windows that the plan does not have.
pub fn keep_planned(matches: &Vec<WindowMatch>, count: u64) -> (kept: Vec<WindowMatch>)
    ensures
        match_views(kept@) == planned_matches(match_views(matches@), count as int),
{
    let ghost views = match_views(matches@);
    let mut kept: Vec<WindowMatch> = Vec::new();
    let n: usize = matches.len();
    let mut i: usize = 0;
    assert(views.take(0) =~= Seq::empty());
    while i < n
        invariant
            i <= n,
            n == matches@.len(),
            views == match_views(matches@),
            match_views(kept@) == planned_matches(views.take(i as int), count as int),
        decreases n - i,
    {
        let ghost before = match_views(kept@);
        proof {
            let next = views.take(i + 1);
            assert(next.drop_last() =~= views.take(i as int));
            assert(next.last() == matches@[i as int]@);
        }
        if matches[i].window_index < count {
            kept.push(copy_match(&matches[i]));
            assert(match_views(kept@) =~= before.push(matches@[i as int]@));
        }
        i = i + 1;
    }
    assert(views.take(n as int) =~= views);
    kept
}

/// What the caller reports to a scan.
#[derive(Debug)]
pub enum ScanEvent {
    /// The length of the audio and the size of the library are known, and
    /// no window is scanned yet.
    Begun,
    /// The windows were scanned: whether the task was cancelled meanwhile,
    /// and what the windows gave, in whatever order they finished.
    Scanned { cancelled: bool, results: Vec<Option<WindowMatch>> },
}

/// What the caller does next for a scan.
#[derive(Debug)]
pub enum ScanStep {
    /// Scan these windows, each once, and report what they gave.
    Scan(Vec<Window>),
    /// Store these segments in place of those that the project had.
    Store(Vec<Segment>),
}

/// The segments that the results of a scan give: the matches of the windows
/// of the plan, in the order of their windows, stitched.
pub open spec fn scan_spans(
    results: Seq<Option<WindowMatch>>,
    settings: StitchSettings,
) -> Seq<SegmentSpan> {
    stitched(
        sort_by_window(
            planned_matches(
                present_matches(results),
                window_count(
                    settings.total_duration as int,
                    settings.window_size as int,
                    settings.hop_size as int,
                ),
            ),
        ),
        settings,
    )
}

/// Decides each step of matching the audio of a project against the
/// library.
///
/// Whatever is reported, a scan whose window or hop is zero, or whose audio
/// is shorter than one window, fails with `InvalidArgument` and the
/// [`planning_fault`], and a scan against an empty library fails with
/// `NotFound`; nothing is scanned or stored then.
///
/// A scan that has begun is told its windows: window `i` starts at
/// `i * hop_size`, for every `i` whose window ends within the audio, and
/// there are no others.
///
/// A scan whose windows were scanned fails with `Cancelled` if the task was
/// cancelled at any point, whatever the windows found. Otherwise its
/// segments are stitched from the matches in the order of their windows. A
/// match that names a window outside the plan is left out.
pub fn match_video_segments(
    project_id: &str,
    settings: &StitchSettings,
    library_size: usize,
    event: ScanEvent,
) -> (step: Result<ScanStep, AppError>)
    ensures
        !plannable(
            settings.total_duration as int,
            settings.window_size as int,
            settings.hop_size as int,
        ) ==> (step matches Err(AppError::InvalidArgument(message)) && message@ == planning_fault(
            settings.total_duration as int,
            settings.window_size as int,
            settings.hop_size as int,
        )),
        plannable(
            settings.total_duration as int,
            settings.window_size as int,
            settings.hop_size as int,
        ) && library_size == 0 ==> (step matches Err(AppError::NotFound(message)) && message@
            == "the music library is empty"@),
        plannable(
            settings.total_duration as int,
            settings.window_size as int,
            settings.hop_size as int,
        ) && library_size > 0 ==> (match event {
            ScanEvent::Begun => step matches Ok(ScanStep::Scan(windows)) && windows@.len()
                == window_count(
                settings.total_duration as int,
                settings.window_size as int,
                settings.hop_size as int,
            ) && forall|i: int|
                0 <= i < windows@.len() ==> (#[trigger] windows@[i]).index == i
                    && windows@[i].start_time == i * settings.hop_size,
            ScanEvent::Scanned { cancelled, results } => if cancelled {
                step matches Err(AppError::Cancelled)
            } else {
                step matches Ok(ScanStep::Store(segments)) && segments_hold(
                    segments@,
                    project_id@,
                    scan_spans(results@, *settings),
                )
            },
        }),
{
    check_plan(settings.total_duration, settings.window_size, settings.hop_size)?;
    if library_size == 0 {
        return Err(AppError::NotFound(String::from_str("the music library is empty")));
    }
    match event {
        ScanEvent::Begun => {
            let windows = plan_windows(
                settings.total_duration,
                settings.window_size,
                settings.hop_size,
            )?;
            Ok(ScanStep::Scan(windows))
        },
        ScanEvent::Scanned { cancelled, results } => {
            if cancelled {
                return Err(AppError::Cancelled);
            }
            let count = count_windows(
                settings.total_duration,
                settings.window_size,
                settings.hop_size,
            );
            let matches = collect_matches(&results);
            let planned = keep_planned(&matches, count);
            let sorted = sort_matches(&planned);
            Ok(ScanStep::Store(stitch_segments(project_id, &sorted, settings)))
        },
    }
}

/// Sorting puts the matches in the order of their windows.
pub proof fn lemma_sorted_matches_are_in_window_order(matches: Seq<WindowMatchView>)
    requires
        matches.len() <= usize::MAX,
    ensures
        sort_by_window(matches).len() == matches.len(),
        in_window_order(sort_by_window(matches)),
{
    let keys = window_keys(matches);
    lemma_stable_order(keys);
    let order = stable_order(keys);
    let sorted = sort_by_window(matches);
    assert forall|i: int, j: int| 0 <= i < j < sorted.len() implies (
    #[trigger] sorted[i]).window_index <= (#[trigger] sorted[j]).window_index by {
        assert(order[i] < keys.len() && order[j] < keys.len());
        assert(keys[order[i] as int] == matches[order[i] as int].window_index);
        assert(keys[order[j] as int] == matches[order[j] as int].window_index);
    }
}

/// What is left of the matches when those outside the plan are left out
/// is no longer than what there was.
pub proof fn lemma_planned_matches_are_no_more(matches: Seq<WindowMatchView>, count: int)
    ensures
        planned_matches(matches, count).len() <= matches.len(),
        forall|i: int|
            0 <= i < planned_matches(matches, count).len() ==> (#[trigger] planned_matches(
                matches,
                count,
            )[i]).window_index < count,
    decreases matches.len(),
{
    if matches.len() > 0 {
        lemma_planned_matches_are_no_more(matches.drop_last(), count);
    }
}

/// Whatever the order in which the windows of a scan finish, its segments
/// come out in the order of their start, and each is stitched from windows
/// of the plan.
pub proof fn lemma_scan_segments_ascend(
    results: Seq<Option<WindowMatch>>,
    settings: StitchSettings,
)
    requires
        present_matches(results).len() <= usize::MAX,
    ensures
        starts_ascend(scan_spans(results, settings)),
{
    let count = window_count(
        settings.total_duration as int,
        settings.window_size as int,
        settings.hop_size as int,
    );
    lemma_planned_matches_are_no_more(present_matches(results), count);
    lemma_sorted_matches_are_in_window_order(planned_matches(present_matches(results), count));
    lemma_stitched_spans_ascend(
        sort_by_window(planned_matches(present_matches(results), count)),
        settings,
    );
}

} // verus!
