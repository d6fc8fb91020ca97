//! Stitching per-window matches into continuous segments.
//!
//! The matches of a scan are folded, in the order given, into runs of windows
//! that name the same track and lie close enough together. A run that is long
//! enough becomes a segment. Times are whole milliseconds.

use crate::fingerprint::Confidence;
use crate::matcher::{match_views, WindowMatch, WindowMatchView};
use crate::utils::{generate_id, is_uuid_text, Segment, SegmentStatus};
use vstd::prelude::*;
use vstd::string::StringExecFns;

verus! {

/// The sizes that govern stitching.
#[derive(Clone, Copy, Debug)]
pub struct StitchSettings {
    /// Length of a window.
    pub window_size: u64,
    /// Time between the starts of consecutive windows.
    pub hop_size: u64,
    /// Shortest segment that is kept.
    pub min_segment_duration: u64,
    /// Longest gap between two matches of one track that a segment bridges.
    pub max_gap_duration: u64,
    /// Length of the audio; no segment ends after it.
    pub total_duration: u64,
}

/// A run of matches of one track that is still growing.
pub struct OpenRun {
    pub music_id: Seq<char>,
    pub music_title: Seq<char>,
    pub first_index: u64,
    pub last_index: u64,
    pub confidence: Confidence,
}

/// The part of a segment that stitching decides.
pub struct SegmentSpan {
    pub music_id: Seq<char>,
    pub music_title: Seq<char>,
    pub start_time: int,
    pub end_time: int,
    pub confidence: Confidence,
}

/// Where a fold over the matches stands: the segments closed so far, in the
/// order in which they were closed, and the run that is open.
pub struct StitchState {
    pub closed: Seq<SegmentSpan>,
    pub open: Option<OpenRun>,
}

/// Time at which the window with this index starts.
pub open spec fn window_start(index: u64, settings: StitchSettings) -> int {
    index * settings.hop_size
}

/// Time at which the window with this index ends.
pub open spec fn window_end(index: u64, settings: StitchSettings) -> int {
    index * settings.hop_size + settings.window_size
}

/// Time between the end of the run's last window and the start of the
/// match's window; negative where the two windows overlap.
pub open spec fn gap_after(run: OpenRun, m: WindowMatchView, settings: StitchSettings) -> int {
    window_start(m.window_index, settings) - window_end(run.last_index, settings)
}

/// Whether the match goes on with the run: it names the same track, and the
/// gap is within the tolerance.
pub open spec fn continues_run(run: OpenRun, m: WindowMatchView, settings: StitchSettings) -> bool {
    m.music_id == run.music_id && gap_after(run, m, settings) <= settings.max_gap_duration
}

/// The run that starts with the match.
pub open spec fn open_run(m: WindowMatchView) -> OpenRun {
    OpenRun {
        music_id: m.music_id,
        music_title: m.music_title,
        first_index: m.window_index,
        last_index: m.window_index,
        confidence: m.confidence,
    }
}

/// The run with the match added: it now ends with the match's window, and
/// its confidence is the higher of the two.
pub open spec fn extend_run(run: OpenRun, m: WindowMatchView) -> OpenRun {
    OpenRun {
        music_id: run.music_id,
        music_title: run.music_title,
        first_index: run.first_index,
        last_index: m.window_index,
        confidence: if run.confidence.scaled >= m.confidence.scaled {
            run.confidence
        } else {
            m.confidence
        },
    }
}

/// Time at which the run starts.
pub open spec fn run_start(run: OpenRun, settings: StitchSettings) -> int {
    window_start(run.first_index, settings)
}

/// Time at which the run ends: the end of its last window, or the end of the
/// audio if that comes first.
pub open spec fn run_end(run: OpenRun, settings: StitchSettings) -> int {
    if window_end(run.last_index, settings) <= settings.total_duration {
        window_end(run.last_index, settings)
    } else {
        settings.total_duration as int
    }
}

/// Whether the run is long enough to become a segment.
pub open spec fn run_survives(run: OpenRun, settings: StitchSettings) -> bool {
    run_end(run, settings) - run_start(run, settings) >= settings.min_segment_duration
}

/// What closing the run gives: its segment if it is long enough, else
/// nothing.
pub open spec fn close_run(run: OpenRun, settings: StitchSettings) -> Seq<SegmentSpan> {
    if run_survives(run, settings) {
        seq![
            SegmentSpan {
                music_id: run.music_id,
                music_title: run.music_title,
                start_time: run_start(run, settings),
                end_time: run_end(run, settings),
                confidence: run.confidence,
            },
        ]
    } else {
        Seq::empty()
    }
}

/// What closing the open run, if there is one, gives.
pub open spec fn close_open(open: Option<OpenRun>, settings: StitchSettings) -> Seq<SegmentSpan> {
    match open {
        Some(run) => close_run(run, settings),
        None => Seq::empty(),
    }
}

/// The state before any match.
pub open spec fn initial_state() -> StitchState {
    StitchState { closed: Seq::empty(), open: None }
}

/// The state after one more match. With no run open, the match opens one.
/// A match that goes on with the open run extends it. Any other match closes
/// the open run and opens a new one.
pub open spec fn stitch_step(
    state: StitchState,
    m: WindowMatchView,
    settings: StitchSettings,
) -> StitchState {
    match state.open {
        None => StitchState { closed: state.closed, open: Some(open_run(m)) },
        Some(run) => if continues_run(run, m, settings) {
            StitchState { closed: state.closed, open: Some(extend_run(run, m)) }
        } else {
            StitchState {
                closed: state.closed + close_run(run, settings),
                open: Some(open_run(m)),
            }
        },
    }
}

/// The state after the first `n` matches.
pub open spec fn stitch_fold(
    matches: Seq<WindowMatchView>,
    n: nat,
    settings: StitchSettings,
) -> StitchState
    decreases n,
{
    if n == 0 {
        initial_state()
    } else {
        stitch_step(stitch_fold(matches, (n - 1) as nat, settings), matches[n - 1], settings)
    }
}

/// The segments that the matches stitch into: those closed while folding,
/// then what the run left open at the end gives.
pub open spec fn stitched(matches: Seq<WindowMatchView>, settings: StitchSettings) -> Seq<
    SegmentSpan,
> {
    let state = stitch_fold(matches, matches.len(), settings);
    state.closed + close_open(state.open, settings)
}

/// Whether `segment` is the detected segment of the project that stitching
/// decided as `span`, under an id of its own.
pub open spec fn segment_holds(segment: Segment, project_id: Seq<char>, span: SegmentSpan) -> bool {
    &&& is_uuid_text(segment.id@)
    &&& segment.project_id@ == project_id
    &&& segment.music_id matches Some(id) && id@ == span.music_id
    &&& segment.music_title matches Some(title) && title@ == span.music_title
    &&& segment.start_time == span.start_time
    &&& segment.end_time == span.end_time
    &&& segment.confidence == span.confidence
    &&& segment.status == SegmentStatus::Detected
}

/// Whether `segments` are, one for one and in order, the detected segments
/// of the project that stitching decided as `spans`.
pub open spec fn segments_hold(
    segments: Seq<Segment>,
    project_id: Seq<char>,
    spans: Seq<SegmentSpan>,
) -> bool {
    &&& segments.len() == spans.len()
    &&& forall|i: int|
        0 <= i < segments.len() ==> segment_holds(#[trigger] segments[i], project_id, spans[i])
}

/// The run that the scan has open.
struct OpenSegment {
    music_id: String,
    music_title: String,
    first_index: u64,
    last_index: u64,
    confidence: Confidence,
}

impl View for OpenSegment {
    type V = OpenRun;

    closed spec fn view(&self) -> OpenRun {
        OpenRun {
            music_id: self.music_id@,
            music_title: self.music_title@,
            first_index: self.first_index,
            last_index: self.last_index,
            confidence: self.confidence,
        }
    }
}

spec fn open_view(open: Option<OpenSegment>) -> Option<OpenRun> {
    match open {
        Some(run) => Some(run@),
        None => None,
    }
}

/// The product of a window index and the hop size, which fits in 128 bits
/// with room for a window and a gap on top.
fn scaled_index(index: u64, hop_size: u64) -> (t: u128)
    ensures
        t == index * hop_size,
        t + 2 * u64::MAX <= u128::MAX,
{
    assert(index * hop_size <= u64::MAX * u64::MAX) by (nonlinear_arith)
        requires
            index <= u64::MAX,
            hop_size <= u64::MAX,
    ;
    (index as u128) * (hop_size as u128)
}

fn starts_run(m: &WindowMatch) -> (run: OpenSegment)
    ensures
        run@ == open_run(m@),
{
    OpenSegment {
        music_id: m.music_id.clone(),
        music_title: m.music_title.clone(),
        first_index: m.window_index,
        last_index: m.window_index,
        confidence: m.confidence,
    }
}

fn goes_on(run: &OpenSegment, m: &WindowMatch, settings: &StitchSettings) -> (yes: bool)
    ensures
        yes == continues_run(run@, m@, *settings),
{
    if run.music_id != m.music_id {
        return false;
    }
    let start: u128 = scaled_index(m.window_index, settings.hop_size);
    let last_end: u128 = scaled_index(run.last_index, settings.hop_size) + settings.window_size as u128;
    start <= last_end + settings.max_gap_duration as u128
}

/// Closes the run: appends its segment to `segments` if it is long enough.
fn close_segment(
    project_id: &str,
    run: OpenSegment,
    settings: &StitchSettings,
    segments: &mut Vec<Segment>,
    Ghost(spans): Ghost<Seq<SegmentSpan>>,
)
    requires
        segments_hold(old(segments)@, project_id@, spans),
    ensures
        segments_hold(final(segments)@, project_id@, spans + close_run(run@, *settings)),
{
    let start: u128 = scaled_index(run.first_index, settings.hop_size);
    let full_end: u128 = scaled_index(run.last_index, settings.hop_size) + settings.window_size as u128;
    let end: u64 = if full_end <= settings.total_duration as u128 {
        full_end as u64
    } else {
        settings.total_duration
    };
    if start <= end as u128 && end as u128 - start >= settings.min_segment_duration as u128 {
        let ghost span = close_run(run@, *settings)[0];
        let segment = Segment {
            id: generate_id(),
            project_id: String::from_str(project_id),
            music_id: Some(run.music_id),
            music_title: Some(run.music_title),
            start_time: start as u64,
            end_time: end,
            confidence: run.confidence,
            status: SegmentStatus::Detected,
        };
        assert(segment_holds(segment, project_id@, span));
        segments.push(segment);
        assert(spans + close_run(run@, *settings) =~= spans.push(span));
    } else {
        assert(spans + close_run(run@, *settings) =~= spans);
    }
}

/// Stitches the matches of a scan into the segments of a project.
///
/// The matches are taken in the order given, which for a scan is the order
/// of their windows. Consecutive matches of one track whose gap is at most
/// `max_gap_duration` (overlapping windows count) form one segment, from the
/// start of the first window to the end of the last, cut at the end of the
/// audio, with the highest confidence among them. A match of another track,
/// or one too far from the last, ends the segment. Segments shorter than
/// `min_segment_duration` are dropped. Each segment gets a fresh id.
pub fn stitch_segments(
    project_id: &str,
    matches: &Vec<WindowMatch>,
    settings: &StitchSettings,
) -> (segments: Vec<Segment>)
    ensures
        segments_hold(segments@, project_id@, stitched(match_views(matches@), *settings)),
{
    let ghost views = match_views(matches@);
    let mut segments: Vec<Segment> = Vec::new();
    let mut open: Option<OpenSegment> = None;
    let n: usize = matches.len();
    let mut i: usize = 0;
    while i < n
        invariant
            i <= n,
            n == matches@.len(),
            views == match_views(matches@),
            segments_hold(segments@, project_id@, stitch_fold(views, i as nat, *settings).closed),
            open_view(open) == stitch_fold(views, i as nat, *settings).open,
        decreases n - i,
    {
        let m = &matches[i];
        let ghost before = stitch_fold(views, i as nat, *settings);
        assert(views[i as int] == m@);
        open = match open {
            None => Some(starts_run(m)),
            Some(run) => {
                if goes_on(&run, m, settings) {
                    let confidence = run.confidence.max(m.confidence);
                    Some(
                        OpenSegment {
                            music_id: run.music_id,
                            music_title: run.music_title,
                            first_index: run.first_index,
                            last_index: m.window_index,
                            confidence,
                        },
                    )
                } else {
                    close_segment(project_id, run, settings, &mut segments, Ghost(before.closed));
                    Some(starts_run(m))
                }
            },
        };
        i = i + 1;
    }
    let ghost state = stitch_fold(views, n as nat, *settings);
    match open {
        Some(run) => {
            close_segment(project_id, run, settings, &mut segments, Ghost(state.closed));
        },
        None => {
            assert(state.closed + close_open(state.open, *settings) =~= state.closed);
        },
    }
    segments
}

/// A single match whose window is shorter than the shortest segment kept
/// gives no segment.
pub proof fn lemma_short_single_window(m: WindowMatchView, settings: StitchSettings)
    requires
        settings.window_size < settings.min_segment_duration,
    ensures
        stitched(seq![m], settings).len() == 0,
{
    let matches = seq![m];
    assert(stitch_fold(matches, 0, settings) == initial_state());
    assert(stitch_fold(matches, 1, settings) == stitch_step(initial_state(), matches[0], settings));
}

/// A match of another track closes the open run, however small the gap:
/// what the run gives is appended to the closed segments, and the match
/// opens a run of its own.
pub proof fn lemma_other_track_closes_run(
    state: StitchState,
    m: WindowMatchView,
    settings: StitchSettings,
)
    requires
        state.open matches Some(run) && run.music_id != m.music_id,
    ensures
        stitch_step(state, m, settings).closed == state.closed + close_run(
            state.open->Some_0,
            settings,
        ),
        stitch_step(state, m, settings).open == Some(open_run(m)),
{
}

/// Two matches of one track with a match of another track between them
/// never share a segment: each of the three matches is closed on its own.
pub proof fn lemma_interleaved_track_splits(
    a: WindowMatchView,
    b: WindowMatchView,
    c: WindowMatchView,
    settings: StitchSettings,
)
    requires
        a.music_id != b.music_id,
        b.music_id != c.music_id,
    ensures
        stitched(seq![a, b, c], settings) == close_run(open_run(a), settings) + close_run(
            open_run(b),
            settings,
        ) + close_run(open_run(c), settings),
{
    let matches = seq![a, b, c];
    assert(stitch_fold(matches, 0, settings) == initial_state());
    assert(stitch_fold(matches, 1, settings) == stitch_step(initial_state(), a, settings));
    assert(stitch_fold(matches, 2, settings) == stitch_step(
        stitch_fold(matches, 1, settings),
        b,
        settings,
    ));
    assert(stitch_fold(matches, 3, settings) == stitch_step(
        stitch_fold(matches, 2, settings),
        c,
        settings,
    ));
    assert(Seq::<SegmentSpan>::empty() + close_run(open_run(a), settings) =~= close_run(
        open_run(a),
        settings,
    ));
}

/// No matches give no segments.
pub proof fn lemma_no_matches_no_segments(settings: StitchSettings)
    ensures
        stitched(Seq::empty(), settings).len() == 0,
{
}

/// Whether a span is one that stitching can give: it lies inside the audio
/// and is at least as long as the shortest segment kept.
pub open spec fn is_kept_span(span: SegmentSpan, settings: StitchSettings) -> bool {
    &&& 0 <= span.start_time <= span.end_time <= settings.total_duration
    &&& span.end_time - span.start_time >= settings.min_segment_duration
}

/// Every segment closed while folding lies inside the audio and is long
/// enough.
pub proof fn lemma_closed_spans_are_kept_spans(
    matches: Seq<WindowMatchView>,
    n: nat,
    settings: StitchSettings,
)
    ensures
        forall|k: int|
            0 <= k < stitch_fold(matches, n, settings).closed.len() ==> is_kept_span(
                #[trigger] stitch_fold(matches, n, settings).closed[k],
                settings,
            ),
    decreases n,
{
    if n > 0 {
        lemma_closed_spans_are_kept_spans(matches, (n - 1) as nat, settings);
        let before = stitch_fold(matches, (n - 1) as nat, settings);
        let after = stitch_fold(matches, n, settings);
        assert(after == stitch_step(before, matches[n - 1], settings));
        assert forall|k: int| 0 <= k < after.closed.len() implies is_kept_span(
            #[trigger] after.closed[k],
            settings,
        ) by {
            if k < before.closed.len() {
                assert(after.closed[k] == before.closed[k]);
            }
        }
    }
}

/// Every stitched segment lies inside the audio and is at least as long as
/// the shortest segment kept.
pub proof fn lemma_stitched_spans_are_kept_spans(
    matches: Seq<WindowMatchView>,
    settings: StitchSettings,
)
    ensures
        forall|k: int|
            0 <= k < stitched(matches, settings).len() ==> is_kept_span(
                #[trigger] stitched(matches, settings)[k],
                settings,
            ),
{
    lemma_closed_spans_are_kept_spans(matches, matches.len(), settings);
    let state = stitch_fold(matches, matches.len(), settings);
    assert forall|k: int| 0 <= k < stitched(matches, settings).len() implies is_kept_span(
        #[trigger] stitched(matches, settings)[k],
        settings,
    ) by {
        if k < state.closed.len() {
            assert(stitched(matches, settings)[k] == state.closed[k]);
        }
    }
}

/// Whether the matches stand in the order of their windows.
pub open spec fn in_window_order(matches: Seq<WindowMatchView>) -> bool {
    forall|i: int, j: int|
        0 <= i < j < matches.len() ==> (#[trigger] matches[i]).window_index <= (
        #[trigger] matches[j]).window_index
}

/// Whether no span starts before the one in front of it.
pub open spec fn starts_ascend(spans: Seq<SegmentSpan>) -> bool {
    forall|i: int, j: int|
        0 <= i < j < spans.len() ==> (#[trigger] spans[i]).start_time <= (
        #[trigger] spans[j]).start_time
}

/// Where a fold over matches in window order stands: the closed segments
/// ascend by their start, none of them starts after the open run does, and
/// the open run ends with the window of the last match.
spec fn fold_ascends(matches: Seq<WindowMatchView>, n: nat, settings: StitchSettings) -> bool {
    let state = stitch_fold(matches, n, settings);
    &&& starts_ascend(state.closed)
    &&& match state.open {
        Some(run) => {
            &&& n > 0
            &&& run.first_index <= run.last_index
            &&& run.last_index == matches[n - 1].window_index
            &&& forall|k: int|
                0 <= k < state.closed.len() ==> (#[trigger] state.closed[k]).start_time
                    <= run_start(run, settings)
        },
        None => state.closed.len() == 0,
    }
}

proof fn lemma_fold_ascends(matches: Seq<WindowMatchView>, n: nat, settings: StitchSettings)
    requires
        in_window_order(matches),
        n <= matches.len(),
    ensures
        fold_ascends(matches, n, settings),
    decreases n,
{
    if n > 0 {
        lemma_fold_ascends(matches, (n - 1) as nat, settings);
        let before = stitch_fold(matches, (n - 1) as nat, settings);
        let after = stitch_fold(matches, n, settings);
        let m = matches[n - 1];
        assert(after == stitch_step(before, m, settings));
        match before.open {
            None => {},
            Some(run) => {
                assert(matches[n - 2].window_index <= m.window_index);
                assert(run.first_index * settings.hop_size <= m.window_index * settings.hop_size)
                    by (nonlinear_arith)
                    requires
                        run.first_index <= m.window_index,
                        settings.hop_size >= 0,
                ;
                if !continues_run(run, m, settings) {
                    let closing = close_run(run, settings);
                    assert forall|i: int, j: int| 0 <= i < j < after.closed.len() implies (
                    #[trigger] after.closed[i]).start_time <= (
                    #[trigger] after.closed[j]).start_time by {
                        if j < before.closed.len() {
                            assert(after.closed[i] == before.closed[i]);
                            assert(after.closed[j] == before.closed[j]);
                        } else {
                            assert(after.closed[i] == before.closed[i]);
                            assert(after.closed[j] == closing[0]);
                        }
                    }
                    assert forall|k: int| 0 <= k < after.closed.len() implies (
                    #[trigger] after.closed[k]).start_time <= run_start(open_run(m), settings) by {
                        if k < before.closed.len() {
                            assert(after.closed[k] == before.closed[k]);
                        } else {
                            assert(after.closed[k] == closing[0]);
                        }
                    }
                }
            },
        }
    }
}

/// Matches in the order of their windows stitch into segments in the order
/// of their start.
pub proof fn lemma_stitched_spans_ascend(matches: Seq<WindowMatchView>, settings: StitchSettings)
    requires
        in_window_order(matches),
    ensures
        starts_ascend(stitched(matches, settings)),
{
    lemma_fold_ascends(matches, matches.len(), settings);
    let state = stitch_fold(matches, matches.len(), settings);
    let spans = stitched(matches, settings);
    assert forall|i: int, j: int| 0 <= i < j < spans.len() implies (#[trigger] spans[i]).start_time
        <= (#[trigger] spans[j]).start_time by {
        assert(spans[i] == state.closed[i]);
        if j < state.closed.len() {
            assert(spans[j] == state.closed[j]);
        }
    }
}

} // verus!
