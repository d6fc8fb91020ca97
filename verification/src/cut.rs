//! Choosing the stretches of a video to keep when it is cut.
//!
//! Times are whole milliseconds.

use crate::error::AppError;
use crate::order::{is_stable_order, stable_order, stable_order_of};
use crate::text::{replace, replaced};
use crate::utils::{Segment, SegmentStatus};
use vstd::prelude::*;
use vstd::string::StringExecFns;

verus! {

/// A stretch of time, from `start` up to `end`.
#[derive(Debug, Clone, Copy, PartialEq, Eq, Structural)]
pub struct TimeRange {
    pub start: u64,
    pub end: u64,
}

/// The stretch of a segment that lies inside a video of this length.
pub open spec fn clamped(segment: Segment, total_duration: u64) -> TimeRange {
    TimeRange {
        start: segment.start_time,
        end: if segment.end_time <= total_duration {
            segment.end_time
        } else {
            total_duration
        },
    }
}

/// Whether a segment counts when a video of this length is cut: it was not
/// removed, and some of it lies inside the video.
pub open spec fn is_valid_segment(segment: Segment, total_duration: u64) -> bool {
    segment.status != SegmentStatus::Removed && clamped(segment, total_duration).start < clamped(
        segment,
        total_duration,
    ).end
}

/// The positions of the valid segments among the first `n`.
pub open spec fn valid_positions(segments: Seq<Segment>, total_duration: u64, n: nat) -> Seq<usize>
    decreases n,
{
    if n == 0 {
        Seq::empty()
    } else if is_valid_segment(segments[n - 1], total_duration) {
        valid_positions(segments, total_duration, (n - 1) as nat).push((n - 1) as usize)
    } else {
        valid_positions(segments, total_duration, (n - 1) as nat)
    }
}

/// The positions of the segments that were not removed, among the first `n`.
pub open spec fn kept_positions(segments: Seq<Segment>, n: nat) -> Seq<usize>
    decreases n,
{
    if n == 0 {
        Seq::empty()
    } else if segments[n - 1].status != SegmentStatus::Removed {
        kept_positions(segments, (n - 1) as nat).push((n - 1) as usize)
    } else {
        kept_positions(segments, (n - 1) as nat)
    }
}

/// The start times of the segments at these positions.
pub open spec fn start_times(segments: Seq<Segment>, positions: Seq<usize>) -> Seq<u64> {
    Seq::new(positions.len(), |i: int| segments[positions[i] as int].start_time)
}

/// The positions ordered by the start times of their segments; segments that
/// start together keep their order.
pub open spec fn by_start(segments: Seq<Segment>, positions: Seq<usize>) -> Seq<usize> {
    Seq::new(
        positions.len(),
        |i: int| positions[stable_order(start_times(segments, positions))[i] as int],
    )
}

/// The valid segments of a video of this length, each cut to the video, in
/// order of their start.
pub open spec fn valid_ranges(segments: Seq<Segment>, total_duration: u64) -> Seq<TimeRange> {
    let positions = by_start(segments, valid_positions(segments, total_duration, segments.len()));
    Seq::new(positions.len(), |i: int| clamped(segments[positions[i] as int], total_duration))
}

/// The segments that were not removed, as they are, in order of their
/// start.
pub open spec fn kept_ranges(segments: Seq<Segment>) -> Seq<TimeRange> {
    let positions = by_start(segments, kept_positions(segments, segments.len()));
    Seq::new(
        positions.len(),
        |i: int|
            TimeRange {
                start: segments[positions[i] as int].start_time,
                end: segments[positions[i] as int].end_time,
            },
    )
}

/// The merged ranges with one more range: a range that starts no later than
/// the last one ends is joined with it, any other is added behind it.
pub open spec fn merge_step(merged: Seq<TimeRange>, next: TimeRange) -> Seq<TimeRange> {
    if merged.len() > 0 && next.start <= merged.last().end {
        merged.drop_last().push(
            TimeRange {
                start: merged.last().start,
                end: if merged.last().end >= next.end {
                    merged.last().end
                } else {
                    next.end
                },
            },
        )
    } else {
        merged.push(next)
    }
}

/// The first `n` ranges with the overlapping ones joined.
pub open spec fn merged_upto(ranges: Seq<TimeRange>, n: nat) -> Seq<TimeRange>
    decreases n,
{
    if n == 0 {
        Seq::empty()
    } else {
        merge_step(merged_upto(ranges, (n - 1) as nat), ranges[n - 1])
    }
}

/// The ranges with the overlapping ones joined.
pub open spec fn merged(ranges: Seq<TimeRange>) -> Seq<TimeRange> {
    merged_upto(ranges, ranges.len())
}

/// What lies between the first `n` ranges, and the time up to which they
/// reach: before each range that starts after that time, the stretch from
/// that time to its start.
pub open spec fn gaps_upto(ranges: Seq<TimeRange>, n: nat) -> (Seq<TimeRange>, u64)
    decreases n,
{
    if n == 0 {
        (Seq::empty(), 0)
    } else {
        let (gaps, reached) = gaps_upto(ranges, (n - 1) as nat);
        let next = ranges[n - 1];
        if reached < next.start {
            (gaps.push(TimeRange { start: reached, end: next.start }), next.end)
        } else {
            (gaps, next.end)
        }
    }
}

/// What a video of this length has outside the ranges: the stretches
/// between them, and the stretch from the last to the end of the video.
pub open spec fn inverse(ranges: Seq<TimeRange>, total_duration: u64) -> Seq<TimeRange> {
    let (gaps, reached) = gaps_upto(ranges, ranges.len());
    if reached < total_duration {
        gaps.push(TimeRange { start: reached, end: total_duration })
    } else {
        gaps
    }
}

/// Orders positions of segments by the start of their segments.
fn order_by_start(segments: &Vec<Segment>, positions: &Vec<usize>) -> (ordered: Vec<usize>)
    requires
        forall|i: int| 0 <= i < positions@.len() ==> (#[trigger] positions@[i]) < segments@.len(),
    ensures
        ordered@ == by_start(segments@, positions@),
        forall|i: int| 0 <= i < ordered@.len() ==> (#[trigger] ordered@[i]) < segments@.len(),
{
    let m: usize = positions.len();
    let mut starts: Vec<u64> = Vec::new();
    let mut i: usize = 0;
    while i < m
        invariant
            i <= m,
            m == positions@.len(),
            forall|k: int| 0 <= k < positions@.len() ==> (#[trigger] positions@[k]) < segments@.len(),
            starts@ == start_times(segments@, positions@).take(i as int),
        decreases m - i,
    {
        starts.push(segments[positions[i]].start_time);
        assert(starts@ =~= start_times(segments@, positions@).take(i + 1));
        i = i + 1;
    }
    assert(starts@ =~= start_times(segments@, positions@));
    let order = stable_order_of(&starts);
    let mut ordered: Vec<usize> = Vec::new();
    let mut j: usize = 0;
    while j < m
        invariant
            j <= m,
            m == positions@.len(),
            forall|k: int| 0 <= k < positions@.len() ==> (#[trigger] positions@[k]) < segments@.len(),
            starts@ == start_times(segments@, positions@),
            order@ == stable_order(starts@),
            is_stable_order(starts@, order@, m as nat),
            ordered@ == by_start(segments@, positions@).take(j as int),
        decreases m - j,
    {
        assert(order@[j as int] < m);
        ordered.push(positions[order[j]]);
        assert(ordered@ =~= by_start(segments@, positions@).take(j + 1));
        j = j + 1;
    }
    assert(ordered@ =~= by_start(segments@, positions@));
    assert forall|i: int| 0 <= i < ordered@.len() implies (#[trigger] ordered@[i]) < segments@.len() by {
        assert(order@[i] < m);
        assert(ordered@[i] == positions@[order@[i] as int]);
    }
    ordered
}

/// Lists the segments to export, each with its place among `segments`:
/// those that were not removed and lie at least in part inside the video,
/// cut to the video, in order of their start.
pub fn filter_valid_segments_with_ref(segments: &Vec<Segment>, total_duration: u64) -> (valid: Vec<
    (TimeRange, usize),
>)
    ensures
        valid@.len() == valid_ranges(segments@, total_duration).len(),
        forall|i: int|
            0 <= i < valid@.len() ==> (#[trigger] valid@[i]).0 == valid_ranges(
                segments@,
                total_duration,
            )[i] && valid@[i].1 == by_start(
                segments@,
                valid_positions(segments@, total_duration, segments@.len()),
            )[i] && valid@[i].1 < segments@.len(),
{
    let n: usize = segments.len();
    let mut positions: Vec<usize> = Vec::new();
    let mut i: usize = 0;
    while i < n
        invariant
            i <= n,
            n == segments@.len(),
            positions@ == valid_positions(segments@, total_duration, i as nat),
            forall|k: int| 0 <= k < positions@.len() ==> (#[trigger] positions@[k]) < i,
        decreases n - i,
    {
        let segment = &segments[i];
        let end: u64 = if segment.end_time <= total_duration {
            segment.end_time
        } else {
            total_duration
        };
        let removed = match segment.status {
            SegmentStatus::Removed => true,
            SegmentStatus::Detected => false,
        };
        if !removed && segment.start_time < end {
            positions.push(i);
        }
        i = i + 1;
    }
    let ordered = order_by_start(segments, &positions);
    let m: usize = ordered.len();
    let mut valid: Vec<(TimeRange, usize)> = Vec::new();
    let mut j: usize = 0;
    while j < m
        invariant
            j <= m,
            m == ordered@.len(),
            ordered@ == by_start(
                segments@,
                valid_positions(segments@, total_duration, segments@.len()),
            ),
            forall|k: int| 0 <= k < ordered@.len() ==> (#[trigger] ordered@[k]) < segments@.len(),
            valid@.len() == j,
            forall|k: int|
                0 <= k < j ==> (#[trigger] valid@[k]).0 == clamped(
                    segments@[ordered@[k] as int],
                    total_duration,
                ) && valid@[k].1 == ordered@[k],
        decreases m - j,
    {
        let at: usize = ordered[j];
        let segment = &segments[at];
        let end: u64 = if segment.end_time <= total_duration {
            segment.end_time
        } else {
            total_duration
        };
        valid.push((TimeRange { start: segment.start_time, end }, at));
        j = j + 1;
    }
    valid
}

/// Lists the stretches to export: the segments that were not removed and
/// lie at least in part inside the video, cut to the video, in order of
/// their start.
pub fn filter_valid_segments(segments: &Vec<Segment>, total_duration: u64) -> (ranges: Vec<TimeRange>)
    ensures
        ranges@ == valid_ranges(segments@, total_duration),
{
    let valid = filter_valid_segments_with_ref(segments, total_duration);
    let mut ranges: Vec<TimeRange> = Vec::new();
    let m: usize = valid.len();
    let mut i: usize = 0;
    while i < m
        invariant
            i <= m,
            m == valid@.len(),
            m == valid_ranges(segments@, total_duration).len(),
            forall|k: int|
                0 <= k < valid@.len() ==> (#[trigger] valid@[k]).0 == valid_ranges(
                    segments@,
                    total_duration,
                )[k],
            ranges@ == valid_ranges(segments@, total_duration).take(i as int),
        decreases m - i,
    {
        ranges.push(valid[i].0);
        assert(ranges@ =~= valid_ranges(segments@, total_duration).take(i + 1));
        i = i + 1;
    }
    assert(ranges@ =~= valid_ranges(segments@, total_duration));
    ranges
}

/// Joins ranges that overlap or touch. The ranges are taken in the order
/// given, which is the order of their start: a range that starts no later
/// than the one before it ends is joined with it.
pub fn merge_overlapping_segments(ranges: &Vec<TimeRange>) -> (joined: Vec<TimeRange>)
    ensures
        joined@ == merged(ranges@),
{
    let mut joined: Vec<TimeRange> = Vec::new();
    let n: usize = ranges.len();
    let mut i: usize = 0;
    while i < n
        invariant
            i <= n,
            n == ranges@.len(),
            joined@ == merged_upto(ranges@, i as nat),
        decreases n - i,
    {
        let next = ranges[i];
        let ghost before = joined@;
        let count: usize = joined.len();
        if count > 0 && next.start <= joined[count - 1].end {
            let last = joined[count - 1];
            let end: u64 = if last.end >= next.end { last.end } else { next.end };
            joined.set(count - 1, TimeRange { start: last.start, end });
            assert(joined@ =~= merge_step(before, next));
        } else {
            joined.push(next);
        }
        i = i + 1;
    }
    joined
}

/// Lists what is left of a video when its matched segments are cut out:
/// the segments that were not removed are put in order of their start and
/// joined where they overlap, and the stretches outside them are listed.
pub fn calculate_inverse_segments(segments: &Vec<Segment>, total_duration: u64) -> (rest: Vec<
    TimeRange,
>)
    ensures
        rest@ == inverse(merged(kept_ranges(segments@)), total_duration),
{
    let n: usize = segments.len();
    let mut positions: Vec<usize> = Vec::new();
    let mut i: usize = 0;
    while i < n
        invariant
            i <= n,
            n == segments@.len(),
            positions@ == kept_positions(segments@, i as nat),
            forall|k: int| 0 <= k < positions@.len() ==> (#[trigger] positions@[k]) < i,
        decreases n - i,
    {
        let removed = match segments[i].status {
            SegmentStatus::Removed => true,
            SegmentStatus::Detected => false,
        };
        if !removed {
            positions.push(i);
        }
        i = i + 1;
    }
    let ordered = order_by_start(segments, &positions);
    let m: usize = ordered.len();
    let mut matched: Vec<TimeRange> = Vec::new();
    let mut j: usize = 0;
    while j < m
        invariant
            j <= m,
            m == ordered@.len(),
            ordered@ == by_start(segments@, kept_positions(segments@, segments@.len())),
            forall|k: int| 0 <= k < ordered@.len() ==> (#[trigger] ordered@[k]) < segments@.len(),
            matched@ == kept_ranges(segments@).take(j as int),
        decreases m - j,
    {
        let segment = &segments[ordered[j]];
        matched.push(TimeRange { start: segment.start_time, end: segment.end_time });
        assert(matched@ =~= kept_ranges(segments@).take(j + 1));
        j = j + 1;
    }
    assert(matched@ =~= kept_ranges(segments@));
    let joined = merge_overlapping_segments(&matched);
    let mut rest: Vec<TimeRange> = Vec::new();
    let mut reached: u64 = 0;
    let count: usize = joined.len();
    let mut k: usize = 0;
    while k < count
        invariant
            k <= count,
            count == joined@.len(),
            (rest@, reached) == gaps_upto(joined@, k as nat),
        decreases count - k,
    {
        let next = joined[k];
        if reached < next.start {
            rest.push(TimeRange { start: reached, end: next.start });
        }
        reached = next.end;
        k = k + 1;
    }
    if reached < total_duration {
        rest.push(TimeRange { start: reached, end: total_duration });
    }
    rest
}

/// The stretches of the video that a cut keeps: the matched segments, or
/// all but them.
pub open spec fn stretches_to_keep(
    segments: Seq<Segment>,
    total_duration: u64,
    keep_matched: bool,
) -> Seq<TimeRange> {
    if keep_matched {
        merged(valid_ranges(segments, total_duration))
    } else {
        inverse(merged(kept_ranges(segments)), total_duration)
    }
}

/// Chooses the stretches of the video that a cut keeps. Fails with a
/// `Video` error where nothing would be kept.
pub fn cut_video_segments(segments: &Vec<Segment>, total_duration: u64, keep_matched: bool) -> (kept:
    Result<Vec<TimeRange>, AppError>)
    ensures
        stretches_to_keep(segments@, total_duration, keep_matched).len() > 0 ==> (kept matches Ok(
            ranges,
        ) && ranges@ == stretches_to_keep(segments@, total_duration, keep_matched)),
        stretches_to_keep(segments@, total_duration, keep_matched).len() == 0
            ==> kept matches Err(AppError::Video(_)),
{
    let ranges = if keep_matched {
        let valid = filter_valid_segments(segments, total_duration);
        merge_overlapping_segments(&valid)
    } else {
        calculate_inverse_segments(segments, total_duration)
    };
    if ranges.len() == 0 {
        return Err(AppError::Video(String::from_str("no part of the video would be kept")));
    }
    Ok(ranges)
}

/// Joined ranges lie apart: each ends before the next one starts.
pub proof fn lemma_merged_ranges_lie_apart(ranges: Seq<TimeRange>, n: nat)
    ensures
        forall|k: int|
            #![trigger merged_upto(ranges, n)[k]]
            0 <= k < merged_upto(ranges, n).len() - 1 ==> merged_upto(ranges, n)[k].end
                < merged_upto(ranges, n)[k + 1].start,
    decreases n,
{
    if n > 0 {
        lemma_merged_ranges_lie_apart(ranges, (n - 1) as nat);
        let before = merged_upto(ranges, (n - 1) as nat);
        let after = merged_upto(ranges, n);
        assert(after == merge_step(before, ranges[n - 1]));
        assert forall|k: int| #![trigger after[k]] 0 <= k < after.len() - 1 implies after[k].end
            < after[k + 1].start by {
            if k + 1 < before.len() {
                assert(after[k] == before[k]);
                assert(after[k + 1].start == before[k + 1].start);
            }
        }
    }
}

/// Joining ranges never makes more of them.
pub proof fn lemma_merged_ranges_are_no_more(ranges: Seq<TimeRange>, n: nat)
    ensures
        merged_upto(ranges, n).len() <= n,
        n > 0 ==> merged_upto(ranges, n).len() > 0,
    decreases n,
{
    if n > 0 {
        lemma_merged_ranges_are_no_more(ranges, (n - 1) as nat);
    }
}

/// A stretch of the video that the user asks to export.
#[derive(Debug, Clone, Copy, PartialEq, Eq, Structural)]
pub struct CustomClipRange {
    pub start_time: u64,
    pub end_time: u64,
}

/// Whether clips can be exported: there is at least one, and each ends
/// after it starts.
pub open spec fn exportable(clips: Seq<CustomClipRange>) -> bool {
    clips.len() > 0 && forall|i: int|
        0 <= i < clips.len() ==> (#[trigger] clips[i]).start_time < clips[i].end_time
}

/// The start times of the clips.
pub open spec fn clip_starts(clips: Seq<CustomClipRange>) -> Seq<u64> {
    clips.map_values(|c: CustomClipRange| c.start_time)
}

/// The clips as ranges, in order of their start; clips that start together
/// keep their order.
pub open spec fn clip_ranges(clips: Seq<CustomClipRange>) -> Seq<TimeRange> {
    Seq::new(
        clips.len(),
        |i: int|
            TimeRange {
                start: clips[stable_order(clip_starts(clips))[i] as int].start_time,
                end: clips[stable_order(clip_starts(clips))[i] as int].end_time,
            },
    )
}

/// Checks one clip: it must end after it starts. Fails with
/// `InvalidArgument` where it does not.
pub fn export_custom_clip(start_time: u64, end_time: u64) -> (checked: Result<TimeRange, AppError>)
    ensures
        start_time < end_time ==> checked == Ok::<TimeRange, AppError>(
            TimeRange { start: start_time, end: end_time },
        ),
        !(start_time < end_time) ==> checked matches Err(AppError::InvalidArgument(_)),
{
    if end_time <= start_time {
        return Err(
            AppError::InvalidArgument(String::from_str("a clip must end after it starts")),
        );
    }
    Ok(TimeRange { start: start_time, end: end_time })
}

/// Checks clips that are to be exported. Fails with `InvalidArgument` where
/// there is no clip or one does not end after it starts.
pub fn check_custom_clips(clips: &Vec<CustomClipRange>) -> (checked: Result<
    (),
    AppError,
>)
    ensures
        exportable(clips@) ==> checked is Ok,
        !exportable(clips@) ==> checked matches Err(AppError::InvalidArgument(_)),
{
    let n: usize = clips.len();
    if n == 0 {
        return Err(AppError::InvalidArgument(String::from_str("there is no clip to export")));
    }
    let mut i: usize = 0;
    while i < n
        invariant
            i <= n,
            n == clips@.len(),
            forall|k: int| 0 <= k < i ==> (#[trigger] clips@[k]).start_time < clips@[k].end_time,
        decreases n - i,
    {
        if clips[i].end_time <= clips[i].start_time {
            return Err(
                AppError::InvalidArgument(String::from_str("a clip must end after it starts")),
            );
        }
        i = i + 1;
    }
    Ok(())
}

/// Chooses the stretches to export into one file: the clips in order of
/// their start, joined where they overlap. Fails with `InvalidArgument`
/// where there is no clip or one does not end after it starts.
pub fn export_custom_clips_merged(clips: &Vec<CustomClipRange>) -> (stretches: Result<
    Vec<TimeRange>,
    AppError,
>)
    ensures
        exportable(clips@) ==> (stretches matches Ok(ranges) && ranges@ == merged(
            clip_ranges(clips@),
        )),
        !exportable(clips@) ==> stretches matches Err(AppError::InvalidArgument(_)),
{
    check_custom_clips(clips)?;
    let n: usize = clips.len();
    let mut starts: Vec<u64> = Vec::new();
    let mut i: usize = 0;
    while i < n
        invariant
            i <= n,
            n == clips@.len(),
            starts@ == clip_starts(clips@).take(i as int),
        decreases n - i,
    {
        starts.push(clips[i].start_time);
        assert(starts@ =~= clip_starts(clips@).take(i + 1));
        i = i + 1;
    }
    assert(starts@ =~= clip_starts(clips@));
    let order = stable_order_of(&starts);
    let mut ranges: Vec<TimeRange> = Vec::new();
    let mut j: usize = 0;
    while j < n
        invariant
            j <= n,
            n == clips@.len(),
            starts@ == clip_starts(clips@),
            order@ == stable_order(starts@),
            is_stable_order(starts@, order@, n as nat),
            ranges@ == clip_ranges(clips@).take(j as int),
        decreases n - j,
    {
        assert(order@[j as int] < n);
        let clip = clips[order[j]];
        ranges.push(TimeRange { start: clip.start_time, end: clip.end_time });
        assert(ranges@ =~= clip_ranges(clips@).take(j + 1));
        j = j + 1;
    }
    assert(ranges@ =~= clip_ranges(clips@));
    Ok(merge_overlapping_segments(&ranges))
}

/// The line by which a list of files to join names a file: the path with
/// forward slashes for backward ones, in single quotes, each single quote in
/// it closed, escaped and opened again.
pub open spec fn concat_line(path: Seq<char>) -> Seq<char> {
    "file '"@ + replaced(replaced(path, "\\"@, "/"@), "'"@, "'\\''"@) + "'"@
}

/// Writes the line by which a list of files to join names a file.
pub fn concat_list_entry(path: &str) -> (line: String)
    ensures
        line@ == concat_line(path@),
{
    proof {
        reveal_strlit("\\");
        reveal_strlit("'");
    }
    let slashed = replace(path, "\\", "/");
    let escaped = replace(slashed.as_str(), "'", "'\\''");
    String::from_str("file '").concat(escaped.as_str()).concat("'")
}

} // verus!
