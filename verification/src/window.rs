//! Planning the sliding windows of a scan.
//!
//! Times are whole milliseconds.

use crate::error::AppError;
use vstd::prelude::*;
use vstd::string::StringExecFns;

verus! {

/// One slice of the audio to classify: its place in the plan and the time at
/// which it starts.
#[derive(Clone, Copy, Debug, PartialEq, Eq, Structural)]
pub struct Window {
    pub index: u64,
    pub start_time: u64,
}

/// Whether a scan can be planned: both sizes are positive and the audio is
/// at least one window long.
pub open spec fn plannable(total_duration: int, window_size: int, hop_size: int) -> bool {
    window_size > 0 && hop_size > 0 && total_duration >= window_size
}

/// Number of windows of a plannable scan.
pub open spec fn window_count(total_duration: int, window_size: int, hop_size: int) -> int {
    (total_duration - window_size) / hop_size + 1
}

/// Whether the window with this index lies inside the audio.
pub open spec fn window_fits(index: int, total_duration: int, window_size: int, hop_size: int) -> bool {
    index * hop_size + window_size <= total_duration
}

/// The windows of a plan are those that lie inside the audio: the window
/// with index `i` fits if and only if `i` is below the window count.
pub proof fn lemma_planned_windows_are_those_that_fit(
    i: int,
    total_duration: int,
    window_size: int,
    hop_size: int,
)
    requires
        plannable(total_duration, window_size, hop_size),
        0 <= i,
    ensures
        window_fits(i, total_duration, window_size, hop_size) <==> i < window_count(
            total_duration,
            window_size,
            hop_size,
        ),
{
    let room = total_duration - window_size;
    let q = room / hop_size;
    assert(q * hop_size <= room < (q + 1) * hop_size) by (nonlinear_arith)
        requires
            q == room / hop_size,
            hop_size > 0,
            room >= 0,
    ;
    if i <= q {
        assert(i * hop_size <= q * hop_size) by (nonlinear_arith)
            requires
                i <= q,
                hop_size > 0,
        ;
    } else {
        assert(i * hop_size >= (q + 1) * hop_size) by (nonlinear_arith)
            requires
                i >= q + 1,
                hop_size > 0,
        ;
    }
}

/// What is wrong with the sizes of a scan that cannot be planned: the first
/// of a zero hop, a zero window, and audio shorter than one window.
pub open spec fn planning_fault(total_duration: int, window_size: int, hop_size: int) -> Seq<char> {
    if hop_size == 0 {
        "hop size must be greater than zero"@
    } else if window_size == 0 {
        "window size must be greater than zero"@
    } else {
        "the audio is shorter than one window"@
    }
}

/// Checks the sizes of a scan. Fails with `InvalidArgument` where a size is
/// zero or the audio is shorter than one window; the message is the
/// [`planning_fault`].
pub fn check_plan(total_duration: u64, window_size: u64, hop_size: u64) -> (checked: Result<
    (),
    AppError,
>)
    ensures
        plannable(total_duration as int, window_size as int, hop_size as int) ==> checked is Ok,
        !plannable(total_duration as int, window_size as int, hop_size as int) ==> (checked matches Err(
            AppError::InvalidArgument(message),
        ) && message@ == planning_fault(
            total_duration as int,
            window_size as int,
            hop_size as int,
        )),
{
    if hop_size == 0 {
        return Err(AppError::InvalidArgument(String::from_str("hop size must be greater than zero")));
    }
    if window_size == 0 {
        return Err(
            AppError::InvalidArgument(String::from_str("window size must be greater than zero")),
        );
    }
    if total_duration < window_size {
        return Err(
            AppError::InvalidArgument(String::from_str("the audio is shorter than one window")),
        );
    }
    Ok(())
}

/// Counts the windows of a scan that can be planned.
pub fn count_windows(total_duration: u64, window_size: u64, hop_size: u64) -> (count: u64)
    requires
        plannable(total_duration as int, window_size as int, hop_size as int),
    ensures
        count == window_count(total_duration as int, window_size as int, hop_size as int),
{
    (total_duration - window_size) / hop_size + 1
}

/// Lists the windows of a scan in order: window `i` starts at `i * hop_size`,
/// for every `i` whose window ends within `total_duration`.
///
/// Fails with `InvalidArgument` where a size is zero or the audio is shorter
/// than one window; the message is the [`planning_fault`].
pub fn plan_windows(total_duration: u64, window_size: u64, hop_size: u64) -> (plan: Result<
    Vec<Window>,
    AppError,
>)
    ensures
        plannable(total_duration as int, window_size as int, hop_size as int) ==> plan is Ok
            && plan->Ok_0@.len() == window_count(
            total_duration as int,
            window_size as int,
            hop_size as int,
        ) && forall|i: int|
            0 <= i < plan->Ok_0@.len() ==> (#[trigger] plan->Ok_0@[i]).index == i
                && plan->Ok_0@[i].start_time == i * hop_size,
        !plannable(total_duration as int, window_size as int, hop_size as int) ==> (plan matches Err(
            AppError::InvalidArgument(message),
        ) && message@ == planning_fault(
            total_duration as int,
            window_size as int,
            hop_size as int,
        )),
{
    check_plan(total_duration, window_size, hop_size)?;
    let last: u64 = (total_duration - window_size) / hop_size;
    let mut windows: Vec<Window> = Vec::new();
    let mut i: u64 = 0;
    while i <= last
        invariant
            hop_size > 0,
            window_size <= total_duration,
            last == (total_duration - window_size) / (hop_size as int),
            last < u64::MAX,
            i <= last + 1,
            windows@.len() == i,
            forall|k: int|
                0 <= k < i ==> (#[trigger] windows@[k]).index == k && windows@[k].start_time == k
                    * hop_size,
        decreases last + 1 - i,
    {
        assert(i * hop_size <= total_duration - window_size) by (nonlinear_arith)
            requires
                i <= last,
                last == (total_duration - window_size) / (hop_size as int),
                hop_size > 0,
                total_duration >= window_size,
        ;
        windows.push(Window { index: i, start_time: i * hop_size });
        i = i + 1;
    }
    Ok(windows)
}

} // verus!
