//! Watching over an external process.
//!
//! A task that runs an external program looks at it again and again: it
//! checks its own cancellation flag, asks whether the process has exited,
//! and reads what the process has written. What the task does after each
//! look is decided here; the caller does it.

use crate::error::AppError;
use vstd::prelude::*;
use vstd::string::{StrSliceExecFns, StringExecFns};

verus! {

/// Time to wait before the next look where the process had nothing to say,
/// in milliseconds.
pub const PROCESS_POLL_INTERVAL: u64 = 100;

/// Most characters of a process's output that an error message carries.
pub const MAX_ERROR_OUTPUT: usize = 500;

/// What a look at the process found.
#[derive(Debug, Clone, Copy, PartialEq, Eq, Structural)]
pub enum ProcessState {
    /// The process is running.
    Running,
    /// The process has exited, with or without success.
    Exited { success: bool },
    /// The state of the process could not be had.
    Unknown,
    /// The handle of the process is gone: its task was released.
    Gone,
}

/// What the task does next.
#[derive(Debug, Clone, Copy, PartialEq, Eq, Structural)]
pub enum SuperviseAction {
    /// Terminate the process, wait for it to exit, and end as cancelled.
    KillAndCancel,
    /// End as cancelled; there is no process left to terminate.
    Cancel,
    /// Read what the process has written; where there is nothing, wait
    /// [`PROCESS_POLL_INTERVAL`] before the next look.
    ReadOutput,
    /// Read the rest of what the process wrote, then end with
    /// [`exit_outcome`].
    Finish { success: bool },
    /// Terminate the process and end as failed.
    KillAndFail,
}

/// Decides what the task does after a look at its flag and its process.
///
/// A task whose flag is set terminates its process and ends as cancelled,
/// whatever the process does. Otherwise a process that is gone means that
/// the task was cancelled and released; a process that has exited is
/// finished with; one that is running is read from; and one whose state
/// cannot be had is terminated.
pub fn supervise_step(cancelled: bool, state: ProcessState) -> (action: SuperviseAction)
    ensures
        action == if cancelled {
            SuperviseAction::KillAndCancel
        } else {
            match state {
                ProcessState::Running => SuperviseAction::ReadOutput,
                ProcessState::Exited { success } => SuperviseAction::Finish { success },
                ProcessState::Unknown => SuperviseAction::KillAndFail,
                ProcessState::Gone => SuperviseAction::Cancel,
            }
        },
{
    if cancelled {
        return SuperviseAction::KillAndCancel;
    }
    match state {
        ProcessState::Running => SuperviseAction::ReadOutput,
        ProcessState::Exited { success } => SuperviseAction::Finish { success },
        ProcessState::Unknown => SuperviseAction::KillAndFail,
        ProcessState::Gone => SuperviseAction::Cancel,
    }
}

/// The first `limit` characters of `text`, or all of it if it has fewer.
pub open spec fn head(text: Seq<char>, limit: int) -> Seq<char> {
    if text.len() <= limit {
        text
    } else {
        text.subrange(0, limit)
    }
}

/// The message of a process that failed: the name of the tool and, where
/// the process wrote something, the first [`MAX_ERROR_OUTPUT`] characters of
/// it.
pub open spec fn failure_text(tool: Seq<char>, output: Seq<char>) -> Seq<char> {
    if output.len() == 0 {
        tool + " failed (no details)"@
    } else {
        tool + " failed: "@ + head(output, MAX_ERROR_OUTPUT as int)
    }
}

/// The message of a process that failed.
pub fn failure_message(tool: &str, output: &str) -> (text: String)
    ensures
        text@ == failure_text(tool@, output@),
{
    let length: usize = output.unicode_len();
    if length == 0 {
        String::from_str(tool).concat(" failed (no details)")
    } else if length <= MAX_ERROR_OUTPUT {
        String::from_str(tool).concat(" failed: ").concat(output)
    } else {
        String::from_str(tool).concat(" failed: ").concat(output.substring_char(0, MAX_ERROR_OUTPUT))
    }
}

/// The kinds of external work, each with the kind of error by which it
/// fails.
#[derive(Debug, Clone, Copy, PartialEq, Eq, Structural)]
pub enum ToolKind {
    /// Vocal separation.
    Separation,
    /// Person detection.
    Detection,
    /// Transcoding.
    Transcoding,
}

/// Whether `error` is the failure of the kind of work with this message.
pub open spec fn is_failure_of(error: AppError, kind: ToolKind, message: Seq<char>) -> bool {
    match kind {
        ToolKind::Separation => error matches AppError::VocalSeparation(m) && m@ == message,
        ToolKind::Detection => error matches AppError::Detection(m) && m@ == message,
        ToolKind::Transcoding => error matches AppError::FFmpeg(m) && m@ == message,
    }
}

/// The failure of the kind of work with this message.
pub fn failure_of(kind: ToolKind, message: String) -> (error: AppError)
    ensures
        is_failure_of(error, kind, message@),
{
    match kind {
        ToolKind::Separation => AppError::VocalSeparation(message),
        ToolKind::Detection => AppError::Detection(message),
        ToolKind::Transcoding => AppError::FFmpeg(message),
    }
}

/// How a task ends whose process has exited: well if the process succeeded,
/// else with the failure of its kind of work, which carries what the process
/// wrote.
pub fn exit_outcome(kind: ToolKind, tool: &str, success: bool, output: &str) -> (outcome: Result<
    (),
    AppError,
>)
    ensures
        success ==> outcome is Ok,
        !success ==> (outcome matches Err(error) && is_failure_of(
            error,
            kind,
            failure_text(tool@, output@),
        )),
{
    if success {
        Ok(())
    } else {
        Err(failure_of(kind, failure_message(tool, output)))
    }
}

} // verus!
