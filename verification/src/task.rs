//! The course of a task that runs an external program on a gated resource.
//!
//! Such a task waits for the slot of its family's gate, starts its program,
//! watches over it, and ends. What it does next is decided here from where
//! it stands and what the caller reports; the caller waits, starts and
//! terminates processes, and reports again. The task's flag is made anew
//! when it starts, and its slot, its flag and the handles of its processes
//! are given back when it ends, however it ends.

use crate::gate::{GateFamily, GatesState, ResourceGates};
use crate::registry::{ProcessHandle, RegistryState, TaskRegistry};
use crate::supervise::{supervise_step, ProcessState, SuperviseAction};
use vstd::prelude::*;

verus! {

/// Where a task stands.
#[derive(Debug, Clone, Copy, PartialEq, Eq, Structural)]
pub enum TaskPhase {
    /// Not started.
    Idle,
    /// Waiting for the slot, which it does not hold.
    Queued,
    /// Holding the slot and running its program.
    Running,
    /// Over.
    Ended,
}

/// What the caller reports.
#[derive(Debug, Clone, Copy, PartialEq, Eq, Structural)]
pub enum TaskEvent {
    /// The task is asked for.
    Start,
    /// The time between two looks at a busy gate has passed.
    Waited,
    /// A look at the task's process found this.
    Looked(ProcessState),
    /// The task is over: its work is done, or it has failed.
    Stopped,
}

/// What the caller does next.
#[derive(Debug, Clone, Copy, PartialEq, Eq, Structural)]
pub enum TaskAction {
    /// The slot is taken: start the program, register its process, and look
    /// at it.
    Run,
    /// The slot is not free: announce that the task is queued, wait, and
    /// report that the time has passed.
    AnnounceAndWait,
    /// The slot is still not free: wait, and report that the time has
    /// passed.
    Wait,
    /// Read what the process has written, and look at it again.
    Watch,
    /// The process has exited: read the rest of what it wrote, go on with
    /// what it left if it succeeded, and report that the task is over.
    Finish { success: bool },
    /// Terminate the task's processes, wait for them to exit, and end as
    /// cancelled.
    KillAndCancel,
    /// End as cancelled; there is nothing to terminate.
    Cancel,
    /// Terminate the task's processes and end as failed.
    KillAndFail,
    /// The task is over, and what it held is given back.
    Release,
    /// The report does not fit where the task stands: nothing is done.
    Nothing,
}

/// The answer to a report: where the task stands now, what the caller does
/// next, and the processes to terminate where the action says so.
#[derive(Debug)]
pub struct TaskStep {
    pub phase: TaskPhase,
    pub action: TaskAction,
    pub kill: Vec<ProcessHandle>,
}

/// What a task does after a look at its flag and its process: with its flag
/// set it terminates the process and ends as cancelled, whatever the process
/// does; else it follows the process.
pub open spec fn watch_action(cancelled: bool, state: ProcessState) -> TaskAction {
    if cancelled {
        TaskAction::KillAndCancel
    } else {
        match state {
            ProcessState::Running => TaskAction::Watch,
            ProcessState::Exited { success } => TaskAction::Finish { success },
            ProcessState::Unknown => TaskAction::KillAndFail,
            ProcessState::Gone => TaskAction::Cancel,
        }
    }
}

/// The answer to a report, given whether the task's family's gate
/// admits and whether the task's flag is set.
///
/// A task that starts runs if its gate admits, and else announces that it
/// is queued and waits. A queued task whose flag is set gives up; else it
/// runs if its gate admits by now, and else waits on. A running task
/// follows its flag and its process. A task that is queued or running is
/// released when it is reported to be over.
pub open spec fn next_action(
    phase: TaskPhase,
    event: TaskEvent,
    admits: bool,
    cancelled: bool,
) -> TaskAction {
    match (phase, event) {
        (TaskPhase::Idle, TaskEvent::Start) => if admits {
            TaskAction::Run
        } else {
            TaskAction::AnnounceAndWait
        },
        (TaskPhase::Queued, TaskEvent::Waited) => if cancelled {
            TaskAction::Cancel
        } else if admits {
            TaskAction::Run
        } else {
            TaskAction::Wait
        },
        (TaskPhase::Running, TaskEvent::Looked(state)) => watch_action(cancelled, state),
        (TaskPhase::Queued, TaskEvent::Stopped) => TaskAction::Release,
        (TaskPhase::Running, TaskEvent::Stopped) => TaskAction::Release,
        _ => TaskAction::Nothing,
    }
}

/// Whether the action ends the task.
pub open spec fn ends(action: TaskAction) -> bool {
    action == TaskAction::Cancel || action == TaskAction::KillAndCancel || action
        == TaskAction::KillAndFail || action == TaskAction::Release
}

/// Where the task stands after the action.
pub open spec fn next_phase(phase: TaskPhase, action: TaskAction) -> TaskPhase {
    match action {
        TaskAction::Run => TaskPhase::Running,
        TaskAction::Watch => TaskPhase::Running,
        TaskAction::Finish { success } => TaskPhase::Running,
        TaskAction::AnnounceAndWait => TaskPhase::Queued,
        TaskAction::Wait => TaskPhase::Queued,
        TaskAction::Nothing => phase,
        _ => TaskPhase::Ended,
    }
}

/// The gates after the action: a task that is told to run has taken the
/// slot of its family's gate, and a running task that ends has given it
/// back. Nothing else changes a gate, and no gate of another family is ever
/// changed.
pub open spec fn next_gates(
    gates: GatesState,
    family: GateFamily,
    phase: TaskPhase,
    action: TaskAction,
) -> GatesState {
    if action == TaskAction::Run {
        gates.with(family, gates.of(family).acquired())
    } else if ends(action) && phase == TaskPhase::Running && gates.of(family).held > 0 {
        gates.with(family, gates.of(family).released())
    } else {
        gates
    }
}

/// The registry after the action: a task that starts has its flag made
/// anew, and a task that ends has neither flag nor processes left. Nothing
/// else changes the registry.
pub open spec fn next_registry(
    registry: RegistryState,
    task: Seq<char>,
    phase: TaskPhase,
    event: TaskEvent,
    action: TaskAction,
) -> RegistryState {
    if phase == TaskPhase::Idle && event == TaskEvent::Start {
        registry.reset(task)
    } else if ends(action) {
        registry.released(task)
    } else {
        registry
    }
}

/// The processes to terminate: those registered for the task, where the
/// action terminates; none otherwise.
pub open spec fn to_kill(registry: RegistryState, task: Seq<char>, action: TaskAction) -> Seq<
    ProcessHandle,
> {
    if action == TaskAction::KillAndCancel || action == TaskAction::KillAndFail {
        registry.handles(task)
    } else {
        Seq::empty()
    }
}

/// Gives back what a task held: the slot of its family's gate, if it runs
/// and holds one, and its flag and the handles of its processes.
fn give_back(
    gates: &mut ResourceGates,
    registry: &mut TaskRegistry,
    family: GateFamily,
    task: &str,
    phase: TaskPhase,
    action: TaskAction,
)
    requires
        ends(action),
    ensures
        final(gates)@ == next_gates(old(gates)@, family, phase, action),
        final(registry)@ == old(registry)@.released(task@),
{
    let running = match phase {
        TaskPhase::Running => true,
        _ => false,
    };
    if running && gates.held(family) > 0 {
        gates.release(family);
    }
    registry.release(task);
}

/// Decides the next step of a task of the family under the task id.
///
/// The answer is the [`next_action`] for whether the family's gate admits
/// and whether the task's flag is set, with the gates as [`next_gates`] and
/// the registry as [`next_registry`] say, and the processes [`to_kill`].
pub fn gated_task_step(
    gates: &mut ResourceGates,
    registry: &mut TaskRegistry,
    family: GateFamily,
    task: &str,
    phase: TaskPhase,
    event: TaskEvent,
) -> (step: TaskStep)
    ensures
        step.action == next_action(
            phase,
            event,
            old(gates)@.of(family).admits(),
            old(registry)@.cancelled(task@),
        ),
        step.phase == next_phase(phase, step.action),
        final(gates)@ == next_gates(old(gates)@, family, phase, step.action),
        final(registry)@ == next_registry(old(registry)@, task@, phase, event, step.action),
        step.kill@ == to_kill(old(registry)@, task@, step.action),
{
    let ghost gates_before = gates@;
    match (phase, event) {
        (TaskPhase::Idle, TaskEvent::Start) => {
            registry.reset_cancel_flag(task);
            let free = gates.held(family) == 0;
            if free {
                let _ = gates.begin_acquire(family);
                TaskStep { phase: TaskPhase::Running, action: TaskAction::Run, kill: Vec::new() }
            } else {
                TaskStep {
                    phase: TaskPhase::Queued,
                    action: TaskAction::AnnounceAndWait,
                    kill: Vec::new(),
                }
            }
        },
        (TaskPhase::Queued, TaskEvent::Waited) => {
            if registry.is_cancelled(task) {
                give_back(gates, registry, family, task, phase, TaskAction::Cancel);
                TaskStep { phase: TaskPhase::Ended, action: TaskAction::Cancel, kill: Vec::new() }
            } else if gates.held(family) == 0 {
                let _ = gates.begin_acquire(family);
                TaskStep { phase: TaskPhase::Running, action: TaskAction::Run, kill: Vec::new() }
            } else {
                TaskStep { phase: TaskPhase::Queued, action: TaskAction::Wait, kill: Vec::new() }
            }
        },
        (TaskPhase::Running, TaskEvent::Looked(state)) => {
            match supervise_step(registry.is_cancelled(task), state) {
                SuperviseAction::ReadOutput => TaskStep {
                    phase: TaskPhase::Running,
                    action: TaskAction::Watch,
                    kill: Vec::new(),
                },
                SuperviseAction::Finish { success } => TaskStep {
                    phase: TaskPhase::Running,
                    action: TaskAction::Finish { success },
                    kill: Vec::new(),
                },
                SuperviseAction::KillAndCancel => {
                    let kill = registry.kill_child_processes(task);
                    give_back(gates, registry, family, task, phase, TaskAction::KillAndCancel);
                    TaskStep { phase: TaskPhase::Ended, action: TaskAction::KillAndCancel, kill }
                },
                SuperviseAction::Cancel => {
                    give_back(gates, registry, family, task, phase, TaskAction::Cancel);
                    TaskStep {
                        phase: TaskPhase::Ended,
                        action: TaskAction::Cancel,
                        kill: Vec::new(),
                    }
                },
                SuperviseAction::KillAndFail => {
                    let kill = registry.kill_child_processes(task);
                    give_back(gates, registry, family, task, phase, TaskAction::KillAndFail);
                    TaskStep { phase: TaskPhase::Ended, action: TaskAction::KillAndFail, kill }
                },
            }
        },
        (TaskPhase::Queued, TaskEvent::Stopped) => {
            give_back(gates, registry, family, task, phase, TaskAction::Release);
            TaskStep { phase: TaskPhase::Ended, action: TaskAction::Release, kill: Vec::new() }
        },
        (TaskPhase::Running, TaskEvent::Stopped) => {
            give_back(gates, registry, family, task, phase, TaskAction::Release);
            TaskStep { phase: TaskPhase::Ended, action: TaskAction::Release, kill: Vec::new() }
        },
        _ => TaskStep { phase, action: TaskAction::Nothing, kill: Vec::new() },
    }
}

/// A task is told to run only in answer to its start or to a wait, only
/// where its family's gate admits, and never with its flag set while
/// it waited. The slot is taken with that answer, so that no other task of
/// the family is told to run before it is given back.
pub proof fn lemma_run_needs_the_slot(
    gates: GatesState,
    family: GateFamily,
    phase: TaskPhase,
    event: TaskEvent,
    cancelled: bool,
)
    requires
        gates.of(family).capacity == 1,
        gates.of(family).held <= 1,
        next_action(phase, event, gates.of(family).admits(), cancelled) == TaskAction::Run,
    ensures
        gates.of(family).admits(),
        (phase == TaskPhase::Idle && event == TaskEvent::Start) || (phase == TaskPhase::Queued
            && event == TaskEvent::Waited && !cancelled),
        !next_gates(gates, family, phase, TaskAction::Run).of(family).admits(),
        forall|other: TaskPhase, report: TaskEvent, flag: bool|
            next_action(
                other,
                report,
                next_gates(gates, family, phase, TaskAction::Run).of(family).admits(),
                flag,
            ) != TaskAction::Run,
{
}

/// Another family's gate plays no part: it neither decides the answer
/// nor is changed by it.
pub proof fn lemma_other_family_plays_no_part(
    gates: GatesState,
    family: GateFamily,
    other: GateFamily,
    phase: TaskPhase,
    action: TaskAction,
)
    requires
        family != other,
    ensures
        next_gates(gates, family, phase, action).of(other) == gates.of(other),
{
}

/// A task whose flag is set while it is queued gives up at its next look:
/// it takes no slot, its flag is taken out, and it is over, so that it never
/// runs.
pub proof fn lemma_cancelled_in_the_queue(
    gates: GatesState,
    registry: RegistryState,
    family: GateFamily,
    task: Seq<char>,
    admits: bool,
)
    ensures
        next_action(TaskPhase::Queued, TaskEvent::Waited, admits, true) == TaskAction::Cancel,
        next_gates(gates, family, TaskPhase::Queued, TaskAction::Cancel) == gates,
        next_phase(TaskPhase::Queued, TaskAction::Cancel) == TaskPhase::Ended,
        !next_registry(
            registry,
            task,
            TaskPhase::Queued,
            TaskEvent::Waited,
            TaskAction::Cancel,
        ).flags.contains_key(task),
        forall|report: TaskEvent, free: bool, flag: bool|
            next_action(TaskPhase::Ended, report, free, flag) == TaskAction::Nothing,
{
}

/// The task is announced as queued once at most, and only where its gate is
/// busy when it starts: no other report is answered so.
pub proof fn lemma_announced_once(phase: TaskPhase, event: TaskEvent, admits: bool, cancelled: bool)
    ensures
        next_action(phase, event, admits, cancelled) == TaskAction::AnnounceAndWait <==> (phase
            == TaskPhase::Idle && event == TaskEvent::Start && !admits),
        next_phase(phase, TaskAction::AnnounceAndWait) != TaskPhase::Idle,
{
}

/// A flag that is set while the task's process runs means: terminate the
/// process, wait for it, and end as cancelled, whatever the process does.
pub proof fn lemma_set_flag_ends_the_run(
    registry: RegistryState,
    task: Seq<char>,
    state: ProcessState,
    admits: bool,
)
    ensures
        next_action(TaskPhase::Running, TaskEvent::Looked(state), admits, true)
            == TaskAction::KillAndCancel,
        to_kill(registry, task, TaskAction::KillAndCancel) == registry.handles(task),
        next_phase(TaskPhase::Running, TaskAction::KillAndCancel) == TaskPhase::Ended,
{
}

/// However a task ends, it leaves nothing behind: a running task's slot is
/// free again, and neither its flag nor a handle of its processes is left.
pub proof fn lemma_every_end_gives_back(
    gates: GatesState,
    registry: RegistryState,
    family: GateFamily,
    task: Seq<char>,
    phase: TaskPhase,
    event: TaskEvent,
    action: TaskAction,
)
    requires
        ends(action),
        phase != TaskPhase::Idle,
        gates.of(family).capacity == 1,
        gates.of(family).held <= 1,
    ensures
        next_phase(phase, action) == TaskPhase::Ended,
        phase == TaskPhase::Running ==> next_gates(gates, family, phase, action).of(family).admits(),
        !next_registry(registry, task, phase, event, action).flags.contains_key(task),
        next_registry(registry, task, phase, event, action).handles(task) == Seq::<
            ProcessHandle,
        >::empty(),
{
}

} // verus!
