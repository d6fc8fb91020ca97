//! Cancellation flags and child processes, by task id.
//!
//! Every long-running task has an id. Under that id the registry keeps the
//! flag by which the task is asked to stop, and the handles of the external
//! processes that the task has started, so that a cancellation can both set
//! the flag and name the processes to terminate. A task's entries are made
//! when it starts and taken out together when it ends.

use crate::table::TaskTable;
use vstd::prelude::*;
use vstd::string::StringExecFns;

verus! {

/// The handle of an external process that a task has started.
#[derive(Debug, Clone, Copy, PartialEq, Eq, Structural)]
pub struct ProcessHandle {
    pub id: u64,
}

/// What a registry holds: the flag of each task that has one, and the
/// handles of each task that has registered a process, in the order in which
/// they were registered.
pub struct RegistryState {
    pub flags: Map<Seq<char>, bool>,
    pub processes: Map<Seq<char>, Seq<ProcessHandle>>,
}

impl RegistryState {
    /// Whether the flag of the task reads as set. A task without a flag was
    /// not asked to stop.
    pub open spec fn cancelled(self, task: Seq<char>) -> bool {
        self.flags.contains_key(task) && self.flags[task]
    }

    /// The processes registered for the task, oldest first.
    pub open spec fn handles(self, task: Seq<char>) -> Seq<ProcessHandle> {
        if self.processes.contains_key(task) {
            self.processes[task]
        } else {
            Seq::empty()
        }
    }

    /// The state after the flag of the task was made anew: it reads unset.
    pub open spec fn reset(self, task: Seq<char>) -> RegistryState {
        RegistryState { flags: self.flags.insert(task, false), processes: self.processes }
    }

    /// The state after the flag of the task was looked up: a task without a
    /// flag has got one, unset.
    pub open spec fn touched(self, task: Seq<char>) -> RegistryState {
        if self.flags.contains_key(task) {
            self
        } else {
            self.reset(task)
        }
    }

    /// The state after the task was asked to stop.
    pub open spec fn cancel_requested(self, task: Seq<char>) -> RegistryState {
        RegistryState { flags: self.flags.insert(task, true), processes: self.processes }
    }

    /// The state after a process was registered for the task.
    pub open spec fn registered(self, task: Seq<char>, handle: ProcessHandle) -> RegistryState {
        RegistryState {
            flags: self.flags,
            processes: self.processes.insert(task, self.handles(task).push(handle)),
        }
    }

    /// The state after the flag of the task was taken out.
    pub open spec fn flag_removed(self, task: Seq<char>) -> RegistryState {
        RegistryState { flags: self.flags.remove(task), processes: self.processes }
    }

    /// The state after the processes of the task were forgotten.
    pub open spec fn processes_cleared(self, task: Seq<char>) -> RegistryState {
        RegistryState { flags: self.flags, processes: self.processes.remove(task) }
    }

    /// The state after the task has ended: neither its flag nor its
    /// processes are left.
    pub open spec fn released(self, task: Seq<char>) -> RegistryState {
        self.flag_removed(task).processes_cleared(task)
    }
}

/// The flag and process tables of the application.
pub struct TaskRegistry {
    flags: TaskTable<bool>,
    processes: TaskTable<Vec<ProcessHandle>>,
}

impl View for TaskRegistry {
    type V = RegistryState;

    closed spec fn view(&self) -> RegistryState {
        RegistryState {
            flags: self.flags@,
            processes: self.processes@.map_values(|list: Vec<ProcessHandle>| list@),
        }
    }
}

impl TaskRegistry {
    /// A registry that knows no task.
    pub fn new() -> (registry: Self)
        ensures
            registry@.flags == Map::<Seq<char>, bool>::empty(),
            registry@.processes == Map::<Seq<char>, Seq<ProcessHandle>>::empty(),
    {
        let registry = TaskRegistry { flags: TaskTable::new(), processes: TaskTable::new() };
        assert(registry@.processes =~= Map::<Seq<char>, Seq<ProcessHandle>>::empty());
        registry
    }

    /// Whether the task was asked to stop. Changes nothing.
    pub fn is_cancelled(&self, task: &str) -> (yes: bool)
        ensures
            yes == self@.cancelled(task@),
    {
        match self.flags.get(task) {
            Some(flag) => *flag,
            None => false,
        }
    }

    /// Reads the flag of the task, giving it an unset flag if it has none.
    pub fn get_cancel_flag(&mut self, task: &str) -> (flag: bool)
        ensures
            flag == old(self)@.cancelled(task@),
            final(self)@ == old(self)@.touched(task@),
    {
        let current: Option<bool> = match self.flags.get(task) {
            Some(flag) => Some(*flag),
            None => None,
        };
        match current {
            Some(flag) => flag,
            None => {
                self.flags.set(task, false);
                false
            },
        }
    }

    /// Makes the flag of the task anew at the start of a run: whatever an
    /// earlier run under the same id left, the flag now reads unset.
    pub fn reset_cancel_flag(&mut self, task: &str)
        ensures
            final(self)@ == old(self)@.reset(task@),
    {
        self.flags.set(task, false);
    }

    /// Asks the task to stop by setting its flag. This stops nothing by
    /// itself: the task sees the flag when it next looks, and its processes
    /// run on until they are terminated.
    pub fn request_cancel(&mut self, task: &str)
        ensures
            final(self)@ == old(self)@.cancel_requested(task@),
    {
        self.flags.set(task, true);
    }

    /// Takes the flag of the task out.
    pub fn remove_cancel_flag(&mut self, task: &str)
        ensures
            final(self)@ == old(self)@.flag_removed(task@),
    {
        let _ = self.flags.remove(task);
    }

    /// Registers a process that the task has started, behind those
    /// registered before.
    pub fn register_child_process(&mut self, task: &str, handle: ProcessHandle)
        ensures
            final(self)@ == old(self)@.registered(task@, handle),
    {
        let ghost before = self.processes@;
        let mut list: Vec<ProcessHandle> = match self.processes.remove(task) {
            Some(list) => list,
            None => Vec::new(),
        };
        list.push(handle);
        self.processes.set(task, list);
        proof {
            let views = |list: Vec<ProcessHandle>| list@;
            assert(self.processes@ =~= before.insert(task@, list));
            assert(before.insert(task@, list).map_values(views) =~= before.map_values(views).insert(
                task@,
                list@,
            ));
        }
    }

    /// Forgets the processes of the task.
    pub fn clear_child_processes(&mut self, task: &str)
        ensures
            final(self)@ == old(self)@.processes_cleared(task@),
    {
        let ghost before = self.processes@;
        let _ = self.processes.remove(task);
        proof {
            let views = |list: Vec<ProcessHandle>| list@;
            assert(before.remove(task@).map_values(views) =~= before.map_values(views).remove(
                task@,
            ));
        }
    }

    /// Names the processes of the task, oldest first, for the caller to
    /// terminate each without waiting for it to exit. Changes nothing.
    pub fn kill_child_processes(&self, task: &str) -> (handles: Vec<ProcessHandle>)
        ensures
            handles@ == self@.handles(task@),
    {
        let mut handles: Vec<ProcessHandle> = Vec::new();
        match self.processes.get(task) {
            Some(list) => {
                let n: usize = list.len();
                let mut i: usize = 0;
                while i < n
                    invariant
                        i <= n,
                        n == list@.len(),
                        handles@ == list@.take(i as int),
                    decreases n - i,
                {
                    handles.push(list[i]);
                    assert(handles@ =~= list@.take(i + 1));
                    i = i + 1;
                }
                assert(list@.take(n as int) =~= list@);
            },
            None => {},
        }
        handles
    }

    /// Ends the task: takes out its flag and forgets its processes.
    pub fn release(&mut self, task: &str)
        ensures
            final(self)@ == old(self)@.released(task@),
    {
        self.remove_cancel_flag(task);
        self.clear_child_processes(task);
    }

    /// Cancels the task: sets its flag and names its processes for the
    /// caller to terminate at once.
    pub fn cancel(&mut self, task: &str) -> (handles: Vec<ProcessHandle>)
        ensures
            final(self)@ == old(self)@.cancel_requested(task@),
            handles@ == old(self)@.handles(task@),
    {
        self.request_cancel(task);
        self.kill_child_processes(task)
    }
}

/// Id of the task that processes a project; a request that names no project
/// means the task "default".
pub fn processing_task(project_id: Option<&str>) -> (task: String)
    ensures
        task@ == match project_id {
            Some(id) => id@,
            None => "default"@,
        },
{
    match project_id {
        Some(id) => String::from_str(id),
        None => String::from_str("default"),
    }
}

/// Id of the task that generates the preview of a project: the id of its
/// processing task behind "preview_".
pub fn preview_task(project_id: Option<&str>) -> (task: String)
    ensures
        task@ == "preview_"@ + match project_id {
            Some(id) => id@,
            None => "default"@,
        },
{
    let inner = processing_task(project_id);
    String::from_str("preview_").concat(inner.as_str())
}

/// Id of the task that detects persons in a project: the project's id
/// behind "det_".
pub fn detection_task(project_id: &str) -> (task: String)
    ensures
        task@ == "det_"@ + project_id@,
{
    String::from_str("det_").concat(project_id)
}

/// Cancels the processing of a project.
pub fn cancel_processing(registry: &mut TaskRegistry, project_id: Option<&str>) -> (handles: Vec<
    ProcessHandle,
>)
    ensures
        final(registry)@ == old(registry)@.cancel_requested(
            match project_id {
                Some(id) => id@,
                None => "default"@,
            },
        ),
        handles@ == old(registry)@.handles(
            match project_id {
                Some(id) => id@,
                None => "default"@,
            },
        ),
{
    let task = processing_task(project_id);
    registry.cancel(task.as_str())
}

/// Cancels the generation of a project's preview, and nothing else of the
/// project.
pub fn cancel_preview_generation(registry: &mut TaskRegistry, project_id: Option<&str>) -> (handles:
    Vec<ProcessHandle>)
    ensures
        final(registry)@ == old(registry)@.cancel_requested(
            "preview_"@ + match project_id {
                Some(id) => id@,
                None => "default"@,
            },
        ),
        handles@ == old(registry)@.handles(
            "preview_"@ + match project_id {
                Some(id) => id@,
                None => "default"@,
            },
        ),
{
    let task = preview_task(project_id);
    registry.cancel(task.as_str())
}

/// Cancels the detection of persons in a project, and nothing else of the
/// project.
pub fn cancel_detection(registry: &mut TaskRegistry, project_id: &str) -> (handles: Vec<
    ProcessHandle,
>)
    ensures
        final(registry)@ == old(registry)@.cancel_requested("det_"@ + project_id@),
        handles@ == old(registry)@.handles("det_"@ + project_id@),
{
    let task = detection_task(project_id);
    registry.cancel(task.as_str())
}

/// A flag made anew reads unset, also where the task was asked to stop
/// before.
pub proof fn lemma_reset_after_cancel_reads_unset(state: RegistryState, task: Seq<char>)
    ensures
        state.cancel_requested(task).cancelled(task),
        !state.cancel_requested(task).reset(task).cancelled(task),
        !state.reset(task).cancelled(task),
{
}

/// What is done under one task id leaves every other task as it was: its
/// flag reads the same and its processes are the same.
pub proof fn lemma_tasks_do_not_interfere(
    state: RegistryState,
    task: Seq<char>,
    other: Seq<char>,
    handle: ProcessHandle,
)
    requires
        task != other,
    ensures
        state.reset(task).cancelled(other) == state.cancelled(other),
        state.touched(task).cancelled(other) == state.cancelled(other),
        state.cancel_requested(task).cancelled(other) == state.cancelled(other),
        state.released(task).cancelled(other) == state.cancelled(other),
        state.registered(task, handle).handles(other) == state.handles(other),
        state.released(task).handles(other) == state.handles(other),
        state.reset(task).handles(other) == state.handles(other),
        state.cancel_requested(task).handles(other) == state.handles(other),
{
}

/// A task that has ended leaves nothing behind: its flag is gone, it reads
/// as not cancelled, and it has no processes. A flag and processes made
/// under the id afterwards start from nothing.
pub proof fn lemma_release_leaves_nothing(state: RegistryState, task: Seq<char>, handle: ProcessHandle)
    ensures
        !state.released(task).flags.contains_key(task),
        !state.released(task).processes.contains_key(task),
        !state.released(task).cancelled(task),
        state.released(task).handles(task) == Seq::<ProcessHandle>::empty(),
        state.released(task).registered(task, handle).handles(task) == seq![handle],
{
}

/// Asking a task to stop changes no list of processes, and registering a
/// process changes no flag.
pub proof fn lemma_flags_and_processes_are_apart(
    state: RegistryState,
    task: Seq<char>,
    handle: ProcessHandle,
)
    ensures
        state.cancel_requested(task).processes == state.processes,
        state.reset(task).processes == state.processes,
        state.registered(task, handle).flags == state.flags,
        state.registered(task, handle).handles(task) == state.handles(task).push(handle),
{
}

} // verus!
