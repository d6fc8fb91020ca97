use musiccut::detection::detect_persons;
use musiccut::gate::{GateFamily, ResourceGates};
use musiccut::registry::{ProcessHandle, TaskRegistry};
use musiccut::separation::separate_vocals;
use musiccut::supervise::ProcessState;
use musiccut::task::{gated_task_step, TaskAction, TaskEvent, TaskPhase};

fn handle(id: u64) -> ProcessHandle {
    ProcessHandle { id }
}

#[test]
fn detection_runs_at_once_when_its_gate_is_free() {
    let mut gates = ResourceGates::new();
    let mut registry = TaskRegistry::new();
    let step = detect_persons(&mut gates, &mut registry, "a", TaskPhase::Idle, TaskEvent::Start);
    assert_eq!(step.phase, TaskPhase::Running);
    assert_eq!(step.action, TaskAction::Run);
    assert!(step.kill.is_empty());
    assert_eq!(gates.held(GateFamily::Detection), 1);
    assert_eq!(gates.held(GateFamily::Separation), 0);
}

#[test]
fn two_detections_never_run_together() {
    let mut gates = ResourceGates::new();
    let mut registry = TaskRegistry::new();
    let first = detect_persons(&mut gates, &mut registry, "a", TaskPhase::Idle, TaskEvent::Start);
    assert_eq!(first.action, TaskAction::Run);
    let second = detect_persons(&mut gates, &mut registry, "b", TaskPhase::Idle, TaskEvent::Start);
    assert_eq!(second.action, TaskAction::AnnounceAndWait);
    assert_eq!(second.phase, TaskPhase::Queued);
    // The second waits on without another announcement while the first runs.
    for _ in 0..3 {
        let step = detect_persons(&mut gates, &mut registry, "b", second.phase, TaskEvent::Waited);
        assert_eq!(step.action, TaskAction::Wait);
        assert_eq!(step.phase, TaskPhase::Queued);
        assert_eq!(gates.held(GateFamily::Detection), 1);
    }
    let step = detect_persons(
        &mut gates,
        &mut registry,
        "a",
        first.phase,
        TaskEvent::Looked(ProcessState::Exited { success: true }),
    );
    assert_eq!(step.action, TaskAction::Finish { success: true });
    assert_eq!(step.phase, TaskPhase::Running);
    assert_eq!(gates.held(GateFamily::Detection), 1);
    let step = detect_persons(&mut gates, &mut registry, "a", step.phase, TaskEvent::Stopped);
    assert_eq!(step.action, TaskAction::Release);
    assert_eq!(step.phase, TaskPhase::Ended);
    assert_eq!(gates.held(GateFamily::Detection), 0);
    let step = detect_persons(&mut gates, &mut registry, "b", TaskPhase::Queued, TaskEvent::Waited);
    assert_eq!(step.action, TaskAction::Run);
    assert_eq!(gates.held(GateFamily::Detection), 1);
}

#[test]
fn another_family_never_delays_a_task() {
    let mut gates = ResourceGates::new();
    let mut registry = TaskRegistry::new();
    let step = separate_vocals(&mut gates, &mut registry, Some("a"), TaskPhase::Idle, TaskEvent::Start);
    assert_eq!(step.action, TaskAction::Run);
    let step = detect_persons(&mut gates, &mut registry, "a", TaskPhase::Idle, TaskEvent::Start);
    assert_eq!(step.action, TaskAction::Run);
    assert_eq!(gates.held(GateFamily::Separation), 1);
    assert_eq!(gates.held(GateFamily::Detection), 1);
    let step = separate_vocals(&mut gates, &mut registry, None, TaskPhase::Idle, TaskEvent::Start);
    assert_eq!(step.action, TaskAction::AnnounceAndWait);
    let step = detect_persons(&mut gates, &mut registry, "a", TaskPhase::Running, TaskEvent::Stopped);
    assert_eq!(step.action, TaskAction::Release);
    let step = separate_vocals(&mut gates, &mut registry, None, TaskPhase::Queued, TaskEvent::Waited);
    assert_eq!(step.action, TaskAction::Wait);
    assert_eq!(gates.held(GateFamily::Detection), 0);
}

#[test]
fn task_cancelled_in_the_queue_gives_up_without_the_slot() {
    let mut gates = ResourceGates::new();
    let mut registry = TaskRegistry::new();
    detect_persons(&mut gates, &mut registry, "a", TaskPhase::Idle, TaskEvent::Start);
    let queued = detect_persons(&mut gates, &mut registry, "b", TaskPhase::Idle, TaskEvent::Start);
    assert_eq!(queued.phase, TaskPhase::Queued);
    registry.request_cancel("det_b");
    let step = detect_persons(&mut gates, &mut registry, "b", queued.phase, TaskEvent::Waited);
    assert_eq!(step.action, TaskAction::Cancel);
    assert_eq!(step.phase, TaskPhase::Ended);
    assert_eq!(gates.held(GateFamily::Detection), 1);
    assert!(!registry.is_cancelled("det_b"));
    // Not even where the slot is free by then.
    let mut gates = ResourceGates::new();
    registry.request_cancel("det_b");
    let step = detect_persons(&mut gates, &mut registry, "b", TaskPhase::Queued, TaskEvent::Waited);
    assert_eq!(step.action, TaskAction::Cancel);
    assert_eq!(gates.held(GateFamily::Detection), 0);
    // A task that is over answers nothing more.
    let step = detect_persons(&mut gates, &mut registry, "b", step.phase, TaskEvent::Waited);
    assert_eq!(step.action, TaskAction::Nothing);
    assert_eq!(step.phase, TaskPhase::Ended);
    assert_eq!(gates.held(GateFamily::Detection), 0);
}

#[test]
fn start_makes_the_flag_anew() {
    let mut gates = ResourceGates::new();
    let mut registry = TaskRegistry::new();
    registry.request_cancel("det_a");
    let step = detect_persons(&mut gates, &mut registry, "a", TaskPhase::Idle, TaskEvent::Start);
    assert_eq!(step.action, TaskAction::Run);
    assert!(!registry.is_cancelled("det_a"));
}

#[test]
fn flag_set_while_the_program_runs_ends_the_task() {
    for state in [
        ProcessState::Running,
        ProcessState::Exited { success: true },
        ProcessState::Unknown,
        ProcessState::Gone,
    ] {
        let mut gates = ResourceGates::new();
        let mut registry = TaskRegistry::new();
        let step = detect_persons(&mut gates, &mut registry, "a", TaskPhase::Idle, TaskEvent::Start);
        registry.register_child_process("det_a", handle(7));
        registry.register_child_process("det_a", handle(9));
        registry.register_child_process("det_b", handle(1));
        registry.request_cancel("det_a");
        let step = detect_persons(&mut gates, &mut registry, "a", step.phase, TaskEvent::Looked(state));
        assert_eq!(step.action, TaskAction::KillAndCancel);
        assert_eq!(step.kill, vec![handle(7), handle(9)]);
        assert_eq!(step.phase, TaskPhase::Ended);
        assert_eq!(gates.held(GateFamily::Detection), 0);
        assert!(!registry.is_cancelled("det_a"));
        assert!(registry.kill_child_processes("det_a").is_empty());
        assert_eq!(registry.kill_child_processes("det_b"), vec![handle(1)]);
    }
}

#[test]
fn running_task_follows_its_process() {
    let mut gates = ResourceGates::new();
    let mut registry = TaskRegistry::new();
    let task = "x";
    let family = GateFamily::Separation;
    let step = gated_task_step(&mut gates, &mut registry, family, task, TaskPhase::Idle, TaskEvent::Start);
    registry.register_child_process(task, handle(3));
    let step = gated_task_step(
        &mut gates,
        &mut registry,
        family,
        task,
        step.phase,
        TaskEvent::Looked(ProcessState::Running),
    );
    assert_eq!((step.phase, step.action), (TaskPhase::Running, TaskAction::Watch));
    assert!(step.kill.is_empty());
    let step = gated_task_step(
        &mut gates,
        &mut registry,
        family,
        task,
        step.phase,
        TaskEvent::Looked(ProcessState::Exited { success: false }),
    );
    assert_eq!((step.phase, step.action), (TaskPhase::Running, TaskAction::Finish { success: false }));
    assert_eq!(gates.held(family), 1);
    let step = gated_task_step(
        &mut gates,
        &mut registry,
        family,
        task,
        step.phase,
        TaskEvent::Looked(ProcessState::Unknown),
    );
    assert_eq!((step.phase, step.action), (TaskPhase::Ended, TaskAction::KillAndFail));
    assert_eq!(step.kill, vec![handle(3)]);
    assert_eq!(gates.held(family), 0);
    assert!(registry.kill_child_processes(task).is_empty());
}

#[test]
fn process_that_is_gone_means_cancelled() {
    let mut gates = ResourceGates::new();
    let mut registry = TaskRegistry::new();
    let step = separate_vocals(&mut gates, &mut registry, None, TaskPhase::Idle, TaskEvent::Start);
    let step = separate_vocals(
        &mut gates,
        &mut registry,
        None,
        step.phase,
        TaskEvent::Looked(ProcessState::Gone),
    );
    assert_eq!((step.phase, step.action), (TaskPhase::Ended, TaskAction::Cancel));
    assert_eq!(gates.held(GateFamily::Separation), 0);
}

#[test]
fn queued_task_that_is_over_is_released_without_a_slot() {
    let mut gates = ResourceGates::new();
    let mut registry = TaskRegistry::new();
    detect_persons(&mut gates, &mut registry, "a", TaskPhase::Idle, TaskEvent::Start);
    let queued = detect_persons(&mut gates, &mut registry, "b", TaskPhase::Idle, TaskEvent::Start);
    registry.request_cancel("det_b");
    let step = detect_persons(&mut gates, &mut registry, "b", queued.phase, TaskEvent::Stopped);
    assert_eq!((step.phase, step.action), (TaskPhase::Ended, TaskAction::Release));
    assert_eq!(gates.held(GateFamily::Detection), 1);
    assert!(!registry.is_cancelled("det_b"));
}

#[test]
fn reports_that_do_not_fit_change_nothing() {
    let mut gates = ResourceGates::new();
    let mut registry = TaskRegistry::new();
    registry.request_cancel("det_a");
    for (phase, event) in [
        (TaskPhase::Idle, TaskEvent::Waited),
        (TaskPhase::Idle, TaskEvent::Stopped),
        (TaskPhase::Idle, TaskEvent::Looked(ProcessState::Running)),
        (TaskPhase::Queued, TaskEvent::Start),
        (TaskPhase::Running, TaskEvent::Start),
        (TaskPhase::Running, TaskEvent::Waited),
        (TaskPhase::Ended, TaskEvent::Start),
        (TaskPhase::Ended, TaskEvent::Stopped),
    ] {
        let step = detect_persons(&mut gates, &mut registry, "a", phase, event);
        assert_eq!((step.phase, step.action), (phase, TaskAction::Nothing));
        assert_eq!(gates.held(GateFamily::Detection), 0);
        assert!(registry.is_cancelled("det_a"));
    }
}
