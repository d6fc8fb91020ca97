use musiccut::registry::{
    cancel_detection, cancel_preview_generation, cancel_processing, detection_task, preview_task,
    processing_task, ProcessHandle, TaskRegistry,
};
use musiccut::table::TaskTable;

fn handle(id: u64) -> ProcessHandle {
    ProcessHandle { id }
}

#[test]
fn reset_after_cancel_reads_unset() {
    let mut registry = TaskRegistry::new();
    registry.reset_cancel_flag("demo");
    assert!(!registry.is_cancelled("demo"));
    registry.request_cancel("demo");
    assert!(registry.is_cancelled("demo"));
    registry.reset_cancel_flag("demo");
    assert!(!registry.is_cancelled("demo"));
}

#[test]
fn unknown_task_is_not_cancelled() {
    let registry = TaskRegistry::new();
    assert!(!registry.is_cancelled("nobody"));
    assert!(registry.kill_child_processes("nobody").is_empty());
}

#[test]
fn cancel_before_start_is_cleared_by_the_start() {
    let mut registry = TaskRegistry::new();
    registry.request_cancel("demo");
    assert!(registry.is_cancelled("demo"));
    registry.reset_cancel_flag("demo");
    assert!(!registry.is_cancelled("demo"));
}

#[test]
fn get_cancel_flag_makes_an_unset_flag() {
    let mut registry = TaskRegistry::new();
    assert!(!registry.get_cancel_flag("demo"));
    assert!(!registry.is_cancelled("demo"));
    registry.request_cancel("demo");
    assert!(registry.get_cancel_flag("demo"));
    assert!(registry.is_cancelled("demo"));
}

#[test]
fn tasks_do_not_interfere() {
    let mut registry = TaskRegistry::new();
    registry.reset_cancel_flag("demo");
    registry.reset_cancel_flag("other");
    registry.register_child_process("demo", handle(1));
    registry.register_child_process("other", handle(2));
    let killed = registry.cancel("demo");
    assert_eq!(killed, vec![handle(1)]);
    assert!(registry.is_cancelled("demo"));
    assert!(!registry.is_cancelled("other"));
    assert_eq!(registry.kill_child_processes("other"), vec![handle(2)]);
    registry.release("demo");
    assert!(!registry.is_cancelled("other"));
    assert_eq!(registry.kill_child_processes("other"), vec![handle(2)]);
}

#[test]
fn processes_are_named_in_order_of_registration() {
    let mut registry = TaskRegistry::new();
    registry.register_child_process("demo", handle(30));
    registry.register_child_process("demo", handle(10));
    registry.register_child_process("demo", handle(20));
    assert_eq!(registry.kill_child_processes("demo"), vec![handle(30), handle(10), handle(20)]);
    // Naming them changes nothing.
    assert_eq!(registry.kill_child_processes("demo"), vec![handle(30), handle(10), handle(20)]);
}

#[test]
fn release_leaves_nothing_behind() {
    let mut registry = TaskRegistry::new();
    registry.reset_cancel_flag("demo");
    registry.register_child_process("demo", handle(1));
    registry.request_cancel("demo");
    registry.release("demo");
    assert!(!registry.is_cancelled("demo"));
    assert!(registry.kill_child_processes("demo").is_empty());
    registry.register_child_process("demo", handle(2));
    assert_eq!(registry.kill_child_processes("demo"), vec![handle(2)]);
    // Releasing a task that is not there is harmless.
    registry.release("nobody");
    assert_eq!(registry.kill_child_processes("demo"), vec![handle(2)]);
}

#[test]
fn flag_and_processes_can_be_taken_out_apart() {
    let mut registry = TaskRegistry::new();
    registry.request_cancel("demo");
    registry.register_child_process("demo", handle(1));
    registry.remove_cancel_flag("demo");
    assert!(!registry.is_cancelled("demo"));
    assert_eq!(registry.kill_child_processes("demo"), vec![handle(1)]);
    registry.request_cancel("demo");
    registry.clear_child_processes("demo");
    assert!(registry.is_cancelled("demo"));
    assert!(registry.kill_child_processes("demo").is_empty());
}

#[test]
fn task_ids() {
    assert_eq!(processing_task(Some("demo")), "demo");
    assert_eq!(processing_task(None), "default");
    assert_eq!(preview_task(Some("demo")), "preview_demo");
    assert_eq!(preview_task(None), "preview_default");
    assert_eq!(detection_task("demo"), "det_demo");
}

#[test]
fn cancelling_one_kind_of_task_leaves_the_others() {
    let mut registry = TaskRegistry::new();
    for task in ["demo", "preview_demo", "det_demo", "default"] {
        registry.reset_cancel_flag(task);
    }
    registry.register_child_process("demo", handle(1));
    registry.register_child_process("preview_demo", handle(2));
    registry.register_child_process("det_demo", handle(3));
    registry.register_child_process("default", handle(4));

    assert_eq!(cancel_preview_generation(&mut registry, Some("demo")), vec![handle(2)]);
    assert!(registry.is_cancelled("preview_demo"));
    assert!(!registry.is_cancelled("demo"));
    assert!(!registry.is_cancelled("det_demo"));

    assert_eq!(cancel_detection(&mut registry, "demo"), vec![handle(3)]);
    assert!(registry.is_cancelled("det_demo"));
    assert!(!registry.is_cancelled("demo"));

    assert_eq!(cancel_processing(&mut registry, None), vec![handle(4)]);
    assert!(registry.is_cancelled("default"));
    assert!(!registry.is_cancelled("demo"));

    assert_eq!(cancel_processing(&mut registry, Some("demo")), vec![handle(1)]);
    assert!(registry.is_cancelled("demo"));
}

#[test]
fn table_holds_one_value_for_each_key() {
    let mut table: TaskTable<u32> = TaskTable::new();
    assert!(!table.contains("a"));
    assert_eq!(table.get("a"), None);
    table.set("a", 1);
    table.set("b", 2);
    table.set("a", 3);
    assert_eq!(table.get("a"), Some(&3));
    assert_eq!(table.get("b"), Some(&2));
    assert_eq!(table.remove("a"), Some(3));
    assert_eq!(table.remove("a"), None);
    assert!(!table.contains("a"));
    assert!(table.contains("b"));
    assert_eq!(table.get("b"), Some(&2));
    table.set("", 9);
    assert_eq!(table.get(""), Some(&9));
}
