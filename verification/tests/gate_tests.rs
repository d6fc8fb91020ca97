use musiccut::gate::{
    begin_acquire, poll_acquire, AcquireStep, GateFamily, ResourceGate, ResourceGates,
    GATE_POLL_INTERVAL,
};

#[test]
fn exclusive_gate_has_one_holder() {
    let mut gate = ResourceGate::exclusive();
    assert_eq!(gate.capacity(), 1);
    assert_eq!(gate.held(), 0);
    assert!(gate.try_acquire());
    assert_eq!(gate.held(), 1);
    assert!(!gate.try_acquire());
    assert!(!gate.try_acquire());
    assert_eq!(gate.held(), 1);
    gate.release();
    assert_eq!(gate.held(), 0);
    assert!(gate.try_acquire());
}

#[test]
fn gate_admits_as_many_as_it_has_slots() {
    let mut gate = ResourceGate::new(3);
    assert!(gate.try_acquire());
    assert!(gate.try_acquire());
    assert!(gate.try_acquire());
    assert!(!gate.try_acquire());
    assert_eq!(gate.held(), 3);
    gate.release();
    assert!(gate.try_acquire());
    assert!(!gate.try_acquire());
}

#[test]
fn gate_without_slots_admits_nobody() {
    let mut gate = ResourceGate::new(0);
    assert!(!gate.try_acquire());
    assert_eq!(begin_acquire(&mut gate), AcquireStep::Queued);
    assert_eq!(gate.held(), 0);
}

#[test]
fn queued_request_takes_the_slot_when_it_is_free() {
    let mut gate = ResourceGate::exclusive();
    assert_eq!(begin_acquire(&mut gate), AcquireStep::Acquired);
    assert_eq!(begin_acquire(&mut gate), AcquireStep::Queued);
    assert_eq!(poll_acquire(&mut gate, false), AcquireStep::Queued);
    assert_eq!(poll_acquire(&mut gate, false), AcquireStep::Queued);
    gate.release();
    assert_eq!(poll_acquire(&mut gate, false), AcquireStep::Acquired);
    assert_eq!(gate.held(), 1);
}

#[test]
fn cancelled_request_takes_no_slot() {
    let mut gate = ResourceGate::exclusive();
    assert_eq!(begin_acquire(&mut gate), AcquireStep::Acquired);
    assert_eq!(begin_acquire(&mut gate), AcquireStep::Queued);
    assert_eq!(poll_acquire(&mut gate, true), AcquireStep::Cancelled);
    assert_eq!(gate.held(), 1);
    // Not even where the slot has become free meanwhile.
    gate.release();
    assert_eq!(poll_acquire(&mut gate, true), AcquireStep::Cancelled);
    assert_eq!(gate.held(), 0);
}

#[test]
fn families_do_not_block_each_other() {
    let mut gates = ResourceGates::new();
    assert_eq!(gates.begin_acquire(GateFamily::Separation), AcquireStep::Acquired);
    assert_eq!(gates.begin_acquire(GateFamily::Detection), AcquireStep::Acquired);
    assert_eq!(gates.held(GateFamily::Separation), 1);
    assert_eq!(gates.held(GateFamily::Detection), 1);
    assert_eq!(gates.begin_acquire(GateFamily::Separation), AcquireStep::Queued);
    assert_eq!(gates.begin_acquire(GateFamily::Detection), AcquireStep::Queued);
    gates.release(GateFamily::Detection);
    assert_eq!(gates.poll_acquire(GateFamily::Separation, false), AcquireStep::Queued);
    assert_eq!(gates.poll_acquire(GateFamily::Detection, false), AcquireStep::Acquired);
    assert_eq!(gates.poll_acquire(GateFamily::Separation, true), AcquireStep::Cancelled);
    assert_eq!(gates.held(GateFamily::Separation), 1);
    gates.release(GateFamily::Separation);
    assert_eq!(gates.held(GateFamily::Separation), 0);
    assert_eq!(gates.held(GateFamily::Detection), 1);
}

#[test]
fn waiting_looks_five_times_a_second() {
    assert_eq!(GATE_POLL_INTERVAL, 200);
}
