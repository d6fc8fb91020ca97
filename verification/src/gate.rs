//! Admission to a scarce resource.
//!
//! A gate admits as many holders at a time as it has slots. Each family of
//! tasks that needs the GPU has a gate of its own with one slot, so that two
//! tasks of one family never run at once, while tasks of different families
//! never wait for each other.

use vstd::prelude::*;

verus! {

/// Time between two looks at a gate while waiting for it, in milliseconds.
pub const GATE_POLL_INTERVAL: u64 = 200;

/// What a gate holds: its number of slots and how many of them are taken.
pub struct GateState {
    pub capacity: nat,
    pub held: nat,
}

impl GateState {
    /// Whether a slot is free.
    pub open spec fn admits(self) -> bool {
        self.held < self.capacity
    }

    /// The state after a slot was taken.
    pub open spec fn acquired(self) -> GateState {
        GateState { capacity: self.capacity, held: self.held + 1 }
    }

    /// The state after a slot was given back.
    pub open spec fn released(self) -> GateState {
        GateState { capacity: self.capacity, held: (self.held - 1) as nat }
    }

    /// The state after an attempt to take a slot: taken if one was free,
    /// unchanged if none was.
    pub open spec fn attempted(self) -> GateState {
        if self.admits() {
            self.acquired()
        } else {
            self
        }
    }
}

/// A counting gate. Never are more slots taken than it has.
#[derive(Debug)]
pub struct ResourceGate {
    capacity: u32,
    held: u32,
}

impl View for ResourceGate {
    type V = GateState;

    closed spec fn view(&self) -> GateState {
        GateState { capacity: self.capacity as nat, held: self.held as nat }
    }
}

impl ResourceGate {
    #[verifier::type_invariant]
    spec fn within_capacity(self) -> bool {
        self.held <= self.capacity
    }

    /// A gate with `capacity` slots, all free.
    pub fn new(capacity: u32) -> (gate: Self)
        ensures
            gate@.capacity == capacity,
            gate@.held == 0,
    {
        ResourceGate { capacity, held: 0 }
    }

    /// A gate with one slot: whoever holds it holds the resource alone.
    pub fn exclusive() -> (gate: Self)
        ensures
            gate@.capacity == 1,
            gate@.held == 0,
    {
        ResourceGate::new(1)
    }

    /// Number of slots.
    pub fn capacity(&self) -> (n: u32)
        ensures
            n == self@.capacity,
    {
        self.capacity
    }

    /// Number of slots taken, which is never more than there are.
    pub fn held(&self) -> (n: u32)
        ensures
            n == self@.held,
            self@.held <= self@.capacity,
    {
        proof {
            use_type_invariant(self);
        }
        self.held
    }

    /// Takes a slot if one is free, without waiting. Says whether it did.
    pub fn try_acquire(&mut self) -> (taken: bool)
        ensures
            taken == old(self)@.admits(),
            final(self)@ == old(self)@.attempted(),
    {
        proof {
            use_type_invariant(&*self);
        }
        if self.held < self.capacity {
            self.held = self.held + 1;
            true
        } else {
            false
        }
    }

    /// Gives a slot back. Only a holder does so.
    pub fn release(&mut self)
        requires
            old(self)@.held > 0,
        ensures
            final(self)@ == old(self)@.released(),
    {
        proof {
            use_type_invariant(&*self);
        }
        self.held = self.held - 1;
    }
}

/// Where a request for a slot stands.
#[derive(Debug, Clone, Copy, PartialEq, Eq, Structural)]
pub enum AcquireStep {
    /// The slot is taken: go on with the work, and give the slot back when
    /// it is done.
    Acquired,
    /// No slot is free: look again after [`GATE_POLL_INTERVAL`].
    Queued,
    /// The task was cancelled while it waited: give up, with no slot taken.
    Cancelled,
}

/// Starts a request for a slot: takes one if it is free. A request that is
/// queued here is announced once, and then waits by [`poll_acquire`].
pub fn begin_acquire(gate: &mut ResourceGate) -> (step: AcquireStep)
    ensures
        step == if old(gate)@.admits() {
            AcquireStep::Acquired
        } else {
            AcquireStep::Queued
        },
        final(gate)@ == old(gate)@.attempted(),
{
    if gate.try_acquire() {
        AcquireStep::Acquired
    } else {
        AcquireStep::Queued
    }
}

/// Goes on with a queued request after the wait between two looks.
///
/// A task that was cancelled meanwhile gives up and takes no slot, free or
/// not. Otherwise the request takes a slot if one is free by now, and stays
/// queued if none is.
pub fn poll_acquire(gate: &mut ResourceGate, cancelled: bool) -> (step: AcquireStep)
    ensures
        step == if cancelled {
            AcquireStep::Cancelled
        } else if old(gate)@.admits() {
            AcquireStep::Acquired
        } else {
            AcquireStep::Queued
        },
        final(gate)@ == if cancelled {
            old(gate)@
        } else {
            old(gate)@.attempted()
        },
{
    if cancelled {
        AcquireStep::Cancelled
    } else {
        begin_acquire(gate)
    }
}

/// The families of tasks that each have the GPU to themselves.
#[derive(Debug, Clone, Copy, PartialEq, Eq, Structural)]
pub enum GateFamily {
    /// Vocal separation.
    Separation,
    /// Person detection.
    Detection,
}

/// What the gates of the families hold.
pub struct GatesState {
    pub separation: GateState,
    pub detection: GateState,
}

impl GatesState {
    /// The family's gate.
    pub open spec fn of(self, family: GateFamily) -> GateState {
        match family {
            GateFamily::Separation => self.separation,
            GateFamily::Detection => self.detection,
        }
    }

    /// The gates with that of the family replaced.
    pub open spec fn with(self, family: GateFamily, gate: GateState) -> GatesState {
        match family {
            GateFamily::Separation => GatesState { separation: gate, detection: self.detection },
            GateFamily::Detection => GatesState { separation: self.separation, detection: gate },
        }
    }
}

/// The gates of the application: one for each family, each with one slot.
#[derive(Debug)]
pub struct ResourceGates {
    separation: ResourceGate,
    detection: ResourceGate,
}

impl View for ResourceGates {
    type V = GatesState;

    closed spec fn view(&self) -> GatesState {
        GatesState { separation: self.separation@, detection: self.detection@ }
    }
}

impl ResourceGates {
    #[verifier::type_invariant]
    spec fn one_slot_each(self) -> bool {
        self.separation@.capacity == 1 && self.detection@.capacity == 1
    }

    /// The gates, all free.
    pub fn new() -> (gates: Self)
        ensures
            gates@.separation == (GateState { capacity: 1, held: 0 }),
            gates@.detection == (GateState { capacity: 1, held: 0 }),
    {
        ResourceGates { separation: ResourceGate::exclusive(), detection: ResourceGate::exclusive() }
    }

    /// Number of holders of the family's gate. Each gate has one slot, so
    /// there is never more than one.
    pub fn held(&self, family: GateFamily) -> (n: u32)
        ensures
            n == self@.of(family).held,
            self@.of(family).capacity == 1,
            n <= 1,
    {
        proof {
            use_type_invariant(self);
        }
        match family {
            GateFamily::Separation => self.separation.held(),
            GateFamily::Detection => self.detection.held(),
        }
    }

    /// Starts a request for the family's gate; see [`begin_acquire`]. The
    /// gates of the other families play no part and stay as they are.
    pub fn begin_acquire(&mut self, family: GateFamily) -> (step: AcquireStep)
        ensures
            step == if old(self)@.of(family).admits() {
                AcquireStep::Acquired
            } else {
                AcquireStep::Queued
            },
            final(self)@ == old(self)@.with(family, old(self)@.of(family).attempted()),
    {
        self.poll_acquire(family, false)
    }

    /// Goes on with a queued request for the family's gate; see
    /// [`poll_acquire`].
    pub fn poll_acquire(&mut self, family: GateFamily, cancelled: bool) -> (step: AcquireStep)
        ensures
            step == if cancelled {
                AcquireStep::Cancelled
            } else if old(self)@.of(family).admits() {
                AcquireStep::Acquired
            } else {
                AcquireStep::Queued
            },
            final(self)@ == if cancelled {
                old(self)@
            } else {
                old(self)@.with(family, old(self)@.of(family).attempted())
            },
    {
        proof {
            use_type_invariant(&*self);
        }
        let mut gate = ResourceGate::exclusive();
        match family {
            GateFamily::Separation => {
                core::mem::swap(&mut self.separation, &mut gate);
                let step = poll_acquire(&mut gate, cancelled);
                self.separation = gate;
                step
            },
            GateFamily::Detection => {
                core::mem::swap(&mut self.detection, &mut gate);
                let step = poll_acquire(&mut gate, cancelled);
                self.detection = gate;
                step
            },
        }
    }

    /// Gives the slot of the family's gate back. Only its holder does so.
    pub fn release(&mut self, family: GateFamily)
        requires
            old(self)@.of(family).held > 0,
        ensures
            final(self)@ == old(self)@.with(family, old(self)@.of(family).released()),
    {
        proof {
            use_type_invariant(&*self);
        }
        let mut gate = ResourceGate::exclusive();
        match family {
            GateFamily::Separation => {
                core::mem::swap(&mut self.separation, &mut gate);
                gate.release();
                self.separation = gate;
            },
            GateFamily::Detection => {
                core::mem::swap(&mut self.detection, &mut gate);
                gate.release();
                self.detection = gate;
            },
        }
    }
}

/// A gate with one slot has one holder at most: once the slot is taken, no
/// attempt takes it again until it is given back, and then the next attempt
/// does.
pub proof fn lemma_exclusive_gate_has_one_holder(gate: GateState)
    requires
        gate.capacity == 1,
        gate.held == 0,
    ensures
        gate.admits(),
        gate.attempted().held == 1,
        !gate.attempted().admits(),
        gate.attempted().attempted() == gate.attempted(),
        gate.attempted().released() == gate,
        gate.attempted().released().admits(),
{
}

/// No attempt takes a gate beyond its capacity.
pub proof fn lemma_attempt_keeps_within_capacity(gate: GateState)
    requires
        gate.held <= gate.capacity,
    ensures
        gate.attempted().held <= gate.attempted().capacity,
        gate.attempted().capacity == gate.capacity,
{
}

/// A cancelled request never takes a slot, and a request for one family's
/// gate is decided by that gate alone and leaves the other family's gate as
/// it is.
pub proof fn lemma_families_do_not_block_each_other(
    gates: GatesState,
    family: GateFamily,
    other: GateFamily,
)
    requires
        family != other,
    ensures
        gates.with(family, gates.of(family).attempted()).of(other) == gates.of(other),
        gates.with(family, gates.of(family).attempted()).of(family) == gates.of(family).attempted(),
        gates.with(other, gates.of(other).attempted()).of(family).admits() == gates.of(
            family,
        ).admits(),
{
}

} // verus!
