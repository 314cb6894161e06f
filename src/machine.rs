//! The life cycle that both entry programs share: the boot collaborator
//! hands control over, the program runs its one-shot body, and then it
//! halts for good, whether the body finished or a fault struck.

use vstd::prelude::*;

verus! {

/// Where a program stands in its life cycle.
#[derive(Clone, Copy, Debug, PartialEq, Eq, Structural)]
pub enum Phase {
    /// Before the hand-off; the firmware or boot loader owns the machine.
    Initializing,
    /// The program's body is executing.
    Running,
    /// The terminal idle spin: nothing more happens until a reset.
    Halted,
}

/// What can happen to a program.
#[derive(Clone, Copy, Debug, PartialEq, Eq, Structural)]
pub enum Event {
    /// The boot collaborator transfers control to the program.
    HandOff,
    /// The program's body has run to its end.
    BodyDone,
    /// An unrecoverable fault reached the fault handler.
    Fault,
    /// Time passes.
    Tick,
}

/// The phase after `e` happens in phase `p`.
pub open spec fn next_spec(p: Phase, e: Event) -> Phase {
    match (p, e) {
        (Phase::Halted, _) => Phase::Halted,
        (_, Event::Fault) => Phase::Halted,
        (Phase::Initializing, Event::HandOff) => Phase::Running,
        (Phase::Running, Event::BodyDone) => Phase::Halted,
        _ => p,
    }
}

/// The phase after each of `events` has happened in turn, from `p`.
pub open spec fn run_events(p: Phase, events: Seq<Event>) -> Phase
    decreases events.len(),
{
    if events.len() == 0 {
        p
    } else {
        run_events(next_spec(p, events[0]), events.drop_first())
    }
}

/// The phase after `e` happens in phase `p`.
pub fn next_phase(p: Phase, e: Event) -> (r: Phase)
    ensures
        r == next_spec(p, e),
{
    match (p, e) {
        (Phase::Halted, _) => Phase::Halted,
        (_, Event::Fault) => Phase::Halted,
        (Phase::Initializing, Event::HandOff) => Phase::Running,
        (Phase::Running, Event::BodyDone) => Phase::Halted,
        _ => p,
    }
}

/// The fault handler: whatever the phase, a fault ends in the idle spin.
pub fn handle_fault(p: Phase) -> (r: Phase)
    ensures
        r == Phase::Halted,
        r == next_spec(p, Event::Fault),
{
    next_phase(p, Event::Fault)
}

/// Halted is terminal: no sequence of events, however long, leads out of it,
/// so control never comes back to whoever started the program.
pub proof fn lemma_halted_is_terminal(events: Seq<Event>)
    ensures
        run_events(Phase::Halted, events) == Phase::Halted,
    decreases events.len(),
{
    if events.len() > 0 {
        lemma_halted_is_terminal(events.drop_first());
    }
}

} // verus!
