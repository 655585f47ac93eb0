//! The life cycle of the shell: the phase it is in, what may happen there,
//! and what the program has to do when it happens.
//!
//! The shell starts `Uninitialized`. Building the GUI host either succeeds,
//! and the shell is `Running` and serves its operations from the event loop,
//! or fails, and the shell is `Terminated` by a fatal error. A running shell
//! is `Terminated` when the event loop returns or when the front end asks for
//! the exit. Nothing happens to a terminated shell.

use vstd::prelude::*;

verus! {

/// The exit status of a shell that ended in good order.
pub const EXIT_SUCCESS: i32 = 0;

/// Where the shell stands in its life.
#[derive(Clone, Copy, Debug, PartialEq, Eq, Structural)]
pub enum Phase {
    /// The GUI host has not been built yet.
    Uninitialized,
    /// The event loop runs and the operations can be invoked.
    Running,
    /// The process is over, or about to be.
    Terminated,
}

/// What the program reports to the life cycle.
#[derive(Clone, Copy, Debug, PartialEq, Eq, Structural)]
pub enum Event {
    /// The host context was built and the operations were registered.
    HostReady,
    /// The host context could not be built.
    HostFailed,
    /// The event loop returned, as when the user closes the window.
    LoopExited,
    /// The front end invoked the exit operation.
    ExitRequested,
}

/// What the program has to do after an event.
#[derive(Clone, Copy, Debug, PartialEq, Eq, Structural)]
pub enum Effect {
    /// Enter the event loop and serve the operations.
    RunLoop,
    /// End the process at once with this exit status.
    Exit { status: i32 },
    /// Abort the process with a fatal error.
    Abort,
}

/// One move of the life cycle: the phase it leads to and what is to be done.
#[derive(Clone, Copy, Debug, PartialEq, Eq, Structural)]
pub struct Transition {
    pub next: Phase,
    pub effect: Effect,
}

/// The moves of the life cycle. An event that has no move in a phase cannot
/// happen there, and is `None`.
pub open spec fn transition(phase: Phase, event: Event) -> Option<Transition> {
    match (phase, event) {
        (Phase::Uninitialized, Event::HostReady) => Some(
            Transition { next: Phase::Running, effect: Effect::RunLoop },
        ),
        (Phase::Uninitialized, Event::HostFailed) => Some(
            Transition { next: Phase::Terminated, effect: Effect::Abort },
        ),
        (Phase::Running, Event::LoopExited) | (Phase::Running, Event::ExitRequested) => Some(
            Transition { next: Phase::Terminated, effect: Effect::Exit { status: EXIT_SUCCESS } },
        ),
        _ => None,
    }
}

/// The operations can be invoked in this phase.
pub open spec fn operations_reachable(phase: Phase) -> bool {
    phase == Phase::Running
}

/// The phase that the shell is in after `events`, taken in order from
/// `start`. An event without a move leaves the phase as it is.
pub open spec fn phase_after(start: Phase, events: Seq<Event>) -> Phase
    decreases events.len(),
{
    if events.len() == 0 {
        start
    } else {
        let next = match transition(start, events[0]) {
            Some(moved) => moved.next,
            None => start,
        };
        phase_after(next, events.drop_first())
    }
}

/// Decides what follows from `event` in `phase`: the next phase and what the
/// program has to do, or `None` where the event has no move in that phase.
pub fn step(phase: Phase, event: Event) -> (outcome: Option<Transition>)
    ensures
        outcome == transition(phase, event),
{
    match phase {
        Phase::Uninitialized => match event {
            Event::HostReady => Some(Transition { next: Phase::Running, effect: Effect::RunLoop }),
            Event::HostFailed => Some(
                Transition { next: Phase::Terminated, effect: Effect::Abort },
            ),
            Event::LoopExited | Event::ExitRequested => None,
        },
        Phase::Running => match event {
            Event::LoopExited | Event::ExitRequested => Some(
                Transition {
                    next: Phase::Terminated,
                    effect: Effect::Exit { status: EXIT_SUCCESS },
                },
            ),
            Event::HostReady | Event::HostFailed => None,
        },
        Phase::Terminated => None,
    }
}

/// Termination is final: no event has a move in `Terminated`, and whatever
/// is reported afterwards, the shell stays terminated.
pub proof fn lemma_terminated_is_final(events: Seq<Event>)
    ensures
        forall|event: Event| transition(Phase::Terminated, event) is None,
        phase_after(Phase::Terminated, events) == Phase::Terminated,
    decreases events.len(),
{
    if events.len() > 0 {
        lemma_terminated_is_final(events.drop_first());
    }
}

/// The exit operation ends the shell with success: wherever it has a move,
/// the move is to `Terminated` with exit status 0, and nothing reported
/// after it brings the operations back.
pub proof fn lemma_exit_request_terminates(phase: Phase, later: Seq<Event>)
    requires
        transition(phase, Event::ExitRequested) is Some,
    ensures
        phase == Phase::Running,
        transition(phase, Event::ExitRequested) == Some(
            Transition { next: Phase::Terminated, effect: Effect::Exit { status: 0 } },
        ),
        phase_after(phase, seq![Event::ExitRequested] + later) == Phase::Terminated,
        !operations_reachable(phase_after(phase, seq![Event::ExitRequested] + later)),
{
    let events = seq![Event::ExitRequested] + later;
    assert(events[0] == Event::ExitRequested);
    assert(events.drop_first() =~= later);
    lemma_terminated_is_final(later);
}

/// A failed start never serves an operation: no operation can be invoked
/// before the host is built, the move is to `Terminated` with a fatal error,
/// and nothing reported after it brings the shell to run.
pub proof fn lemma_failed_start_never_runs(later: Seq<Event>)
    ensures
        !operations_reachable(Phase::Uninitialized),
        transition(Phase::Uninitialized, Event::HostFailed) == Some(
            Transition { next: Phase::Terminated, effect: Effect::Abort },
        ),
        phase_after(Phase::Uninitialized, seq![Event::HostFailed] + later) == Phase::Terminated,
        !operations_reachable(
            phase_after(Phase::Uninitialized, seq![Event::HostFailed] + later),
        ),
{
    let events = seq![Event::HostFailed] + later;
    assert(events[0] == Event::HostFailed);
    assert(events.drop_first() =~= later);
    lemma_terminated_is_final(later);
}

/// What the moves ask for: the event loop is entered exactly by the move to
/// `Running`, the process is ended only from a running shell and only with
/// status 0, and a fatal error is raised exactly for a failed start.
pub proof fn lemma_effect_of_each_move(phase: Phase, event: Event)
    ensures
        transition(phase, event) matches Some(moved) ==> {
            &&& moved.effect == Effect::RunLoop <==> moved.next == Phase::Running
            &&& moved.effect matches Effect::Exit { status } ==> status == 0 && phase
                == Phase::Running
            &&& moved.effect == Effect::Abort <==> phase == Phase::Uninitialized && event
                == Event::HostFailed
        },
{
}

} // verus!
