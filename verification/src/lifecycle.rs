//! The server's lifecycle as a state machine.
//!
//! The machine decides; it does no I/O. Whoever runs the server performs the
//! action that a step returns and reports what happened next as an event.

use vstd::prelude::*;

verus! {

/// Where a server is in its life.
#[derive(Clone, Copy, Debug, PartialEq, Eq, Structural)]
pub enum Phase {
    /// Methods may be registered; nothing listens yet.
    Configuring,
    /// The socket is bound and the accept loop runs.
    Running,
    /// The interrupt was seen; no connection is accepted any more.
    Stopping,
    /// The accept loop is gone. Terminal.
    Stopped,
}

/// What happened outside.
#[derive(Clone, Copy, Debug, PartialEq, Eq, Structural)]
pub enum Event {
    /// The listening socket was bound.
    Bound,
    /// The listening socket could not be bound.
    BindFailed,
    /// A peer connected.
    Connection,
    /// The interrupt signal was raised.
    Interrupt,
    /// The accept loop has ended.
    LoopExited,
}

/// What to do next.
#[derive(Clone, Copy, Debug, PartialEq, Eq, Structural)]
pub enum Action {
    /// Start the accept loop.
    Accept,
    /// Report the failed start to the caller.
    Fail,
    /// Serve the connection to its end, then wait for the next event.
    Serve,
    /// Stop accepting and leave the accept loop.
    Close,
    /// Fire the cancellation signal: whoever waits may go on.
    Release,
    /// Nothing: the event means nothing in this phase. A connection that
    /// comes with it is dropped.
    Ignore,
}

/// The phase after an event.
pub open spec fn next_phase(phase: Phase, event: Event) -> Phase {
    match (phase, event) {
        (Phase::Configuring, Event::Bound) => Phase::Running,
        (Phase::Configuring, Event::BindFailed) => Phase::Stopped,
        (Phase::Configuring, Event::Interrupt) => Phase::Stopped,
        (Phase::Running, Event::Interrupt) => Phase::Stopping,
        (Phase::Stopping, Event::LoopExited) => Phase::Stopped,
        _ => phase,
    }
}

/// The action that an event asks for.
pub open spec fn action_of(phase: Phase, event: Event) -> Action {
    match (phase, event) {
        (Phase::Configuring, Event::Bound) => Action::Accept,
        (Phase::Configuring, Event::BindFailed) => Action::Fail,
        (Phase::Configuring, Event::Interrupt) => Action::Release,
        (Phase::Running, Event::Connection) => Action::Serve,
        (Phase::Running, Event::Interrupt) => Action::Close,
        (Phase::Stopping, Event::LoopExited) => Action::Release,
        _ => Action::Ignore,
    }
}

/// Whether a caller that waits for the server's end may go on: the server
/// has stopped, or was never started.
pub open spec fn wait_is_over(phase: Phase) -> bool {
    phase is Stopped || phase is Configuring
}

/// One step of the machine.
pub fn step(phase: Phase, event: Event) -> (r: (Phase, Action))
    ensures
        r.0 == next_phase(phase, event),
        r.1 == action_of(phase, event),
{
    match phase {
        Phase::Configuring => match event {
            Event::Bound => (Phase::Running, Action::Accept),
            Event::BindFailed => (Phase::Stopped, Action::Fail),
            Event::Interrupt => (Phase::Stopped, Action::Release),
            _ => (phase, Action::Ignore),
        },
        Phase::Running => match event {
            Event::Connection => (Phase::Running, Action::Serve),
            Event::Interrupt => (Phase::Stopping, Action::Close),
            _ => (phase, Action::Ignore),
        },
        Phase::Stopping => match event {
            Event::LoopExited => (Phase::Stopped, Action::Release),
            _ => (phase, Action::Ignore),
        },
        Phase::Stopped => (phase, Action::Ignore),
    }
}

/// Whether a waiting caller may go on in this phase.
pub fn may_stop_waiting(phase: Phase) -> (r: bool)
    ensures
        r == wait_is_over(phase),
{
    match phase {
        Phase::Stopped => true,
        Phase::Configuring => true,
        _ => false,
    }
}

/// The phase after a run of events.
pub open spec fn phase_after(start: Phase, events: Seq<Event>) -> Phase
    decreases events.len(),
{
    if events.len() == 0 {
        start
    } else {
        next_phase(phase_after(start, events.drop_last()), events.last())
    }
}

/// The action that the event at position `at` of a run asks for.
pub open spec fn action_at(start: Phase, events: Seq<Event>, at: int) -> Action {
    action_of(phase_after(start, events.take(at)), events[at])
}

/// A phase in which nothing is accepted, now or later.
pub open spec fn closed_for_good(phase: Phase) -> bool {
    phase is Stopping || phase is Stopped
}

/// Once closed, closed for ever.
proof fn lemma_closed_stays_closed(start: Phase, events: Seq<Event>, from: int, to: int)
    requires
        0 <= from <= to <= events.len(),
        closed_for_good(phase_after(start, events.take(from))),
    ensures
        closed_for_good(phase_after(start, events.take(to))),
    decreases to - from,
{
    if from < to {
        lemma_closed_stays_closed(start, events, from, to - 1);
        assert(events.take(to).drop_last() =~= events.take(to - 1));
    }
}

/// After the interrupt no connection is accepted: whatever the phase in
/// which a run of events starts, and whatever follows the interrupt, no later
/// event is answered by serving a connection or by starting the accept loop.
pub proof fn law_nothing_accepted_after_interrupt(
    start: Phase,
    events: Seq<Event>,
    interrupt: int,
    later: int,
)
    requires
        0 <= interrupt < later < events.len(),
        events[interrupt] == Event::Interrupt,
    ensures
        closed_for_good(phase_after(start, events.take(later))),
        action_at(start, events, later) != Action::Serve,
        action_at(start, events, later) != Action::Accept,
{
    assert(events.take(interrupt + 1).drop_last() =~= events.take(interrupt));
    lemma_closed_stays_closed(start, events, interrupt + 1, later);
}

/// While the accept loop is there, waiting is not over.
proof fn lemma_loop_exit_before_wait_ends(start: Phase, events: Seq<Event>, from: int)
    requires
        0 <= from <= events.len(),
        phase_after(start, events.take(from)) is Running || phase_after(
            start,
            events.take(from),
        ) is Stopping,
        wait_is_over(phase_after(start, events)),
    ensures
        exists|at: int| from <= at < events.len() && events[at] == Event::LoopExited,
    decreases events.len() - from,
{
    if from == events.len() {
        assert(events.take(from) =~= events);
    } else {
        assert(events.take(from + 1).drop_last() =~= events.take(from));
        if events[from] != Event::LoopExited {
            lemma_loop_exit_before_wait_ends(start, events, from + 1);
        }
    }
}

/// Waiting ends only once the accept loop has ended: if the loop was running
/// at some point of a run of events and waiting is over after the run, then
/// the loop's end was reported after that point.
pub proof fn law_wait_ends_after_loop_exit(start: Phase, events: Seq<Event>, running: int)
    requires
        0 <= running <= events.len(),
        phase_after(start, events.take(running)) is Running,
        wait_is_over(phase_after(start, events)),
    ensures
        exists|at: int| running <= at < events.len() && events[at] == Event::LoopExited,
{
    lemma_loop_exit_before_wait_ends(start, events, running);
}

} // verus!
