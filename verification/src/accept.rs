//! The accept loop's decisions. The loop accepts connections until shutdown
//! or the credential supervisor resolves, whichever comes first; that first
//! terminal event decides how the daemon stops. Live handlers are bounded: a
//! connection accepted at capacity is fast-closed (and its deny recorded off
//! the loop), never served. Either way the loop stops accepting, drains its
//! handlers (aborting the rest at the drain bound), drains the at-capacity
//! audit queue, and only then returns.
//!
//! `accept_step` takes the loop's state and the event that resolved and gives
//! the next state and action; the driver awaits the events and performs the
//! actions.
use vstd::prelude::*;

verus! {

/// Which terminal event ended the loop.
#[derive(Debug, Clone, Copy, PartialEq, Eq, Structural)]
pub enum LoopEnd {
    /// The shutdown signal resolved first.
    GracefulShutdown,
    /// The credential supervisor resolved first.
    SupervisorExited,
}

/// Where the accept loop stands.
#[derive(Debug, Clone, Copy, PartialEq, Eq, Structural)]
pub enum AcceptState {
    /// Accepting, with `in_flight` live handlers.
    Accepting { in_flight: u32 },
    /// Stopped accepting; `in_flight` handlers are still being drained.
    DrainingHandlers { end: LoopEnd, in_flight: u32 },
    /// Handlers drained; the at-capacity audit queue is being drained.
    DrainingAudit { end: LoopEnd },
    /// The loop returned.
    Returned { end: LoopEnd },
}

/// What resolved.
#[derive(Debug, Clone, Copy, PartialEq, Eq, Structural)]
pub enum AcceptEvent {
    /// The shutdown signal.
    ShutdownResolved,
    /// The credential supervisor's task.
    SupervisorResolved,
    /// A raw accept failed; nothing to serve.
    AcceptFailed,
    /// A raw connection was accepted.
    Accepted,
    /// A handler finished.
    HandlerDone,
    /// The handler drain reached its bound; the rest were aborted.
    HandlersAborted,
    /// The at-capacity audit queue was drained (or its drain aborted at its
    /// bound).
    AuditDrained,
}

/// What the driver must do next.
#[derive(Debug, Clone, Copy, PartialEq, Eq, Structural)]
pub enum AcceptAction {
    /// Wait for the next of shutdown, the supervisor, an accept or a handler's
    /// end, shutdown first when several are ready.
    Await,
    /// Serve the accepted connection in a handler of its own.
    SpawnHandler,
    /// Close the accepted connection at once and queue its at-capacity deny.
    FastClose,
    /// Wait, within the drain bound, for the live handlers to finish.
    DrainHandlers,
    /// Close the at-capacity audit queue and wait, within its bound, for it to
    /// drain.
    DrainAudit,
    /// Return how the loop ended.
    Return { end: LoopEnd },
}

/// Stop accepting for `end` with `in_flight` live handlers: drain them first
/// when there are any.
pub open spec fn stop(end: LoopEnd, in_flight: u32) -> (AcceptState, AcceptAction) {
    if in_flight == 0 {
        (AcceptState::DrainingAudit { end }, AcceptAction::DrainAudit)
    } else {
        (AcceptState::DrainingHandlers { end, in_flight }, AcceptAction::DrainHandlers)
    }
}

/// The step of the accept loop with at most `max_connections` live handlers.
pub open spec fn accept_stepped(max_connections: u32, state: AcceptState, event: AcceptEvent) -> (
    AcceptState,
    AcceptAction,
) {
    match state {
        AcceptState::Accepting { in_flight } => match event {
            AcceptEvent::ShutdownResolved => stop(LoopEnd::GracefulShutdown, in_flight),
            AcceptEvent::SupervisorResolved => stop(LoopEnd::SupervisorExited, in_flight),
            AcceptEvent::Accepted => if in_flight < max_connections {
                (AcceptState::Accepting { in_flight: (in_flight + 1) as u32 }, AcceptAction::SpawnHandler)
            } else {
                (state, AcceptAction::FastClose)
            },
            AcceptEvent::HandlerDone => (
                AcceptState::Accepting {
                    in_flight: if in_flight > 0 {
                        (in_flight - 1) as u32
                    } else {
                        0
                    },
                },
                AcceptAction::Await,
            ),
            _ => (state, AcceptAction::Await),
        },
        AcceptState::DrainingHandlers { end, in_flight } => match event {
            AcceptEvent::HandlerDone => if in_flight <= 1 {
                (AcceptState::DrainingAudit { end }, AcceptAction::DrainAudit)
            } else {
                (
                    AcceptState::DrainingHandlers { end, in_flight: (in_flight - 1) as u32 },
                    AcceptAction::DrainHandlers,
                )
            },
            AcceptEvent::HandlersAborted => (AcceptState::DrainingAudit { end }, AcceptAction::DrainAudit),
            _ => (state, AcceptAction::DrainHandlers),
        },
        AcceptState::DrainingAudit { end } => match event {
            AcceptEvent::AuditDrained => (AcceptState::Returned { end }, AcceptAction::Return { end }),
            _ => (state, AcceptAction::DrainAudit),
        },
        AcceptState::Returned { end } => (state, AcceptAction::Return { end }),
    }
}

/// The state the loop starts in.
pub open spec fn accept_start() -> AcceptState {
    AcceptState::Accepting { in_flight: 0 }
}

fn stop_for(end: LoopEnd, in_flight: u32) -> (r: (AcceptState, AcceptAction))
    ensures
        r == stop(end, in_flight),
{
    if in_flight == 0 {
        (AcceptState::DrainingAudit { end }, AcceptAction::DrainAudit)
    } else {
        (AcceptState::DrainingHandlers { end, in_flight }, AcceptAction::DrainHandlers)
    }
}

/// Step the accept loop.
pub fn accept_step(max_connections: u32, state: AcceptState, event: AcceptEvent) -> (r: (
    AcceptState,
    AcceptAction,
))
    ensures
        r == accept_stepped(max_connections, state, event),
{
    match state {
        AcceptState::Accepting { in_flight } => match event {
            AcceptEvent::ShutdownResolved => stop_for(LoopEnd::GracefulShutdown, in_flight),
            AcceptEvent::SupervisorResolved => stop_for(LoopEnd::SupervisorExited, in_flight),
            AcceptEvent::Accepted => {
                if in_flight < max_connections {
                    (AcceptState::Accepting { in_flight: in_flight + 1 }, AcceptAction::SpawnHandler)
                } else {
                    (state, AcceptAction::FastClose)
                }
            },
            AcceptEvent::HandlerDone => (
                AcceptState::Accepting {
                    in_flight: if in_flight > 0 {
                        in_flight - 1
                    } else {
                        0
                    },
                },
                AcceptAction::Await,
            ),
            _ => (state, AcceptAction::Await),
        },
        AcceptState::DrainingHandlers { end, in_flight } => match event {
            AcceptEvent::HandlerDone => {
                if in_flight <= 1 {
                    (AcceptState::DrainingAudit { end }, AcceptAction::DrainAudit)
                } else {
                    (
                        AcceptState::DrainingHandlers { end, in_flight: in_flight - 1 },
                        AcceptAction::DrainHandlers,
                    )
                }
            },
            AcceptEvent::HandlersAborted => (AcceptState::DrainingAudit { end }, AcceptAction::DrainAudit),
            _ => (state, AcceptAction::DrainHandlers),
        },
        AcceptState::DrainingAudit { end } => match event {
            AcceptEvent::AuditDrained => (AcceptState::Returned { end }, AcceptAction::Return { end }),
            _ => (state, AcceptAction::DrainAudit),
        },
        AcceptState::Returned { end } => (state, AcceptAction::Return { end }),
    }
}

/// How a stopped loop ended, if it has stopped.
pub open spec fn ended(state: AcceptState) -> Option<LoopEnd> {
    match state {
        AcceptState::Accepting { .. } => None,
        AcceptState::DrainingHandlers { end, .. } => Some(end),
        AcceptState::DrainingAudit { end } => Some(end),
        AcceptState::Returned { end } => Some(end),
    }
}

/// The first terminal event decides the outcome: while accepting, shutdown
/// ends the loop as a graceful shutdown and the supervisor as its exit; once
/// the loop has stopped, no event changes how it ended.
pub proof fn law_outcome_follows_the_first_terminal_event(
    max_connections: u32,
    state: AcceptState,
    event: AcceptEvent,
)
    ensures
        state is Accepting && event is ShutdownResolved ==> ended(
            accept_stepped(max_connections, state, event).0,
        ) == Some(LoopEnd::GracefulShutdown),
        state is Accepting && event is SupervisorResolved ==> ended(
            accept_stepped(max_connections, state, event).0,
        ) == Some(LoopEnd::SupervisorExited),
        state is Accepting && !(event is ShutdownResolved) && !(event is SupervisorResolved)
            ==> accept_stepped(max_connections, state, event).0 is Accepting,
        ended(state) is Some ==> ended(accept_stepped(max_connections, state, event).0) == ended(
            state,
        ),
{
}

/// Handlers are drained before the loop returns, whichever event ended it:
/// the loop returns only from the audit drain, which it enters only with no
/// live handler left, or once the handler drain was aborted at its bound.
pub proof fn law_return_only_after_both_drains(
    max_connections: u32,
    state: AcceptState,
    event: AcceptEvent,
)
    ensures
        accept_stepped(max_connections, state, event).1 matches AcceptAction::Return { end } ==> (
        state == (AcceptState::DrainingAudit { end }) && event is AuditDrained) || state
            == (AcceptState::Returned { end }),
        accept_stepped(max_connections, state, event).0 is DrainingAudit && !(state is DrainingAudit)
            ==> (state == (AcceptState::Accepting { in_flight: 0 }) && (event is ShutdownResolved
            || event is SupervisorResolved)) || (state matches AcceptState::DrainingHandlers {
            in_flight,
            ..
        } && ((event is HandlerDone && in_flight <= 1) || event is HandlersAborted)),
{
}

/// Live handlers never exceed the bound: a handler is spawned only while
/// accepting below capacity, and a connection accepted at capacity is
/// fast-closed with the count unchanged; nothing is accepted once the loop
/// stopped.
pub proof fn law_capacity_bounds_the_handlers(max_connections: u32, state: AcceptState, event: AcceptEvent)
    ensures
        (state matches AcceptState::Accepting { in_flight } && in_flight <= max_connections)
            ==> (accept_stepped(max_connections, state, event).0 matches AcceptState::Accepting {
            in_flight: n,
        } ==> n <= max_connections),
        accept_stepped(max_connections, state, event).1 is SpawnHandler ==> (state matches AcceptState::Accepting {
            in_flight,
        } && in_flight < max_connections && accept_stepped(max_connections, state, event).0 == (
        AcceptState::Accepting { in_flight: (in_flight + 1) as u32 })),
        state matches AcceptState::Accepting { in_flight } && in_flight >= max_connections
            && event is Accepted ==> accept_stepped(max_connections, state, event) == (
        state,
        AcceptAction::FastClose,
        ),
        !(state is Accepting) ==> !(accept_stepped(max_connections, state, event).1 is SpawnHandler)
            && !(accept_stepped(max_connections, state, event).1 is FastClose),
{
}

/// While accepting, a finished handler frees exactly one slot and a
/// connection accepted below capacity takes exactly one.
pub proof fn law_handler_slots_move_by_one(max_connections: u32, in_flight: u32)
    ensures
        in_flight > 0 ==> accept_stepped(
            max_connections,
            AcceptState::Accepting { in_flight },
            AcceptEvent::HandlerDone,
        ).0 == (AcceptState::Accepting { in_flight: (in_flight - 1) as u32 }),
        in_flight < max_connections ==> accept_stepped(
            max_connections,
            AcceptState::Accepting { in_flight },
            AcceptEvent::Accepted,
        ).0 == (AcceptState::Accepting { in_flight: (in_flight + 1) as u32 }),
{
}

/// The loop's state after a history of events from its start.
pub open spec fn accept_replay(max_connections: u32, events: Seq<AcceptEvent>) -> AcceptState
    decreases events.len(),
{
    if events.len() == 0 {
        accept_start()
    } else {
        accept_stepped(max_connections, accept_replay(max_connections, events.drop_last()), events.last()).0
    }
}

/// How many handlers a history spawned.
pub open spec fn spawned(max_connections: u32, events: Seq<AcceptEvent>) -> nat
    decreases events.len(),
{
    if events.len() == 0 {
        0
    } else {
        spawned(max_connections, events.drop_last()) + if accept_stepped(
            max_connections,
            accept_replay(max_connections, events.drop_last()),
            events.last(),
        ).1 is SpawnHandler {
            1nat
        } else {
            0nat
        }
    }
}

/// How many handlers a history saw finish.
pub open spec fn finished(events: Seq<AcceptEvent>) -> nat
    decreases events.len(),
{
    if events.len() == 0 {
        0
    } else {
        finished(events.drop_last()) + if events.last() is HandlerDone {
            1nat
        } else {
            0nat
        }
    }
}

/// No terminal event in the history, and every handler that finished was
/// spawned earlier in it.
pub open spec fn accepting_history(max_connections: u32, events: Seq<AcceptEvent>) -> bool
    decreases events.len(),
{
    if events.len() == 0 {
        true
    } else {
        &&& accepting_history(max_connections, events.drop_last())
        &&& !(events.last() is ShutdownResolved)
        &&& !(events.last() is SupervisorResolved)
        &&& finished(events) <= spawned(max_connections, events)
    }
}

/// Over any history of the accepting loop in which every finished handler
/// was spawned earlier, the loop is still accepting and its live handlers
/// are exactly those spawned less those finished, never more than the cap.
pub proof fn law_live_handlers_are_spawned_less_finished(max_connections: u32, events: Seq<AcceptEvent>)
    requires
        accepting_history(max_connections, events),
    ensures
        accept_replay(max_connections, events) == (AcceptState::Accepting {
            in_flight: (spawned(max_connections, events) - finished(events)) as u32,
        }),
        spawned(max_connections, events) - finished(events) <= max_connections,
    decreases events.len(),
{
    if events.len() > 0 {
        law_live_handlers_are_spawned_less_finished(max_connections, events.drop_last());
    }
}

} // verus!
