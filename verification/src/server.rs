use vstd::prelude::*;

verus! {

/// One event the server's accept loop observes.
#[derive(Clone, Copy, Debug, PartialEq, Eq, Structural)]
pub enum ServerEvent {
    /// A client connection was accepted.
    Accepted,
    /// Accepting failed; treated as transient.
    AcceptFailed,
    /// The process-wide interrupt signal arrived.
    Cancelled,
}

/// What the server does in reaction to one event.
#[derive(Clone, Copy, Debug, PartialEq, Eq, Structural)]
pub enum ServerAction {
    /// Spawn an independent reader task for the accepted connection and
    /// continue accepting at once.
    SpawnReader,
    /// Log the failure and continue accepting; a failed accept never ends
    /// the loop.
    KeepAccepting,
    /// Remove the bound address from the filesystem namespace and stop.
    RemoveAddressAndStop,
}

/// The lifecycle phase of the bound endpoint. While `Accepting`, the server
/// owns the address; `Stopped` is terminal and is entered only by the step
/// whose action removes the address.
#[derive(Clone, Copy, Debug, PartialEq, Eq, Structural)]
pub enum ServerPhase {
    Accepting,
    Stopped,
}

/// The accept loop's one step, as a function of the observed event alone.
pub open spec fn step_of(event: ServerEvent) -> (ServerPhase, ServerAction) {
    match event {
        ServerEvent::Accepted => (ServerPhase::Accepting, ServerAction::SpawnReader),
        ServerEvent::AcceptFailed => (ServerPhase::Accepting, ServerAction::KeepAccepting),
        ServerEvent::Cancelled => (ServerPhase::Stopped, ServerAction::RemoveAddressAndStop),
    }
}

/// Decides the accept loop's reaction to one event: an accepted connection
/// gets its own reader task, a failed accept is logged and the loop goes
/// on, and only cancellation removes the bound address and stops.
pub fn server_step(event: ServerEvent) -> (r: (ServerPhase, ServerAction))
    ensures
        r == step_of(event),
        r.0 is Stopped <==> event is Cancelled,
        r.1 is RemoveAddressAndStop <==> event is Cancelled,
{
    match event {
        ServerEvent::Accepted => (ServerPhase::Accepting, ServerAction::SpawnReader),
        ServerEvent::AcceptFailed => (ServerPhase::Accepting, ServerAction::KeepAccepting),
        ServerEvent::Cancelled => (ServerPhase::Stopped, ServerAction::RemoveAddressAndStop),
    }
}

/// The phase after the accept loop has observed a sequence of events: it
/// stops at the first cancellation and is still accepting otherwise.
pub open spec fn run_phase(events: Seq<ServerEvent>) -> ServerPhase
    decreases events.len(),
{
    if events.len() == 0 {
        ServerPhase::Accepting
    } else if step_of(events.first()).0 is Stopped {
        ServerPhase::Stopped
    } else {
        run_phase(events.drop_first())
    }
}

/// Law: the server stops exactly when a cancellation occurs among the
/// observed events — connections accepted or failed never stop it — and
/// the only step that stops it is the one whose action removes the bound
/// address from the filesystem namespace.
pub proof fn lemma_stop_iff_cancelled(events: Seq<ServerEvent>)
    ensures
        run_phase(events) is Stopped <==> exists|i: int|
            0 <= i < events.len() && events[i] is Cancelled,
        forall|e: ServerEvent| step_of(e).0 is Stopped <==> step_of(e).1 is RemoveAddressAndStop,
    decreases events.len(),
{
    if events.len() == 0 {
    } else if step_of(events.first()).0 is Stopped {
        assert(events[0] is Cancelled);
    } else {
        lemma_stop_iff_cancelled(events.drop_first());
        if run_phase(events.drop_first()) is Stopped {
            let j = choose|j: int|
                0 <= j < events.drop_first().len() && events.drop_first()[j] is Cancelled;
            assert(events[j + 1] is Cancelled);
        }
        if exists|i: int| 0 <= i < events.len() && events[i] is Cancelled {
            let i = choose|i: int| 0 <= i < events.len() && events[i] is Cancelled;
            assert(i != 0);
            assert(events.drop_first()[i - 1] is Cancelled);
        }
    }
}

} // verus!
