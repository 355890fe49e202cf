//! The decisions of the connection accept loop. The loop itself (binding,
//! accepting, the TLS handshake) runs outside; it reports what happened as a
//! [`ConnEvent`] and carries out the [`ConnAction`] it gets back.

use vstd::prelude::*;

verus! {

/// Where the accept loop stands.
#[derive(Clone, Copy, Debug, PartialEq, Eq)]
pub enum LoopPhase {
    /// The listening socket is not bound yet.
    Starting,
    /// The socket is bound and connections are being accepted.
    Listening,
    /// Binding failed; the loop has ended.
    Stopped,
}

/// What the runtime reports to the accept loop.
#[derive(Clone, Copy, Debug, PartialEq, Eq)]
pub enum ConnEvent {
    /// The listening socket was bound.
    Bound,
    /// The listening socket could not be bound.
    BindFailed,
    /// Accepting a raw connection failed.
    AcceptFailed,
    /// A raw connection was accepted and its TLS handshake completed.
    HandshakeSucceeded,
    /// A raw connection was accepted but its TLS handshake failed.
    HandshakeFailed,
}

/// What the runtime is to do next.
#[derive(Clone, Copy, Debug, PartialEq, Eq)]
pub enum ConnAction {
    /// Start accepting connections.
    StartAccepting,
    /// End the process: the socket could not be bound.
    Abort,
    /// Log that a connection could not be accepted, and keep accepting.
    LogAcceptError,
    /// Hand the established TLS session to the HTTP layer, and keep accepting.
    Serve,
    /// Log the handshake error with the hint that clients must use TLS and
    /// trust the self-signed certificate, drop the connection, keep accepting.
    DropWithHint,
    /// Nothing to do: the event does not fit the phase.
    Ignore,
}

/// An event about one connection, as opposed to one about the socket.
pub open spec fn is_connection_event(e: ConnEvent) -> bool {
    e == ConnEvent::AcceptFailed || e == ConnEvent::HandshakeSucceeded || e
        == ConnEvent::HandshakeFailed
}

/// The phase after an event.
pub open spec fn next_phase(phase: LoopPhase, event: ConnEvent) -> LoopPhase {
    match (phase, event) {
        (LoopPhase::Starting, ConnEvent::Bound) => LoopPhase::Listening,
        (LoopPhase::Starting, ConnEvent::BindFailed) => LoopPhase::Stopped,
        _ => phase,
    }
}

/// The action for an event.
pub open spec fn action_for(phase: LoopPhase, event: ConnEvent) -> ConnAction {
    match (phase, event) {
        (LoopPhase::Starting, ConnEvent::Bound) => ConnAction::StartAccepting,
        (LoopPhase::Starting, ConnEvent::BindFailed) => ConnAction::Abort,
        (LoopPhase::Listening, ConnEvent::AcceptFailed) => ConnAction::LogAcceptError,
        (LoopPhase::Listening, ConnEvent::HandshakeSucceeded) => ConnAction::Serve,
        (LoopPhase::Listening, ConnEvent::HandshakeFailed) => ConnAction::DropWithHint,
        _ => ConnAction::Ignore,
    }
}

/// The phase after a run of events.
pub open spec fn phase_after(phase: LoopPhase, events: Seq<ConnEvent>) -> LoopPhase
    decreases events.len(),
{
    if events.len() == 0 {
        phase
    } else {
        phase_after(next_phase(phase, events[0]), events.drop_first())
    }
}

/// How many established sessions a run of events hands to the HTTP layer.
pub open spec fn sessions_served(phase: LoopPhase, events: Seq<ConnEvent>) -> nat
    decreases events.len(),
{
    if events.len() == 0 {
        0
    } else {
        (if action_for(phase, events[0]) == ConnAction::Serve {
            1nat
        } else {
            0nat
        }) + sessions_served(next_phase(phase, events[0]), events.drop_first())
    }
}

/// How many events of a run are completed handshakes.
pub open spec fn handshakes_completed(events: Seq<ConnEvent>) -> nat
    decreases events.len(),
{
    if events.len() == 0 {
        0
    } else {
        (if events[0] == ConnEvent::HandshakeSucceeded {
            1nat
        } else {
            0nat
        }) + handshakes_completed(events.drop_first())
    }
}

/// The accept loop's state.
#[derive(Clone, Copy, Debug, PartialEq, Eq)]
pub struct AcceptLoop {
    pub phase: LoopPhase,
}

impl AcceptLoop {
    /// A loop whose socket is not bound yet.
    pub fn new() -> (r: AcceptLoop)
        ensures
            r.phase == LoopPhase::Starting,
    {
        AcceptLoop { phase: LoopPhase::Starting }
    }

    /// Whether the loop still accepts connections.
    pub fn is_listening(&self) -> (r: bool)
        ensures
            r == (self.phase == LoopPhase::Listening),
    {
        match self.phase {
            LoopPhase::Listening => true,
            _ => false,
        }
    }

    /// Takes one event and says what to do about it.
    pub fn on_event(&mut self, event: ConnEvent) -> (r: ConnAction)
        ensures
            final(self).phase == next_phase(old(self).phase, event),
            r == action_for(old(self).phase, event),
    {
        match (self.phase, event) {
            (LoopPhase::Starting, ConnEvent::Bound) => {
                self.phase = LoopPhase::Listening;
                ConnAction::StartAccepting
            },
            (LoopPhase::Starting, ConnEvent::BindFailed) => {
                self.phase = LoopPhase::Stopped;
                ConnAction::Abort
            },
            (LoopPhase::Listening, ConnEvent::AcceptFailed) => ConnAction::LogAcceptError,
            (LoopPhase::Listening, ConnEvent::HandshakeSucceeded) => ConnAction::Serve,
            (LoopPhase::Listening, ConnEvent::HandshakeFailed) => ConnAction::DropWithHint,
            _ => ConnAction::Ignore,
        }
    }
}

/// No connection ends the loop: once listening, it is still listening after
/// any run of connection events, failed accepts and failed handshakes
/// included, so the next connection is accepted too.
pub proof fn lemma_listening_survives(events: Seq<ConnEvent>)
    requires
        forall|i: int| 0 <= i < events.len() ==> is_connection_event(#[trigger] events[i]),
    ensures
        phase_after(LoopPhase::Listening, events) == LoopPhase::Listening,
    decreases events.len(),
{
    if events.len() > 0 {
        assert(is_connection_event(events[0]));
        let rest = events.drop_first();
        assert forall|i: int| 0 <= i < rest.len() implies is_connection_event(#[trigger] rest[i]) by {
            assert(rest[i] == events[i + 1]);
        }
        lemma_listening_survives(rest);
    }
}

/// Only established sessions reach the HTTP layer, and each of them does:
/// while listening, the sessions served are exactly the completed handshakes.
pub proof fn lemma_served_are_handshakes(events: Seq<ConnEvent>)
    requires
        forall|i: int| 0 <= i < events.len() ==> is_connection_event(#[trigger] events[i]),
    ensures
        sessions_served(LoopPhase::Listening, events) == handshakes_completed(events),
    decreases events.len(),
{
    if events.len() > 0 {
        assert(is_connection_event(events[0]));
        let rest = events.drop_first();
        assert forall|i: int| 0 <= i < rest.len() implies is_connection_event(#[trigger] rest[i]) by {
            assert(rest[i] == events[i + 1]);
        }
        lemma_served_are_handshakes(rest);
    }
}

} // verus!
