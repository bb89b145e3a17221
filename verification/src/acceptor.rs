//! The acceptor: the listening endpoint and the connections it takes in.
//!
//! The acceptor owns the listening endpoint. Every inbound attempt must
//! finish its handshake before it counts as a connection; one that fails is
//! dropped and changes nothing else. For every established connection a
//! session of its own is started, and the acceptor goes on listening at
//! once: it never waits for a session. It stops when the endpoint is closed.

use vstd::prelude::*;

verus! {

/// Where the acceptor stands.
#[derive(Clone, Copy, Debug, PartialEq, Eq, Structural)]
pub enum AcceptorState {
    /// Inbound attempts are being taken in.
    Listening,
    /// The endpoint was closed. Terminal.
    Closed,
}

/// What the outside reports to the acceptor.
#[derive(Clone, Copy, Debug, PartialEq, Eq, Structural)]
pub enum AcceptorEvent {
    /// An inbound attempt arrived; its handshake has not finished.
    Incoming,
    /// The handshake of an attempt finished: the connection is established.
    HandshakeCompleted,
    /// The handshake of an attempt failed.
    HandshakeFailed,
    /// The listening endpoint was closed.
    EndpointClosed,
}

/// What the acceptor asks the outside to do next.
#[derive(Clone, Copy, Debug, PartialEq, Eq, Structural)]
pub enum AcceptorAction {
    /// Wait for the handshake of the attempt that arrived.
    AwaitHandshake,
    /// Start a session of its own for the connection, and go on listening.
    SpawnSession,
    /// Drop the attempt whose handshake failed, and go on listening.
    Discard,
    /// Stop: nothing more will arrive.
    Stop,
}

/// The transition of the acceptor: the state after `event` and the action
/// to carry out next.
pub open spec fn acceptor_step(state: AcceptorState, event: AcceptorEvent) -> (
    AcceptorState,
    AcceptorAction,
) {
    match (state, event) {
        (AcceptorState::Closed, _) => (AcceptorState::Closed, AcceptorAction::Stop),
        (AcceptorState::Listening, AcceptorEvent::Incoming) => (
            AcceptorState::Listening,
            AcceptorAction::AwaitHandshake,
        ),
        (AcceptorState::Listening, AcceptorEvent::HandshakeCompleted) => (
            AcceptorState::Listening,
            AcceptorAction::SpawnSession,
        ),
        (AcceptorState::Listening, AcceptorEvent::HandshakeFailed) => (
            AcceptorState::Listening,
            AcceptorAction::Discard,
        ),
        (AcceptorState::Listening, AcceptorEvent::EndpointClosed) => (
            AcceptorState::Closed,
            AcceptorAction::Stop,
        ),
    }
}

/// The state after a sequence of events.
pub open spec fn acceptor_run(state: AcceptorState, events: Seq<AcceptorEvent>) -> AcceptorState
    decreases events.len(),
{
    if events.len() == 0 {
        state
    } else {
        acceptor_run(acceptor_step(state, events[0]).0, events.drop_first())
    }
}

/// The acceptor.
pub struct Acceptor {
    state: AcceptorState,
}

impl View for Acceptor {
    type V = AcceptorState;

    closed spec fn view(&self) -> AcceptorState {
        self.state
    }
}

impl Acceptor {
    /// The acceptor of an endpoint that was just bound.
    pub fn new() -> (acceptor: Acceptor)
        ensures
            acceptor@ == AcceptorState::Listening,
    {
        Acceptor { state: AcceptorState::Listening }
    }

    /// Where the acceptor stands.
    pub fn state(&self) -> (state: AcceptorState)
        ensures
            state == self@,
    {
        self.state
    }

    /// Takes what the endpoint reported and says what to do next.
    pub fn step(&mut self, event: AcceptorEvent) -> (action: AcceptorAction)
        ensures
            (final(self)@, action) == acceptor_step(old(self)@, event),
    {
        match self.state {
            AcceptorState::Closed => AcceptorAction::Stop,
            AcceptorState::Listening => match event {
                AcceptorEvent::Incoming => AcceptorAction::AwaitHandshake,
                AcceptorEvent::HandshakeCompleted => AcceptorAction::SpawnSession,
                AcceptorEvent::HandshakeFailed => AcceptorAction::Discard,
                AcceptorEvent::EndpointClosed => {
                    self.state = AcceptorState::Closed;
                    AcceptorAction::Stop
                },
            },
        }
    }
}

/// Nothing but the close of the endpoint ends the listening: whatever else
/// is reported, and in whatever order, a failed handshake among it, the
/// acceptor goes on listening.
pub proof fn lemma_acceptor_keeps_listening(events: Seq<AcceptorEvent>)
    requires
        forall|i: int| 0 <= i < events.len() ==> events[i] != AcceptorEvent::EndpointClosed,
    ensures
        acceptor_run(AcceptorState::Listening, events) == AcceptorState::Listening,
    decreases events.len(),
{
    if events.len() > 0 {
        let tail = events.drop_first();
        assert forall|i: int| 0 <= i < tail.len() implies tail[i]
            != AcceptorEvent::EndpointClosed by {
            assert(tail[i] == events[i + 1]);
        }
        lemma_acceptor_keeps_listening(tail);
    }
}

/// A failed handshake costs the attempt and nothing else: the acceptor is
/// in the same state after it as before, and what it does with any later
/// event is what it would have done without the failure.
pub proof fn lemma_failed_handshake_is_isolated(state: AcceptorState, later: Seq<AcceptorEvent>)
    ensures
        acceptor_step(state, AcceptorEvent::HandshakeFailed).0 == state,
        acceptor_run(state, seq![AcceptorEvent::HandshakeFailed] + later) == acceptor_run(
            state,
            later,
        ),
{
    let events = seq![AcceptorEvent::HandshakeFailed] + later;
    assert(events.drop_first() =~= later);
}

/// A closed acceptor stays closed, and a session is started for an
/// established connection exactly while the acceptor listens.
pub proof fn lemma_sessions_only_while_listening(state: AcceptorState, event: AcceptorEvent)
    ensures
        state == AcceptorState::Closed ==> acceptor_step(state, event) == (
            AcceptorState::Closed,
            AcceptorAction::Stop,
        ),
        acceptor_step(state, event).1 == AcceptorAction::SpawnSession <==> state
            == AcceptorState::Listening && event == AcceptorEvent::HandshakeCompleted,
{
}

} // verus!
