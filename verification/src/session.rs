//! The session: one connection from protocol negotiation to its close.
//!
//! A session owns one established connection. It negotiates the application
//! protocol, then accepts request streams one after the other and has an
//! exchange started for each, without waiting for any exchange to end. What
//! becomes of an exchange never reaches the session: there is no event for
//! it. The session ends when the peer closes the connection or the
//! transport fails, and its end is reported, not handed to the acceptor.

use vstd::prelude::*;

verus! {

/// Why a session ended.
#[derive(Clone, Copy, Debug, PartialEq, Eq, Structural)]
pub enum SessionEnd {
    /// The application protocol could not be negotiated.
    NegotiationFailed,
    /// The peer closed the connection; no more streams will come.
    PeerClosed,
    /// The transport failed while a stream was awaited.
    TransportError,
    /// An event arrived that the session's state does not expect.
    OutOfOrder,
}

/// Where a session stands.
#[derive(Clone, Copy, Debug, PartialEq, Eq, Structural)]
pub enum SessionState {
    /// The application protocol is being negotiated.
    Negotiating,
    /// Request streams are being accepted.
    Active,
    /// The session is over, for the reason given. Terminal.
    Closed(SessionEnd),
}

/// What the outside reports to a session.
#[derive(Clone, Copy, Debug, PartialEq, Eq, Structural)]
pub enum SessionEvent {
    /// The application protocol was negotiated.
    Negotiated,
    /// The negotiation failed: no common protocol, or the peer gave up.
    NegotiationFailed,
    /// A request stream was accepted.
    StreamAccepted,
    /// The peer closed the connection cleanly.
    NoMoreStreams,
    /// Accepting the next stream failed.
    AcceptFailed,
}

/// What a session asks the outside to do next.
#[derive(Clone, Copy, Debug, PartialEq, Eq, Structural)]
pub enum SessionAction {
    /// Wait for the next request stream.
    AcceptStream,
    /// Start an exchange of its own for the stream that was accepted, and
    /// wait for the next stream at once.
    SpawnExchange,
    /// Report why the session ended, and stop. Nothing is handed upward.
    Close(SessionEnd),
}

/// The transition of a session: the state after `event` and the action to
/// carry out next.
pub open spec fn session_step(state: SessionState, event: SessionEvent) -> (
    SessionState,
    SessionAction,
) {
    match (state, event) {
        (SessionState::Closed(end), _) => (state, SessionAction::Close(end)),
        (SessionState::Negotiating, SessionEvent::Negotiated) => (
            SessionState::Active,
            SessionAction::AcceptStream,
        ),
        (SessionState::Negotiating, SessionEvent::NegotiationFailed) => closing(
            SessionEnd::NegotiationFailed,
        ),
        (SessionState::Active, SessionEvent::StreamAccepted) => (
            SessionState::Active,
            SessionAction::SpawnExchange,
        ),
        (SessionState::Active, SessionEvent::NoMoreStreams) => closing(SessionEnd::PeerClosed),
        (SessionState::Active, SessionEvent::AcceptFailed) => closing(SessionEnd::TransportError),
        _ => closing(SessionEnd::OutOfOrder),
    }
}

/// The closed state for `end`, and the action that reports it.
pub open spec fn closing(end: SessionEnd) -> (SessionState, SessionAction) {
    (SessionState::Closed(end), SessionAction::Close(end))
}

/// The state after a sequence of events, and the actions handed out on the
/// way, one for each event.
pub open spec fn session_run(state: SessionState, events: Seq<SessionEvent>) -> (
    SessionState,
    Seq<SessionAction>,
)
    decreases events.len(),
{
    if events.len() == 0 {
        (state, Seq::<SessionAction>::empty())
    } else {
        let (next, action) = session_step(state, events[0]);
        let (last, actions) = session_run(next, events.drop_first());
        (last, seq![action] + actions)
    }
}

/// One session.
pub struct Session {
    state: SessionState,
}

impl View for Session {
    type V = SessionState;

    closed spec fn view(&self) -> SessionState {
        self.state
    }
}

impl Session {
    /// A session for a connection that was just established. The first
    /// thing to do for it is to negotiate the application protocol.
    pub fn new() -> (session: Session)
        ensures
            session@ == SessionState::Negotiating,
    {
        Session { state: SessionState::Negotiating }
    }

    /// Where the session stands.
    pub fn state(&self) -> (state: SessionState)
        ensures
            state == self@,
    {
        self.state
    }

    /// Whether the session is over.
    pub fn is_closed(&self) -> (closed: bool)
        ensures
            closed == (self@ is Closed),
    {
        match self.state {
            SessionState::Closed(_) => true,
            _ => false,
        }
    }

    /// Takes what the connection reported and says what to do next.
    pub fn step(&mut self, event: SessionEvent) -> (action: SessionAction)
        ensures
            (final(self)@, action) == session_step(old(self)@, event),
    {
        let (next, action) = match self.state {
            SessionState::Closed(end) => (self.state, SessionAction::Close(end)),
            SessionState::Negotiating => match event {
                SessionEvent::Negotiated => (SessionState::Active, SessionAction::AcceptStream),
                SessionEvent::NegotiationFailed => Session::close(SessionEnd::NegotiationFailed),
                _ => Session::close(SessionEnd::OutOfOrder),
            },
            SessionState::Active => match event {
                SessionEvent::StreamAccepted => (SessionState::Active, SessionAction::SpawnExchange),
                SessionEvent::NoMoreStreams => Session::close(SessionEnd::PeerClosed),
                SessionEvent::AcceptFailed => Session::close(SessionEnd::TransportError),
                _ => Session::close(SessionEnd::OutOfOrder),
            },
        };
        self.state = next;
        action
    }

    fn close(end: SessionEnd) -> (next: (SessionState, SessionAction))
        ensures
            next == closing(end),
    {
        (SessionState::Closed(end), SessionAction::Close(end))
    }
}

/// A closed session stays closed, for the reason it closed for, whatever is
/// reported to it.
pub proof fn lemma_closed_session_stays_closed(state: SessionState, events: Seq<SessionEvent>)
    requires
        state is Closed,
    ensures
        session_run(state, events).0 == state,
        forall|i: int|
            0 <= i < events.len() ==> #[trigger] session_run(state, events).1[i]
                == SessionAction::Close(state->Closed_0),
        session_run(state, events).1.len() == events.len(),
    decreases events.len(),
{
    if events.len() > 0 {
        lemma_closed_session_stays_closed(state, events.drop_first());
        let rest = session_run(state, events.drop_first()).1;
        let all = session_run(state, events).1;
        assert(all =~= seq![SessionAction::Close(state->Closed_0)] + rest);
        assert forall|i: int| 0 <= i < events.len() implies #[trigger] all[i]
            == SessionAction::Close(state->Closed_0) by {
            if i > 0 {
                assert(all[i] == rest[i - 1]);
            }
        }
    }
}

/// An active session stays active over every accepted stream and has one
/// exchange started for each: as long as nothing but accepted streams is
/// reported, every action is the start of an exchange.
pub proof fn lemma_active_session_spawns_per_stream(events: Seq<SessionEvent>)
    requires
        forall|i: int| 0 <= i < events.len() ==> events[i] == SessionEvent::StreamAccepted,
    ensures
        session_run(SessionState::Active, events).0 == SessionState::Active,
        session_run(SessionState::Active, events).1.len() == events.len(),
        forall|i: int|
            0 <= i < events.len() ==> #[trigger] session_run(SessionState::Active, events).1[i]
                == SessionAction::SpawnExchange,
    decreases events.len(),
{
    if events.len() > 0 {
        let tail = events.drop_first();
        assert forall|i: int| 0 <= i < tail.len() implies tail[i]
            == SessionEvent::StreamAccepted by {
            assert(tail[i] == events[i + 1]);
        }
        lemma_active_session_spawns_per_stream(tail);
        let rest = session_run(SessionState::Active, tail).1;
        let all = session_run(SessionState::Active, events).1;
        assert(all =~= seq![SessionAction::SpawnExchange] + rest);
        assert forall|i: int| 0 <= i < events.len() implies #[trigger] all[i]
            == SessionAction::SpawnExchange by {
            if i > 0 {
                assert(all[i] == rest[i - 1]);
            }
        }
    }
}

/// A session starts exchanges only while it is active: once it has closed,
/// or while it still negotiates, no event makes it start one.
pub proof fn lemma_spawn_only_when_active(state: SessionState, event: SessionEvent)
    ensures
        session_step(state, event).1 == SessionAction::SpawnExchange <==> state
            == SessionState::Active && event == SessionEvent::StreamAccepted,
        session_step(state, event).0 == SessionState::Active <==> (state == SessionState::Active
            && event == SessionEvent::StreamAccepted) || (state == SessionState::Negotiating
            && event == SessionEvent::Negotiated),
{
}

} // verus!
