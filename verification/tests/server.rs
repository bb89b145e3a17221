use h3_exchange::acceptor::{Acceptor, AcceptorAction, AcceptorEvent, AcceptorState};
use h3_exchange::session::{Session, SessionAction, SessionEnd, SessionEvent, SessionState};
use h3_exchange::settings::{ClientSettings, ServerSettings};

#[test]
fn session_negotiates_then_spawns_an_exchange_per_stream() {
    let mut session = Session::new();
    assert_eq!(session.state(), SessionState::Negotiating);
    assert_eq!(session.step(SessionEvent::Negotiated), SessionAction::AcceptStream);
    assert_eq!(session.state(), SessionState::Active);
    for _ in 0..5 {
        assert_eq!(session.step(SessionEvent::StreamAccepted), SessionAction::SpawnExchange);
        assert_eq!(session.state(), SessionState::Active);
    }
    assert!(!session.is_closed());
}

#[test]
fn session_closes_when_the_peer_is_done() {
    let mut session = Session::new();
    session.step(SessionEvent::Negotiated);
    assert_eq!(
        session.step(SessionEvent::NoMoreStreams),
        SessionAction::Close(SessionEnd::PeerClosed)
    );
    assert_eq!(session.state(), SessionState::Closed(SessionEnd::PeerClosed));
    assert!(session.is_closed());
}

#[test]
fn session_closes_on_a_transport_error() {
    let mut session = Session::new();
    session.step(SessionEvent::Negotiated);
    session.step(SessionEvent::StreamAccepted);
    assert_eq!(
        session.step(SessionEvent::AcceptFailed),
        SessionAction::Close(SessionEnd::TransportError)
    );
    assert_eq!(session.state(), SessionState::Closed(SessionEnd::TransportError));
}

#[test]
fn failed_negotiation_closes_the_session_only() {
    let mut session = Session::new();
    assert_eq!(
        session.step(SessionEvent::NegotiationFailed),
        SessionAction::Close(SessionEnd::NegotiationFailed)
    );
    assert_eq!(session.state(), SessionState::Closed(SessionEnd::NegotiationFailed));
    let mut other = Session::new();
    assert_eq!(other.step(SessionEvent::Negotiated), SessionAction::AcceptStream);
    assert_eq!(other.step(SessionEvent::StreamAccepted), SessionAction::SpawnExchange);
}

#[test]
fn closed_session_stays_closed_for_its_reason() {
    let mut session = Session::new();
    session.step(SessionEvent::Negotiated);
    session.step(SessionEvent::NoMoreStreams);
    for event in [
        SessionEvent::Negotiated,
        SessionEvent::StreamAccepted,
        SessionEvent::AcceptFailed,
        SessionEvent::NegotiationFailed,
        SessionEvent::NoMoreStreams,
    ] {
        assert_eq!(session.step(event), SessionAction::Close(SessionEnd::PeerClosed));
        assert_eq!(session.state(), SessionState::Closed(SessionEnd::PeerClosed));
    }
}

#[test]
fn session_event_out_of_turn_closes_it() {
    let mut session = Session::new();
    assert_eq!(
        session.step(SessionEvent::StreamAccepted),
        SessionAction::Close(SessionEnd::OutOfOrder)
    );
    let mut session = Session::new();
    session.step(SessionEvent::Negotiated);
    assert_eq!(
        session.step(SessionEvent::Negotiated),
        SessionAction::Close(SessionEnd::OutOfOrder)
    );
    assert_eq!(session.state(), SessionState::Closed(SessionEnd::OutOfOrder));
}

#[test]
fn acceptor_spawns_a_session_per_established_connection() {
    let mut acceptor = Acceptor::new();
    assert_eq!(acceptor.state(), AcceptorState::Listening);
    for _ in 0..3 {
        assert_eq!(acceptor.step(AcceptorEvent::Incoming), AcceptorAction::AwaitHandshake);
        assert_eq!(acceptor.step(AcceptorEvent::HandshakeCompleted), AcceptorAction::SpawnSession);
        assert_eq!(acceptor.state(), AcceptorState::Listening);
    }
}

#[test]
fn failed_handshake_is_discarded_and_listening_goes_on() {
    let mut acceptor = Acceptor::new();
    assert_eq!(acceptor.step(AcceptorEvent::Incoming), AcceptorAction::AwaitHandshake);
    assert_eq!(acceptor.step(AcceptorEvent::Incoming), AcceptorAction::AwaitHandshake);
    assert_eq!(acceptor.step(AcceptorEvent::HandshakeFailed), AcceptorAction::Discard);
    assert_eq!(acceptor.state(), AcceptorState::Listening);
    assert_eq!(acceptor.step(AcceptorEvent::HandshakeCompleted), AcceptorAction::SpawnSession);
    assert_eq!(acceptor.state(), AcceptorState::Listening);
}

#[test]
fn closed_endpoint_stops_the_acceptor_for_good() {
    let mut acceptor = Acceptor::new();
    assert_eq!(acceptor.step(AcceptorEvent::EndpointClosed), AcceptorAction::Stop);
    assert_eq!(acceptor.state(), AcceptorState::Closed);
    for event in [
        AcceptorEvent::Incoming,
        AcceptorEvent::HandshakeCompleted,
        AcceptorEvent::HandshakeFailed,
        AcceptorEvent::EndpointClosed,
    ] {
        assert_eq!(acceptor.step(event), AcceptorAction::Stop);
        assert_eq!(acceptor.state(), AcceptorState::Closed);
    }
}

#[test]
fn standard_settings_name_the_development_endpoints() {
    let server = ServerSettings::standard();
    assert_eq!(server.listen, "127.0.0.1:4433");
    assert_eq!(server.routes.lookup("/"), "Hello from http3 server");
    assert_eq!(server.routes.lookup("/nope"), "404 Not Found");
    let client = ClientSettings::standard();
    assert_eq!(client.bind, "0.0.0.0:0");
    assert_eq!(client.server, "127.0.0.1:4433");
    assert_eq!(client.server_name, "localhost");
}
