use btc_p2p::{
    HandshakeAction, HandshakeEvent, HandshakeFailure, HandshakeState, Handshake, IpAddress,
    BTCP2PError, Command, Message, Network, Payload, ServiceFlags, SocketAddress, VersionPayload,
};

fn our_version() -> VersionPayload {
    let local = SocketAddress {
        ip: IpAddress::V4([192, 168, 0, 10]),
        port: 50000,
    };
    let peer = SocketAddress {
        ip: IpAddress::V4([203, 0, 113, 5]),
        port: 8333,
    };
    match VersionPayload::build(
        ServiceFlags::from_u64(ServiceFlags::NODE_NETWORK),
        ServiceFlags::from_u64(ServiceFlags::NODE_NETWORK),
        local,
        ServiceFlags::from_u64(ServiceFlags::NODE_NETWORK),
        peer,
        0xdead_beef,
        0,
        true,
        1_700_000_000,
    ) {
        Payload::Version(v) => v,
        other => panic!("expected a version payload, got {:?}", other),
    }
}

fn sent_bytes(action: HandshakeAction) -> Vec<u8> {
    match action {
        HandshakeAction::Send(b) => b,
        other => panic!("expected a send, got {:?}", other),
    }
}

#[test]
fn handshake_with_echoing_peer_is_established() {
    let mut hs = Handshake::new(Network::MainNet, our_version());
    assert_eq!(hs.state, HandshakeState::Connected);

    let version_bytes = sent_bytes(hs.step(HandshakeEvent::Start));
    assert_eq!(
        Message::from_bytes(&version_bytes).unwrap(),
        Message::new(
            Network::MainNet,
            Command::Version,
            Payload::Version(our_version())
        )
    );
    assert_eq!(hs.state, HandshakeState::Connected);
    assert_eq!(hs.step(HandshakeEvent::Written), HandshakeAction::Receive);
    assert_eq!(hs.state, HandshakeState::VersionSent);

    // the mock stream echoes back what it was sent
    let verack_bytes = sent_bytes(hs.step(HandshakeEvent::Received(version_bytes)));
    assert_eq!(hs.state, HandshakeState::VersionReceived);
    assert_eq!(
        Message::from_bytes(&verack_bytes).unwrap(),
        Message::new(Network::MainNet, Command::VerAck, Payload::VerAck)
    );
    assert_eq!(hs.step(HandshakeEvent::Written), HandshakeAction::Receive);
    assert_eq!(hs.state, HandshakeState::VerAckSent);

    assert_eq!(
        hs.step(HandshakeEvent::Received(verack_bytes)),
        HandshakeAction::Finish
    );
    assert_eq!(hs.state, HandshakeState::Established);
    assert!(hs.is_established());
    assert_eq!(hs.step(HandshakeEvent::TimedOut), HandshakeAction::Finish);
    assert_eq!(hs.state, HandshakeState::Established);
}

#[test]
fn handshake_with_closed_stream_fails_on_io() {
    let mut hs = Handshake::new(Network::MainNet, our_version());
    let _ = sent_bytes(hs.step(HandshakeEvent::Start));
    assert_eq!(hs.step(HandshakeEvent::Written), HandshakeAction::Receive);
    assert_eq!(
        hs.step(HandshakeEvent::Received(Vec::new())),
        HandshakeAction::Finish
    );
    assert_eq!(hs.state, HandshakeState::Failed(HandshakeFailure::Io));
    assert!(!hs.is_established());
    assert_eq!(hs.step(HandshakeEvent::Start), HandshakeAction::Finish);
    assert_eq!(hs.state, HandshakeState::Failed(HandshakeFailure::Io));
}

#[test]
fn handshake_garbled_reply_fails_on_decode() {
    let mut hs = Handshake::new(Network::TestNet, our_version());
    let _ = sent_bytes(hs.step(HandshakeEvent::Start));
    hs.step(HandshakeEvent::Written);
    assert_eq!(
        hs.step(HandshakeEvent::Received(vec![1, 2, 3])),
        HandshakeAction::Finish
    );
    assert_eq!(
        hs.state,
        HandshakeState::Failed(HandshakeFailure::Codec(BTCP2PError::InvalidHeaderSize))
    );
}

#[test]
fn handshake_accepts_any_decodable_first_reply() {
    let mut hs = Handshake::new(Network::MainNet, our_version());
    let _ = sent_bytes(hs.step(HandshakeEvent::Start));
    hs.step(HandshakeEvent::Written);
    let ping = Message::new(Network::MainNet, Command::Ping, Payload::Ping(3))
        .to_bytes()
        .unwrap();
    let _ = sent_bytes(hs.step(HandshakeEvent::Received(ping)));
    assert_eq!(hs.state, HandshakeState::VersionReceived);
}

#[test]
fn handshake_io_failure_and_timeout() {
    let mut hs = Handshake::new(Network::MainNet, our_version());
    let _ = sent_bytes(hs.step(HandshakeEvent::Start));
    assert_eq!(hs.step(HandshakeEvent::IoFailed), HandshakeAction::Finish);
    assert_eq!(hs.state, HandshakeState::Failed(HandshakeFailure::Io));

    let mut hs = Handshake::new(Network::MainNet, our_version());
    let _ = sent_bytes(hs.step(HandshakeEvent::Start));
    hs.step(HandshakeEvent::Written);
    assert_eq!(hs.step(HandshakeEvent::TimedOut), HandshakeAction::Finish);
    assert_eq!(hs.state, HandshakeState::Failed(HandshakeFailure::Timeout));
}

#[test]
fn handshake_out_of_order_event() {
    let mut hs = Handshake::new(Network::MainNet, our_version());
    assert_eq!(
        hs.step(HandshakeEvent::Received(vec![0; 24])),
        HandshakeAction::Finish
    );
    assert_eq!(hs.state, HandshakeState::Failed(HandshakeFailure::OutOfOrder));

    let mut hs = Handshake::new(Network::MainNet, our_version());
    let _ = sent_bytes(hs.step(HandshakeEvent::Start));
    hs.step(HandshakeEvent::Written);
    assert_eq!(hs.step(HandshakeEvent::Written), HandshakeAction::Finish);
    assert_eq!(hs.state, HandshakeState::Failed(HandshakeFailure::OutOfOrder));
}

#[test]
fn handshake_unwritable_version_fails() {
    let mut v = our_version();
    v.user_agent = "u".repeat(256);
    let mut hs = Handshake::new(Network::MainNet, v);
    assert_eq!(hs.step(HandshakeEvent::Start), HandshakeAction::Finish);
    assert_eq!(
        hs.state,
        HandshakeState::Failed(HandshakeFailure::Codec(BTCP2PError::UserAgentTooLong))
    );
}
