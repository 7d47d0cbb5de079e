use crate::command::Command;
use crate::errors::BTCP2PError;
use crate::message::{
    decode_message, frame_bytes, frame_with_body, Message, MessageView, MAX_PAYLOAD_SIZE,
};
use crate::network::Network;
use crate::payload::{
    lemma_version_payload_len, version_encodable, PayloadView, VersionPayload, VersionPayloadView,
};
use vstd::prelude::*;

verus! {

/// Why a handshake ended without a session.
#[derive(Debug, Clone, Copy, PartialEq, Eq, Structural)]
pub enum HandshakeFailure {
    /// Reading or writing failed, or the peer closed the connection.
    Io,
    /// The handshake took longer than its driver allowed.
    Timeout,
    /// A message could not be written, or a reply could not be decoded.
    Codec(BTCP2PError),
    /// The driver reported an event that does not fit the current state.
    OutOfOrder,
}

/// Where a handshake stands.
#[derive(Debug, Clone, Copy, PartialEq, Eq, Structural)]
pub enum HandshakeState {
    /// Connected; the `version` message is being sent.
    Connected,
    /// The `version` message is out; waiting for the peer's reply.
    VersionSent,
    /// The peer replied; the `verack` message is being sent.
    VersionReceived,
    /// The `verack` message is out; waiting for the peer's reply.
    VerAckSent,
    /// Both replies came: the session is up.
    Established,
    /// The handshake was abandoned.
    Failed(HandshakeFailure),
}

/// What the driver of a handshake reports back.
#[derive(Debug, Clone, PartialEq, Eq)]
pub enum HandshakeEvent {
    /// The connection is open; begin.
    Start,
    /// The bytes of the last `Send` were all written.
    Written,
    /// A read returned these bytes; none means the peer closed the stream.
    Received(Vec<u8>),
    /// A read or a write failed.
    IoFailed,
    /// The time allowed for the handshake ran out.
    TimedOut,
}

/// What a handshake asks its driver to do next.
#[derive(Debug, Clone, PartialEq, Eq)]
pub enum HandshakeAction {
    /// Write these bytes to the peer, then report `Written` or `IoFailed`.
    Send(Vec<u8>),
    /// Read from the peer, then report `Received` or `IoFailed`.
    Receive,
    /// Stop: the handshake is established or has failed.
    Finish,
}

/// The decisions of a `version` / `verack` handshake with one peer. The
/// driver performs each action that `step` returns and reports the outcome
/// as the next event.
///
/// Any reply that decodes as a message is accepted in either waiting state:
/// the peer's first reply need not itself be a `version` message.
pub struct Handshake {
    /// The network whose magic the messages carry.
    pub network: Network,
    /// The `version` payload this side announces.
    pub version: VersionPayload,
    /// Where the handshake stands.
    pub state: HandshakeState,
}

/// The `version` message this side sends.
pub open spec fn version_frame(network: Network, version: VersionPayloadView) -> Seq<u8> {
    frame_bytes(
        MessageView {
            network,
            command: Command::Version,
            payload: PayloadView::Version(version),
        },
    )
}

/// The `verack` message this side sends.
pub open spec fn verack_frame(network: Network) -> Seq<u8> {
    frame_bytes(MessageView { network, command: Command::VerAck, payload: PayloadView::VerAck })
}

/// What a reply read from the peer leads to: nothing read means the peer
/// closed the stream, and a reply that does not decode fails the handshake.
pub open spec fn reply_failure(reply: Seq<u8>) -> Option<HandshakeFailure> {
    if reply.len() == 0 {
        Some(HandshakeFailure::Io)
    } else {
        match decode_message(reply, MAX_PAYLOAD_SIZE) {
            Ok(_) => None,
            Err(e) => Some(HandshakeFailure::Codec(e)),
        }
    }
}

/// The state that `event` moves a handshake in `state` to.
pub open spec fn next_state(
    state: HandshakeState,
    version: VersionPayloadView,
    event: HandshakeEvent,
) -> HandshakeState {
    match state {
        HandshakeState::Established => state,
        HandshakeState::Failed(_) => state,
        _ => match event {
            HandshakeEvent::IoFailed => HandshakeState::Failed(HandshakeFailure::Io),
            HandshakeEvent::TimedOut => HandshakeState::Failed(HandshakeFailure::Timeout),
            HandshakeEvent::Start => if !(state is Connected) {
                HandshakeState::Failed(HandshakeFailure::OutOfOrder)
            } else if version_encodable(version) {
                HandshakeState::Connected
            } else {
                HandshakeState::Failed(HandshakeFailure::Codec(BTCP2PError::UserAgentTooLong))
            },
            HandshakeEvent::Written => match state {
                HandshakeState::Connected => HandshakeState::VersionSent,
                HandshakeState::VersionReceived => HandshakeState::VerAckSent,
                _ => HandshakeState::Failed(HandshakeFailure::OutOfOrder),
            },
            HandshakeEvent::Received(reply) => match state {
                HandshakeState::VersionSent => match reply_failure(reply@) {
                    Some(f) => HandshakeState::Failed(f),
                    None => HandshakeState::VersionReceived,
                },
                HandshakeState::VerAckSent => match reply_failure(reply@) {
                    Some(f) => HandshakeState::Failed(f),
                    None => HandshakeState::Established,
                },
                _ => HandshakeState::Failed(HandshakeFailure::OutOfOrder),
            },
        },
    }
}

/// Whether `action` is what a handshake asks for on entering `state`: the
/// `version` message while connected, the `verack` message once the peer
/// replied, a read while waiting, and nothing more once it is over.
pub open spec fn action_for(
    action: HandshakeAction,
    state: HandshakeState,
    network: Network,
    version: VersionPayloadView,
) -> bool {
    match state {
        HandshakeState::Connected => action matches HandshakeAction::Send(b) && b@ == version_frame(
            network,
            version,
        ),
        HandshakeState::VersionReceived => action matches HandshakeAction::Send(b) && b@
            == verack_frame(network),
        HandshakeState::VersionSent => action is Receive,
        HandshakeState::VerAckSent => action is Receive,
        _ => action is Finish,
    }
}

/// Whether `reply` decodes as a message; an empty read is an I/O failure.
fn check_reply(reply: &Vec<u8>) -> (r: Option<HandshakeFailure>)
    ensures
        r == reply_failure(reply@),
{
    if reply.len() == 0 {
        return Some(HandshakeFailure::Io);
    }
    match Message::from_bytes(reply.as_slice()) {
        Ok(_) => None,
        Err(e) => Some(HandshakeFailure::Codec(e)),
    }
}

impl Handshake {
    /// A handshake on `network` that will announce `version`.
    pub fn new(network: Network, version: VersionPayload) -> (r: Handshake)
        ensures
            r.network == network,
            r.version == version,
            r.state == HandshakeState::Connected,
    {
        Handshake { network, version, state: HandshakeState::Connected }
    }

    /// Whether the session is up.
    pub fn is_established(&self) -> (r: bool)
        ensures
            r == (self.state is Established),
    {
        match self.state {
            HandshakeState::Established => true,
            _ => false,
        }
    }

    /// Takes in what happened and moves to the next state; returns what the
    /// driver must do next.
    pub fn step(&mut self, event: HandshakeEvent) -> (r: HandshakeAction)
        ensures
            final(self).network == old(self).network,
            final(self).version == old(self).version,
            final(self).state == next_state(old(self).state, old(self).version@, event),
            action_for(r, final(self).state, final(self).network, final(self).version@),
    {
        let (next, action) = match self.state {
            HandshakeState::Established => (self.state, HandshakeAction::Finish),
            HandshakeState::Failed(_) => (self.state, HandshakeAction::Finish),
            _ => match event {
                HandshakeEvent::IoFailed => (
                    HandshakeState::Failed(HandshakeFailure::Io),
                    HandshakeAction::Finish,
                ),
                HandshakeEvent::TimedOut => (
                    HandshakeState::Failed(HandshakeFailure::Timeout),
                    HandshakeAction::Finish,
                ),
                HandshakeEvent::Start => match self.state {
                    HandshakeState::Connected => match self.version.to_bytes() {
                        Ok(body) => {
                            proof {
                                lemma_version_payload_len(self.version);
                            }
                            let frame = frame_with_body(self.network, Command::Version, &body);
                            (HandshakeState::Connected, HandshakeAction::Send(frame))
                        },
                        Err(e) => (
                            HandshakeState::Failed(HandshakeFailure::Codec(e)),
                            HandshakeAction::Finish,
                        ),
                    },
                    _ => (
                        HandshakeState::Failed(HandshakeFailure::OutOfOrder),
                        HandshakeAction::Finish,
                    ),
                },
                HandshakeEvent::Written => match self.state {
                    HandshakeState::Connected => (
                        HandshakeState::VersionSent,
                        HandshakeAction::Receive,
                    ),
                    HandshakeState::VersionReceived => (
                        HandshakeState::VerAckSent,
                        HandshakeAction::Receive,
                    ),
                    _ => (
                        HandshakeState::Failed(HandshakeFailure::OutOfOrder),
                        HandshakeAction::Finish,
                    ),
                },
                HandshakeEvent::Received(reply) => match self.state {
                    HandshakeState::VersionSent => match check_reply(&reply) {
                        Some(f) => (HandshakeState::Failed(f), HandshakeAction::Finish),
                        None => {
                            let body: Vec<u8> = Vec::new();
                            let frame = frame_with_body(self.network, Command::VerAck, &body);
                            assert(body@ =~= Seq::<u8>::empty());
                            (HandshakeState::VersionReceived, HandshakeAction::Send(frame))
                        },
                    },
                    HandshakeState::VerAckSent => match check_reply(&reply) {
                        Some(f) => (HandshakeState::Failed(f), HandshakeAction::Finish),
                        None => (HandshakeState::Established, HandshakeAction::Finish),
                    },
                    _ => (
                        HandshakeState::Failed(HandshakeFailure::OutOfOrder),
                        HandshakeAction::Finish,
                    ),
                },
            },
        };
        self.state = next;
        action
    }
}

} // verus!
