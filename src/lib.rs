//! Wire codec for the Bitcoin peer-to-peer protocol: network magic, command
//! names, payloads, framed messages with their double SHA-256 checksum, and the
//! decisions of the `version` / `verack` handshake.
//!
//! Every encoder and decoder states its result over the mathematical
//! definitions of its module (`frame_bytes`, `decode_message`, ...), and the
//! round-trip laws are proved over those definitions.

pub mod checksum;
pub mod command;
pub mod errors;
pub mod handshake;
pub mod message;
pub mod network;
pub mod payload;
pub mod wire;

pub use checksum::checksum;
pub use command::{Command, COMMAND_NAME_SIZE};
pub use errors::BTCP2PError;
pub use handshake::{Handshake, HandshakeAction, HandshakeEvent, HandshakeFailure, HandshakeState};
pub use message::{Message, HEADER_SIZE, MAX_PAYLOAD_SIZE};
pub use network::Network;
pub use payload::{
    IpAddress, Payload, ServiceFlags, SocketAddress, VersionPayload, PROTOCOL_VERSION, USER_AGENT,
};
