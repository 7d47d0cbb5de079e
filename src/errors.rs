use vstd::prelude::*;

verus! {

/// The ways in which encoding or decoding a message can fail.
#[derive(Debug, Clone, Copy, PartialEq, Eq, Structural)]
pub enum BTCP2PError {
    /// The four magic bytes name no known network.
    UnknownNetwork,
    /// The buffer is shorter than a message header.
    InvalidHeaderSize,
    /// The header declares a payload longer than the ceiling.
    PayloadTooLarge,
    /// The payload does not hash to the checksum that the header carries.
    InvalidChecksum,
    /// The command field names no known command.
    InvalidCommand,
    /// The bytes end before a field, or before the declared payload, does; or
    /// a `ping` or `pong` payload is not exactly its eight-byte nonce.
    DecodeTruncated,
    /// The user agent bytes are not valid UTF-8.
    InvalidUtf8,
    /// The user agent does not fit behind its one-byte length prefix.
    UserAgentTooLong,
}

} // verus!
