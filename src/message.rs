use crate::checksum::{checksum, checksum_of, CHECKSUM_SIZE};
use crate::command::{
    command_field, command_of_field, lemma_command_round_trip, Command, COMMAND_NAME_SIZE,
};
use crate::errors::BTCP2PError;
use crate::network::{lemma_network_round_trip, network_of_magic, Network};
use crate::payload::{
    command_for, decode_payload, lemma_payload_round_trip, payload_bytes, payload_encodable,
    lemma_version_payload_len, Payload, PayloadView, MAX_USER_AGENT_LEN,
};
use crate::wire::{lemma_int_bytes_round_trip, push_all, push_le_u32, read_le_u32};
use vstd::bytes::*;
use vstd::prelude::*;

verus! {

/// Size of a message header: magic, command, payload length and checksum.
pub const HEADER_SIZE: usize = 24;

/// The default ceiling on a declared payload length: 32 MiB.
pub const MAX_PAYLOAD_SIZE: u32 = 32 * 1024 * 1024;

/// Longest payload this library writes: a `version` payload with the longest
/// user agent.
pub const MAX_ENCODED_PAYLOAD_LEN: usize = 86 + MAX_USER_AGENT_LEN;

/// A message: the network it belongs to, its command and its payload.
#[derive(Debug, Clone, PartialEq, Eq)]
pub struct Message {
    pub network: Network,
    pub command: Command,
    pub payload: Payload,
}

/// A `Message` as mathematical values.
pub struct MessageView {
    pub network: Network,
    pub command: Command,
    pub payload: PayloadView,
}

impl View for Message {
    type V = MessageView;

    open spec fn view(&self) -> MessageView {
        MessageView { network: self.network, command: self.command, payload: self.payload@ }
    }
}

/// The wire form of a message: magic, the command padded to twelve bytes,
/// the payload's length as four little-endian bytes, the payload's checksum,
/// then the payload.
pub open spec fn frame_bytes(m: MessageView) -> Seq<u8> {
    frame_of(m.network, m.command, payload_bytes(m.payload))
}

/// The wire form of a message of `command` on `network` whose payload bytes
/// are `body`.
pub open spec fn frame_of(network: Network, command: Command, body: Seq<u8>) -> Seq<u8> {
    network.magic() + command_field(command) + spec_u32_to_le_bytes(body.len() as u32)
        + checksum_of(body) + body
}

/// A message that decodes back to itself: its payload can be written and
/// travels under the message's command.
pub open spec fn well_formed(m: MessageView) -> bool {
    &&& payload_encodable(m.payload)
    &&& command_for(m.payload) == Some(m.command)
}

/// The declared payload length in a header.
pub open spec fn declared_len(b: Seq<u8>) -> u32 {
    spec_u32_from_le_bytes(b.subrange(16, 20))
}

/// What decoding `b` as a message gives, with payloads longer than
/// `max_payload_size` refused. The checks come in this order: header size,
/// magic, command, declared length against the ceiling, declared length
/// against the bytes present, checksum, payload. Bytes after the declared
/// payload are ignored.
pub open spec fn decode_message(b: Seq<u8>, max_payload_size: u32) -> Result<
    MessageView,
    BTCP2PError,
> {
    if b.len() < HEADER_SIZE {
        Err(BTCP2PError::InvalidHeaderSize)
    } else {
        match network_of_magic(b.subrange(0, 4)) {
            Err(e) => Err(e),
            Ok(network) => match command_of_field(b.subrange(4, 16)) {
                Err(e) => Err(e),
                Ok(command) => {
                    let len = declared_len(b);
                    if len > max_payload_size {
                        Err(BTCP2PError::PayloadTooLarge)
                    } else if b.len() < HEADER_SIZE + len {
                        Err(BTCP2PError::DecodeTruncated)
                    } else {
                        let body = b.subrange(24, 24 + len);
                        if b.subrange(20, 24) != checksum_of(body) {
                            Err(BTCP2PError::InvalidChecksum)
                        } else {
                            match decode_payload(command, body) {
                                Err(e) => Err(e),
                                Ok(payload) => Ok(MessageView { network, command, payload }),
                            }
                        }
                    }
                },
            },
        }
    }
}

/// The wire form of a payload that can be written is no longer than
/// `MAX_ENCODED_PAYLOAD_LEN`.
proof fn lemma_payload_len_bound(p: Payload)
    requires
        payload_encodable(p@),
    ensures
        payload_bytes(p@).len() <= MAX_ENCODED_PAYLOAD_LEN,
{
    lemma_int_bytes_round_trip();
    if let Payload::Version(v) = p {
        lemma_version_payload_len(v);
    }
}

impl Message {
    /// A message of `command` on `network` carrying `payload`.
    pub fn new(network: Network, command: Command, payload: Payload) -> (r: Message)
        ensures
            r.network == network,
            r.command == command,
            r.payload == payload,
    {
        Message { network, command, payload }
    }

    /// The wire form of this message; it fails only where the payload cannot
    /// be written.
    pub fn to_bytes(&self) -> (r: Result<Vec<u8>, BTCP2PError>)
        ensures
            match r {
                Ok(b) => payload_encodable(self.payload@) && b@ == frame_bytes(self@),
                Err(e) => !payload_encodable(self.payload@) && e == BTCP2PError::UserAgentTooLong,
            },
    {
        encode_frame(self.network, self.command, &self.payload)
    }

    /// Decodes a message from the front of `bytes`, refusing payloads longer
    /// than 32 MiB; see `decode_message`.
    pub fn from_bytes(bytes: &[u8]) -> (r: Result<Message, BTCP2PError>)
        ensures
            match r {
                Ok(m) => decode_message(bytes@, MAX_PAYLOAD_SIZE) == Ok::<
                    MessageView,
                    BTCP2PError,
                >(m@),
                Err(e) => decode_message(bytes@, MAX_PAYLOAD_SIZE) == Err::<
                    MessageView,
                    BTCP2PError,
                >(e),
            },
    {
        Message::from_bytes_with_limit(bytes, MAX_PAYLOAD_SIZE)
    }

    /// Decodes a message from the front of `bytes`, refusing payloads longer
    /// than `max_payload_size`; see `decode_message`.
    pub fn from_bytes_with_limit(bytes: &[u8], max_payload_size: u32) -> (r: Result<
        Message,
        BTCP2PError,
    >)
        ensures
            match r {
                Ok(m) => decode_message(bytes@, max_payload_size) == Ok::<
                    MessageView,
                    BTCP2PError,
                >(m@),
                Err(e) => decode_message(bytes@, max_payload_size) == Err::<
                    MessageView,
                    BTCP2PError,
                >(e),
            },
    {
        let len = bytes.len();
        if len < HEADER_SIZE {
            return Err(BTCP2PError::InvalidHeaderSize);
        }
        let network = match Network::from_bytes(vstd::slice::slice_subrange(bytes, 0, 4)) {
            Ok(n) => n,
            Err(e) => return Err(e),
        };
        let command = match Command::from_bytes(vstd::slice::slice_subrange(bytes, 4, 16)) {
            Ok(c) => c,
            Err(e) => return Err(e),
        };
        let payload_len = read_le_u32(bytes, 16);
        if payload_len > max_payload_size {
            return Err(BTCP2PError::PayloadTooLarge);
        }
        if len - HEADER_SIZE < payload_len as usize {
            return Err(BTCP2PError::DecodeTruncated);
        }
        let end = HEADER_SIZE + payload_len as usize;
        let body = vstd::slice::slice_subrange(bytes, HEADER_SIZE, end);
        let sum = checksum(body);
        if !header_checksum_matches(bytes, &sum) {
            return Err(BTCP2PError::InvalidChecksum);
        }
        match Payload::from_bytes(&command, body) {
            Ok(payload) => Ok(Message { network, command, payload }),
            Err(e) => Err(e),
        }
    }
}

/// Whether the checksum field of the header at the front of `bytes` is `sum`.
fn header_checksum_matches(bytes: &[u8], sum: &[u8; 4]) -> (r: bool)
    requires
        bytes@.len() >= HEADER_SIZE,
    ensures
        r == (bytes@.subrange(20, 24) == sum@),
{
    let mut i: usize = 0;
    while i < CHECKSUM_SIZE
        invariant
            i <= CHECKSUM_SIZE,
            bytes@.len() >= HEADER_SIZE,
            forall|j: int| 0 <= j < i ==> bytes@[20 + j] == sum@[j],
        decreases CHECKSUM_SIZE - i,
    {
        if bytes[20 + i] != sum[i] {
            assert(bytes@.subrange(20, 24)[i as int] != sum@[i as int]);
            return false;
        }
        i = i + 1;
    }
    assert(bytes@.subrange(20, 24) =~= sum@);
    true
}

/// The wire form of a message of `command` on `network` carrying `payload`.
pub(crate) fn encode_frame(network: Network, command: Command, payload: &Payload) -> (r: Result<
    Vec<u8>,
    BTCP2PError,
>)
    ensures
        match r {
            Ok(b) => payload_encodable(payload@) && b@ == frame_bytes(
                MessageView { network, command, payload: payload@ },
            ),
            Err(e) => !payload_encodable(payload@) && e == BTCP2PError::UserAgentTooLong,
        },
{
    let body = match payload.to_bytes() {
        Ok(b) => b,
        Err(e) => return Err(e),
    };
    proof {
        lemma_payload_len_bound(*payload);
    }
    Ok(frame_with_body(network, command, &body))
}

/// The wire form of a message of `command` on `network` whose payload bytes
/// are `body`.
pub(crate) fn frame_with_body(network: Network, command: Command, body: &Vec<u8>) -> (r: Vec<u8>)
    requires
        body@.len() <= MAX_ENCODED_PAYLOAD_LEN,
    ensures
        r@ == frame_of(network, command, body@),
{
    let mut buf: Vec<u8> = Vec::new();
    let magic = Network::to_bytes(network);
    push_all(&mut buf, magic.as_slice());
    let name = command.name_bytes();
    push_all(&mut buf, name.as_slice());
    let ghost named = buf@;
    proof {
        lemma_command_round_trip(command);
    }
    let mut i: usize = name.len();
    while i < COMMAND_NAME_SIZE
        invariant
            name@ == command.name(),
            name@.len() <= i <= COMMAND_NAME_SIZE,
            buf@ == named + Seq::new((i - name@.len()) as nat, |k: int| 0u8),
        decreases COMMAND_NAME_SIZE - i,
    {
        buf.push(0u8);
        assert(buf@ =~= named + Seq::new((i + 1 - name@.len()) as nat, |k: int| 0u8));
        i = i + 1;
    }
    push_le_u32(&mut buf, body.len() as u32);
    let sum = checksum(body.as_slice());
    push_all(&mut buf, sum.as_slice());
    push_all(&mut buf, body.as_slice());
    assert(buf@ =~= frame_of(network, command, body@));
    buf
}

/// The header of a well-formed message's wire form holds what the message
/// says, and the payload follows it to the end.
proof fn lemma_frame_header(m: Message)
    requires
        well_formed(m@),
    ensures
        ({
            let f = frame_bytes(m@);
            let body = payload_bytes(m@.payload);
            &&& body.len() <= MAX_ENCODED_PAYLOAD_LEN
            &&& f.len() == HEADER_SIZE + body.len()
            &&& network_of_magic(f.subrange(0, 4)) == Ok::<Network, BTCP2PError>(m.network)
            &&& command_of_field(f.subrange(4, 16)) == Ok::<Command, BTCP2PError>(m.command)
            &&& declared_len(f) == body.len()
            &&& f.subrange(20, 24) == checksum_of(body)
            &&& f.subrange(24, f.len() as int) == body
        }),
{
    lemma_int_bytes_round_trip();
    lemma_network_round_trip(m.network);
    lemma_command_round_trip(m.command);
    lemma_payload_len_bound(m.payload);
    let body = payload_bytes(m@.payload);
    let f = frame_bytes(m@);
    assert(f.subrange(0, 4) =~= m.network.magic());
    assert(f.subrange(4, 16) =~= command_field(m.command));
    assert(f.subrange(16, 20) =~= spec_u32_to_le_bytes(body.len() as u32));
    assert(f.subrange(20, 24) =~= checksum_of(body));
    assert(f.subrange(24, f.len() as int) =~= body);
}

/// Decoding the wire form of a well-formed message gives it back.
pub proof fn lemma_message_round_trip(m: Message)
    requires
        well_formed(m@),
    ensures
        decode_message(frame_bytes(m@), MAX_PAYLOAD_SIZE) == Ok::<MessageView, BTCP2PError>(m@),
{
    lemma_frame_header(m);
    lemma_payload_round_trip(m.payload);
}

/// Any buffer shorter than a header decodes to `InvalidHeaderSize`.
pub proof fn lemma_short_buffer_rejected(b: Seq<u8>, max_payload_size: u32)
    requires
        b.len() < HEADER_SIZE,
    ensures
        decode_message(b, max_payload_size) == Err::<MessageView, BTCP2PError>(
            BTCP2PError::InvalidHeaderSize,
        ),
{
}

/// A header with known magic and command that declares a payload over the
/// ceiling decodes to `PayloadTooLarge`, whatever follows it.
pub proof fn lemma_oversized_payload_rejected(b: Seq<u8>, max_payload_size: u32)
    requires
        b.len() >= HEADER_SIZE,
        network_of_magic(b.subrange(0, 4)) is Ok,
        command_of_field(b.subrange(4, 16)) is Ok,
        declared_len(b) > max_payload_size,
    ensures
        decode_message(b, max_payload_size) == Err::<MessageView, BTCP2PError>(
            BTCP2PError::PayloadTooLarge,
        ),
{
}

/// Changing a payload byte of a well-formed message's wire form makes it
/// decode to `InvalidChecksum`, wherever the changed payload's checksum
/// differs from the original's (a four-byte checksum cannot tell every pair
/// of payloads apart).
pub proof fn lemma_corrupted_payload_rejected(m: Message, i: int, x: u8)
    requires
        well_formed(m@),
        HEADER_SIZE <= i < frame_bytes(m@).len(),
        frame_bytes(m@)[i] != x,
        checksum_of(frame_bytes(m@).update(i, x).subrange(24, frame_bytes(m@).len() as int))
            != checksum_of(payload_bytes(m@.payload)),
    ensures
        decode_message(frame_bytes(m@).update(i, x), MAX_PAYLOAD_SIZE) == Err::<
            MessageView,
            BTCP2PError,
        >(BTCP2PError::InvalidChecksum),
{
    lemma_frame_header(m);
    let f = frame_bytes(m@);
    let g = f.update(i, x);
    assert(g.subrange(0, 4) =~= f.subrange(0, 4));
    assert(g.subrange(4, 16) =~= f.subrange(4, 16));
    assert(g.subrange(16, 20) =~= f.subrange(16, 20));
    assert(g.subrange(20, 24) =~= f.subrange(20, 24));
}

} // verus!
