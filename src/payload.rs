use crate::command::Command;
use crate::errors::BTCP2PError;
use crate::wire::{
    lemma_int_bytes_round_trip, be_u16_bytes, be_u16_value, le_i32_bytes, le_i32_value, le_i64_bytes, le_i64_value, push_all,
    push_be_u16, push_le_u32, push_le_u64, read_array16, read_be_u16, read_le_u32, read_le_u64,
};
use vstd::bytes::*;
use vstd::prelude::*;
use vstd::utf8::*;

verus! {

/// The protocol version this library speaks.
pub const PROTOCOL_VERSION: i32 = 70015;

/// The user agent this library announces in its `version` messages.
pub const USER_AGENT: &'static str = "/btc_p2p:0.1.0/";

/// Bytes of a `version` payload before the user agent's length prefix.
pub const VERSION_FIXED_PREFIX: usize = 80;

/// Longest user agent, in bytes, that its one-byte length prefix can count.
pub const MAX_USER_AGENT_LEN: usize = 255;

/// The body of a message; which variant it is follows from the command that
/// comes with it.
#[derive(Debug, Clone, PartialEq, Eq)]
pub enum Payload {
    Version(VersionPayload),
    VerAck,
    Ping(u64),
    Pong(u64),
    Empty,
}

/// The services a node offers, as a bit field.
pub struct ServiceFlags(u64);

/// The body of a `version` message.
#[derive(Debug, Clone, PartialEq, Eq)]
pub struct VersionPayload {
    /// The highest protocol version the sender understands.
    pub version: i32,
    /// The services the sender offers.
    pub services: u64,
    /// The sender's clock, in seconds since the Unix epoch.
    pub timestamp: i64,
    /// The services of the receiving node, as the sender sees them.
    pub addr_recv_serv: u64,
    /// The receiving node's IPv6 address (IPv4 mapped), in network order.
    pub addr_recv: [u8; 16],
    /// The receiving node's port.
    pub addr_recv_port: u16,
    /// The services of the sending node.
    pub addr_trans_serv: u64,
    /// The sending node's IPv6 address (IPv4 mapped), in network order.
    pub addr_trans: [u8; 16],
    /// The sending node's port.
    pub addr_trans_port: u16,
    /// A random nonce, which lets a node detect a connection to itself.
    pub nonce: u64,
    /// The sender's software name and version.
    pub user_agent: String,
    /// The height of the sender's best block chain.
    pub start_height: i32,
    /// Whether the sender wants transactions announced to it.
    pub relay: bool,
}

/// An IP address as its octets.
#[derive(Debug, Clone, Copy, PartialEq, Eq)]
pub enum IpAddress {
    V4([u8; 4]),
    V6([u8; 16]),
}

/// An IP address with a port.
#[derive(Debug, Clone, Copy, PartialEq, Eq)]
pub struct SocketAddress {
    pub ip: IpAddress,
    pub port: u16,
}

/// A `VersionPayload` as mathematical values: the user agent as its
/// characters, the addresses as byte sequences.
pub struct VersionPayloadView {
    pub version: i32,
    pub services: u64,
    pub timestamp: i64,
    pub addr_recv_serv: u64,
    pub addr_recv: Seq<u8>,
    pub addr_recv_port: u16,
    pub addr_trans_serv: u64,
    pub addr_trans: Seq<u8>,
    pub addr_trans_port: u16,
    pub nonce: u64,
    pub user_agent: Seq<char>,
    pub start_height: i32,
    pub relay: bool,
}

/// A `Payload` as mathematical values.
pub enum PayloadView {
    Version(VersionPayloadView),
    VerAck,
    Ping(u64),
    Pong(u64),
    Empty,
}

impl View for VersionPayload {
    type V = VersionPayloadView;

    open spec fn view(&self) -> VersionPayloadView {
        VersionPayloadView {
            version: self.version,
            services: self.services,
            timestamp: self.timestamp,
            addr_recv_serv: self.addr_recv_serv,
            addr_recv: self.addr_recv@,
            addr_recv_port: self.addr_recv_port,
            addr_trans_serv: self.addr_trans_serv,
            addr_trans: self.addr_trans@,
            addr_trans_port: self.addr_trans_port,
            nonce: self.nonce,
            user_agent: self.user_agent@,
            start_height: self.start_height,
            relay: self.relay,
        }
    }
}

impl View for Payload {
    type V = PayloadView;

    open spec fn view(&self) -> PayloadView {
        match self {
            Payload::Version(v) => PayloadView::Version(v@),
            Payload::VerAck => PayloadView::VerAck,
            Payload::Ping(n) => PayloadView::Ping(*n),
            Payload::Pong(n) => PayloadView::Pong(*n),
            Payload::Empty => PayloadView::Empty,
        }
    }
}

impl View for ServiceFlags {
    type V = u64;

    closed spec fn view(&self) -> u64 {
        self.0
    }
}

/// The UTF-8 bytes of a user agent.
pub open spec fn user_agent_bytes(v: VersionPayloadView) -> Seq<u8> {
    encode_utf8(v.user_agent)
}

/// Whether a `version` payload can be written: its user agent fits behind a
/// one-byte length prefix.
pub open spec fn version_encodable(v: VersionPayloadView) -> bool {
    user_agent_bytes(v).len() <= MAX_USER_AGENT_LEN
}

/// The wire form of a `version` payload: the fields in order, integers
/// little-endian but for the ports, which are big-endian, the addresses as
/// their sixteen octets, and the user agent behind its length byte.
pub open spec fn version_payload_bytes(v: VersionPayloadView) -> Seq<u8> {
    le_i32_bytes(v.version) + spec_u64_to_le_bytes(v.services) + le_i64_bytes(v.timestamp)
        + spec_u64_to_le_bytes(v.addr_recv_serv) + v.addr_recv + be_u16_bytes(v.addr_recv_port)
        + spec_u64_to_le_bytes(v.addr_trans_serv) + v.addr_trans + be_u16_bytes(
        v.addr_trans_port,
    ) + spec_u64_to_le_bytes(v.nonce) + seq![user_agent_bytes(v).len() as u8] + user_agent_bytes(
        v,
    ) + le_i32_bytes(v.start_height) + seq![if v.relay { 1u8 } else { 0u8 }]
}

/// What decoding `b` as a `version` payload gives. A slice too short for
/// its fields, the user agent and the two fields after it included, is
/// truncated; only a slice long enough for all of them has its user agent
/// checked for UTF-8. Bytes after the last field are ignored.
pub open spec fn decode_version_payload(b: Seq<u8>) -> Result<VersionPayloadView, BTCP2PError> {
    if b.len() < VERSION_FIXED_PREFIX + 1 {
        Err(BTCP2PError::DecodeTruncated)
    } else {
        let n = b[80] as int;
        if b.len() < 86 + n {
            Err(BTCP2PError::DecodeTruncated)
        } else if !valid_utf8(b.subrange(81, 81 + n)) {
            Err(BTCP2PError::InvalidUtf8)
        } else {
            Ok(
                VersionPayloadView {
                    version: le_i32_value(b.subrange(0, 4)),
                    services: spec_u64_from_le_bytes(b.subrange(4, 12)),
                    timestamp: le_i64_value(b.subrange(12, 20)),
                    addr_recv_serv: spec_u64_from_le_bytes(b.subrange(20, 28)),
                    addr_recv: b.subrange(28, 44),
                    addr_recv_port: be_u16_value(b.subrange(44, 46)),
                    addr_trans_serv: spec_u64_from_le_bytes(b.subrange(46, 54)),
                    addr_trans: b.subrange(54, 70),
                    addr_trans_port: be_u16_value(b.subrange(70, 72)),
                    nonce: spec_u64_from_le_bytes(b.subrange(72, 80)),
                    user_agent: decode_utf8(b.subrange(81, 81 + n)),
                    start_height: le_i32_value(b.subrange(81 + n, 85 + n)),
                    relay: b[85 + n] != 0,
                },
            )
        }
    }
}

/// Whether a payload can be written.
pub open spec fn payload_encodable(p: PayloadView) -> bool {
    match p {
        PayloadView::Version(v) => version_encodable(v),
        _ => true,
    }
}

/// The wire form of a payload: nothing for `verack` and the empty payload,
/// the nonce little-endian for `ping` and `pong`.
pub open spec fn payload_bytes(p: PayloadView) -> Seq<u8> {
    match p {
        PayloadView::Version(v) => version_payload_bytes(v),
        PayloadView::VerAck => seq![],
        PayloadView::Ping(n) => spec_u64_to_le_bytes(n),
        PayloadView::Pong(n) => spec_u64_to_le_bytes(n),
        PayloadView::Empty => seq![],
    }
}

/// The command under which a payload travels; the empty payload has none.
pub open spec fn command_for(p: PayloadView) -> Option<Command> {
    match p {
        PayloadView::Version(_) => Some(Command::Version),
        PayloadView::VerAck => Some(Command::VerAck),
        PayloadView::Ping(_) => Some(Command::Ping),
        PayloadView::Pong(_) => Some(Command::Pong),
        PayloadView::Empty => None,
    }
}

/// What decoding `b` as the payload of a `c` message gives: `verack` takes
/// whatever bytes come, `ping` and `pong` exactly eight; any other length is
/// `DecodeTruncated`, the nonce's fixed width not being met.
pub open spec fn decode_payload(c: Command, b: Seq<u8>) -> Result<PayloadView, BTCP2PError> {
    match c {
        Command::Version => match decode_version_payload(b) {
            Ok(v) => Ok(PayloadView::Version(v)),
            Err(e) => Err(e),
        },
        Command::VerAck => Ok(PayloadView::VerAck),
        Command::Ping => if b.len() == 8 {
            Ok(PayloadView::Ping(spec_u64_from_le_bytes(b)))
        } else {
            Err(BTCP2PError::DecodeTruncated)
        },
        Command::Pong => if b.len() == 8 {
            Ok(PayloadView::Pong(spec_u64_from_le_bytes(b)))
        } else {
            Err(BTCP2PError::DecodeTruncated)
        },
    }
}

/// The sixteen octets under which an address travels: an IPv4 address mapped
/// into IPv6 (ten zero bytes, two `0xff` bytes, the four octets), an IPv6
/// address as it is.
pub open spec fn ipv6_octets(ip: IpAddress) -> Seq<u8> {
    match ip {
        IpAddress::V4(o) => Seq::new(10, |i: int| 0u8) + seq![0xffu8, 0xffu8] + o@,
        IpAddress::V6(o) => o@,
    }
}

/// std's `FromUtf8Error`, the error of `String::from_utf8`, carried opaquely.
#[verifier::external_type_specification]
#[verifier::external_body]
pub struct ExFromUtf8Error(std::string::FromUtf8Error);

/// Relies on std's `String::from_utf8`: it succeeds exactly when `bytes` are
/// valid UTF-8, and the string then holds the characters they encode.
#[verifier::external_body]
fn string_from_utf8(bytes: Vec<u8>) -> (r: Result<String, std::string::FromUtf8Error>)
    ensures
        r is Ok <==> valid_utf8(bytes@),
        r matches Ok(s) ==> s@ == decode_utf8(bytes@),
{
    String::from_utf8(bytes)
}

impl VersionPayload {
    /// Reads a `version` payload from the front of `bytes`, field by field;
    /// see `decode_version_payload` for what each input gives.
    pub fn from_bytes(bytes: &[u8]) -> (r: Result<VersionPayload, BTCP2PError>)
        ensures
            match r {
                Ok(v) => decode_version_payload(bytes@) == Ok::<VersionPayloadView, BTCP2PError>(
                    v@,
                ),
                Err(e) => decode_version_payload(bytes@) == Err::<VersionPayloadView, BTCP2PError>(
                    e,
                ),
            },
    {
        let len = bytes.len();
        if len < VERSION_FIXED_PREFIX + 1 {
            return Err(BTCP2PError::DecodeTruncated);
        }
        let n = bytes[80] as usize;
        if len < 86 + n {
            return Err(BTCP2PError::DecodeTruncated);
        }
        let ua_bytes = vstd::slice::slice_to_vec(vstd::slice::slice_subrange(bytes, 81, 81 + n));
        let user_agent = match string_from_utf8(ua_bytes) {
            Ok(s) => s,
            Err(_) => return Err(BTCP2PError::InvalidUtf8),
        };
        let v = VersionPayload {
            version: read_le_u32(bytes, 0) as i32,
            services: read_le_u64(bytes, 4),
            timestamp: read_le_u64(bytes, 12) as i64,
            addr_recv_serv: read_le_u64(bytes, 20),
            addr_recv: read_array16(bytes, 28),
            addr_recv_port: read_be_u16(bytes, 44),
            addr_trans_serv: read_le_u64(bytes, 46),
            addr_trans: read_array16(bytes, 54),
            addr_trans_port: read_be_u16(bytes, 70),
            nonce: read_le_u64(bytes, 72),
            user_agent,
            start_height: read_le_u32(bytes, 81 + n) as i32,
            relay: bytes[85 + n] != 0,
        };
        Ok(v)
    }

    /// The wire form of this payload, or `UserAgentTooLong` where the user
    /// agent's UTF-8 bytes do not fit behind a one-byte length prefix.
    pub fn to_bytes(&self) -> (r: Result<Vec<u8>, BTCP2PError>)
        ensures
            match r {
                Ok(b) => version_encodable(self@) && b@ == version_payload_bytes(self@),
                Err(e) => !version_encodable(self@) && e == BTCP2PError::UserAgentTooLong,
            },
    {
        let ua = self.user_agent.as_str().as_bytes();
        if ua.len() > MAX_USER_AGENT_LEN {
            return Err(BTCP2PError::UserAgentTooLong);
        }
        let mut buf: Vec<u8> = Vec::new();
        push_le_u32(&mut buf, self.version as u32);
        push_le_u64(&mut buf, self.services);
        push_le_u64(&mut buf, self.timestamp as u64);
        push_le_u64(&mut buf, self.addr_recv_serv);
        push_all(&mut buf, self.addr_recv.as_slice());
        push_be_u16(&mut buf, self.addr_recv_port);
        push_le_u64(&mut buf, self.addr_trans_serv);
        push_all(&mut buf, self.addr_trans.as_slice());
        push_be_u16(&mut buf, self.addr_trans_port);
        push_le_u64(&mut buf, self.nonce);
        buf.push(ua.len() as u8);
        push_all(&mut buf, ua);
        push_le_u32(&mut buf, self.start_height as u32);
        buf.push(if self.relay { 1u8 } else { 0u8 });
        assert(buf@ =~= version_payload_bytes(self@));
        Ok(buf)
    }
}

impl Payload {
    /// The wire form of this payload; it fails only on a `version` payload
    /// whose user agent is too long.
    pub fn to_bytes(&self) -> (r: Result<Vec<u8>, BTCP2PError>)
        ensures
            match r {
                Ok(b) => payload_encodable(self@) && b@ == payload_bytes(self@),
                Err(e) => !payload_encodable(self@) && e == BTCP2PError::UserAgentTooLong,
            },
    {
        match self {
            Payload::Version(v) => v.to_bytes(),
            Payload::VerAck => Ok(Vec::new()),
            Payload::Ping(n) => Ok(u64_to_le_bytes(*n)),
            Payload::Pong(n) => Ok(u64_to_le_bytes(*n)),
            Payload::Empty => Ok(Vec::new()),
        }
    }

    /// Reads the payload of a `command` message from `bytes`; see
    /// `decode_payload` for what each input gives.
    pub fn from_bytes(command: &Command, bytes: &[u8]) -> (r: Result<Payload, BTCP2PError>)
        ensures
            match r {
                Ok(p) => decode_payload(*command, bytes@) == Ok::<PayloadView, BTCP2PError>(p@),
                Err(e) => decode_payload(*command, bytes@) == Err::<PayloadView, BTCP2PError>(e),
            },
    {
        match command {
            Command::Version => match VersionPayload::from_bytes(bytes) {
                Ok(v) => Ok(Payload::Version(v)),
                Err(e) => Err(e),
            },
            Command::VerAck => Ok(Payload::VerAck),
            Command::Ping => if bytes.len() == 8 {
                Ok(Payload::Ping(u64_from_le_bytes(bytes)))
            } else {
                Err(BTCP2PError::DecodeTruncated)
            },
            Command::Pong => if bytes.len() == 8 {
                Ok(Payload::Pong(u64_from_le_bytes(bytes)))
            } else {
                Err(BTCP2PError::DecodeTruncated)
            },
        }
    }
}

/// The wire form of a `version` payload is its user agent plus 86 bytes.
pub(crate) proof fn lemma_version_payload_len(v: VersionPayload)
    ensures
        version_payload_bytes(v@).len() == 86 + user_agent_bytes(v@).len(),
{
    lemma_int_bytes_round_trip();
}

/// Decoding the wire form of a writable `version` payload gives it back.
pub proof fn lemma_version_payload_round_trip(v: VersionPayload)
    requires
        version_encodable(v@),
    ensures
        decode_version_payload(version_payload_bytes(v@)) == Ok::<VersionPayloadView, BTCP2PError>(
            v@,
        ),
{
    lemma_int_bytes_round_trip();
    broadcast use encode_utf8_valid_utf8, encode_utf8_decode_utf8;

    let w = v@;
    let b = version_payload_bytes(w);
    let ua = user_agent_bytes(w);
    let n = ua.len() as int;
    assert((n as u8) as int == n);
    assert(b.len() == 86 + n);
    assert(b[80] == n as u8);
    assert(b.subrange(0, 4) =~= le_i32_bytes(w.version));
    assert(b.subrange(4, 12) =~= spec_u64_to_le_bytes(w.services));
    assert(b.subrange(12, 20) =~= le_i64_bytes(w.timestamp));
    assert(b.subrange(20, 28) =~= spec_u64_to_le_bytes(w.addr_recv_serv));
    assert(b.subrange(28, 44) =~= w.addr_recv);
    assert(b.subrange(44, 46) =~= be_u16_bytes(w.addr_recv_port));
    assert(b.subrange(46, 54) =~= spec_u64_to_le_bytes(w.addr_trans_serv));
    assert(b.subrange(54, 70) =~= w.addr_trans);
    assert(b.subrange(70, 72) =~= be_u16_bytes(w.addr_trans_port));
    assert(b.subrange(72, 80) =~= spec_u64_to_le_bytes(w.nonce));
    assert(b.subrange(81, 81 + n) =~= ua);
    assert(b.subrange(81 + n, 85 + n) =~= le_i32_bytes(w.start_height));
    assert(b[85 + n] == if w.relay { 1u8 } else { 0u8 });
}

/// Decoding the wire form of a writable payload, under the command it
/// travels with, gives it back. The empty payload travels under no command.
pub proof fn lemma_payload_round_trip(p: Payload)
    requires
        payload_encodable(p@),
        command_for(p@) is Some,
    ensures
        decode_payload(command_for(p@)->0, payload_bytes(p@)) == Ok::<PayloadView, BTCP2PError>(
            p@,
        ),
{
    lemma_int_bytes_round_trip();
    if let Payload::Version(v) = p {
        lemma_version_payload_round_trip(v);
    }
}

/// The named service bits; `ServiceFlags::from_u64` turns one, or several
/// combined with `|`, into flags.
impl ServiceFlags {
    /// Not a full node: it may serve only the transactions it originates.
    pub const UNNAMED: u64 = 0;

    /// A full node, which can be asked for full blocks.
    pub const NODE_NETWORK: u64 = 0x1;

    /// A full node that answers the `getutxo` request.
    pub const NODE_GETUTXO: u64 = 0x2;

    /// A full node that accepts bloom-filtered connections.
    pub const NODE_BLOOM: u64 = 0x4;

    /// A full node that serves blocks and transactions with witness data.
    pub const NODE_WITNESS: u64 = 0x8;

    /// A full node that supports Xtreme Thinblocks.
    pub const NODE_XTHIN: u64 = 0x10;

    /// Like `NODE_NETWORK`, but keeping only the last 288 blocks.
    pub const NODE_NETWORK_LIMITED: u64 = 0x0400;

    /// The bit field as an integer.
    pub fn to_u64(self) -> (r: u64)
        ensures
            r == self@,
    {
        self.0
    }

    /// The flags whose bit field is `n`.
    pub fn from_u64(n: u64) -> (r: ServiceFlags)
        ensures
            r@ == n,
    {
        ServiceFlags(n)
    }
}

impl From<u64> for ServiceFlags {
    fn from(n: u64) -> (r: ServiceFlags)
        ensures
            r@ == n,
    {
        ServiceFlags(n)
    }
}

impl vstd::std_specs::convert::FromSpecImpl<u64> for ServiceFlags {
    open spec fn obeys_from_spec() -> bool {
        true
    }

    open spec fn from_spec(n: u64) -> ServiceFlags {
        ServiceFlags::from_u64_spec(n)
    }
}

impl ServiceFlags {
    /// The flags whose bit field is `n`.
    pub closed spec fn from_u64_spec(n: u64) -> ServiceFlags {
        ServiceFlags(n)
    }
}

impl VersionPayload {
    /// The sixteen octets and the port under which `socket` travels.
    fn socket_to_octets_and_port(socket: &SocketAddress) -> (r: ([u8; 16], u16))
        ensures
            r.0@ == ipv6_octets(socket.ip),
            r.1 == socket.port,
    {
        let octets: [u8; 16] = match socket.ip {
            IpAddress::V4(o) => {
                let mapped: [u8; 16] = [
                    0,
                    0,
                    0,
                    0,
                    0,
                    0,
                    0,
                    0,
                    0,
                    0,
                    0xff,
                    0xff,
                    o[0],
                    o[1],
                    o[2],
                    o[3],
                ];
                assert(mapped@ =~= ipv6_octets(socket.ip));
                mapped
            },
            IpAddress::V6(o) => o,
        };
        (octets, socket.port)
    }

    /// A `version` payload for a connection from `addr_trans_socket` to
    /// `addr_recv_socket`, stamped with `timestamp` (seconds since the Unix
    /// epoch), announcing this library's protocol version and user agent.
    pub fn build(
        services: ServiceFlags,
        addr_recv_serv: ServiceFlags,
        addr_recv_socket: SocketAddress,
        addr_trans_serv: ServiceFlags,
        addr_trans_socket: SocketAddress,
        nonce: u64,
        start_height: i32,
        relay: bool,
        timestamp: i64,
    ) -> (r: Payload)
        ensures
            r matches Payload::Version(v) && {
                &&& v.version == PROTOCOL_VERSION
                &&& v.services == services@
                &&& v.timestamp == timestamp
                &&& v.addr_recv_serv == addr_recv_serv@
                &&& v.addr_recv@ == ipv6_octets(addr_recv_socket.ip)
                &&& v.addr_recv_port == addr_recv_socket.port
                &&& v.addr_trans_serv == addr_trans_serv@
                &&& v.addr_trans@ == ipv6_octets(addr_trans_socket.ip)
                &&& v.addr_trans_port == addr_trans_socket.port
                &&& v.nonce == nonce
                &&& v.user_agent@ == USER_AGENT@
                &&& v.start_height == start_height
                &&& v.relay == relay
            },
    {
        let (addr_recv, addr_recv_port) = VersionPayload::socket_to_octets_and_port(
            &addr_recv_socket,
        );
        let (addr_trans, addr_trans_port) = VersionPayload::socket_to_octets_and_port(
            &addr_trans_socket,
        );
        Payload::Version(
            VersionPayload {
                version: PROTOCOL_VERSION,
                services: services.to_u64(),
                timestamp,
                addr_recv_serv: addr_recv_serv.to_u64(),
                addr_recv,
                addr_recv_port,
                addr_trans_serv: addr_trans_serv.to_u64(),
                addr_trans,
                addr_trans_port,
                nonce,
                user_agent: USER_AGENT.to_owned(),
                start_height,
                relay,
            },
        )
    }
}

} // verus!
